use vstd::prelude::*;

use crate::registers::{even_parity, has_flag, lemma_with_flag, szp, with_flag, Flag};

verus! {

/// The carry-in bit as a number.
pub open spec fn carry_in(cin: bool) -> int {
    if cin {
        1
    } else {
        0
    }
}

/// The eight-bit result of `x + y + cin`.
pub open spec fn add_result(x: u8, y: u8, cin: bool) -> u8 {
    ((x + y + carry_in(cin)) % 256) as u8
}

/// The flags after `x + y + cin`: S, Z, P from the result, A the carry out of bit 3,
/// C the carry out of bit 7.
pub open spec fn add_flags(f: u8, x: u8, y: u8, cin: bool) -> u8 {
    with_flag(
        with_flag(szp(f, add_result(x, y, cin)), Flag::A, x % 16 + y % 16 + carry_in(cin) > 15),
        Flag::C,
        x + y + carry_in(cin) > 255,
    )
}

/// The eight-bit result of `x - y - cin`, wrapping.
pub open spec fn sub_result(x: u8, y: u8, cin: bool) -> u8 {
    ((x - y - carry_in(cin)) % 256) as u8
}

/// The flags after `x - y - cin`: S, Z, P from the result, A the borrow out of bit 4,
/// C the borrow out of bit 8.
pub open spec fn sub_flags(f: u8, x: u8, y: u8, cin: bool) -> u8 {
    with_flag(
        with_flag(szp(f, sub_result(x, y, cin)), Flag::A, x % 16 - y % 16 - carry_in(cin) < 0),
        Flag::C,
        x < y + carry_in(cin),
    )
}

/// The flags after `x & y`: S, Z, P from the result, A set when bit 3 of either operand
/// is set, C cleared.
pub open spec fn ana_flags(f: u8, x: u8, y: u8) -> u8 {
    with_flag(with_flag(szp(f, x & y), Flag::A, (x | y) & 0x08 != 0), Flag::C, false)
}

/// The flags after an exclusive or inclusive or with result `r`: S, Z, P from the
/// result, A and C cleared.
pub open spec fn logic_flags(f: u8, r: u8) -> u8 {
    with_flag(with_flag(szp(f, r), Flag::A, false), Flag::C, false)
}

/// The flags after incrementing `x`: S, Z, P from the result, A the carry out of bit 3,
/// C kept.
pub open spec fn inr_flags(f: u8, x: u8) -> u8 {
    with_flag(szp(f, ((x + 1) % 256) as u8), Flag::A, x % 16 + 1 > 15)
}

/// The flags after decrementing `x`: S, Z, P from the result, A set unless the low
/// nibble of the result is 0xF, C kept.
pub open spec fn dcr_flags(f: u8, x: u8) -> u8 {
    let r = ((x + 255) % 256) as u8;
    with_flag(szp(f, r), Flag::A, r % 16 != 15)
}

/// The correction that decimal adjustment adds to `a`.
pub open spec fn daa_correction(a: u8, f: u8) -> u8 {
    let lo = a % 16;
    let hi = a / 16;
    let low_fix: int = if lo > 9 || has_flag(f, Flag::A) { 0x06 } else { 0 };
    let high_fix: int = if hi > 9 || has_flag(f, Flag::C) || (hi >= 9 && lo > 9) {
        0x60
    } else {
        0
    };
    (low_fix + high_fix) as u8
}

/// The carry after decimal adjustment of `a`.
pub open spec fn daa_carry(a: u8, f: u8) -> bool {
    let lo = a % 16;
    let hi = a / 16;
    hi > 9 || has_flag(f, Flag::C) || (hi >= 9 && lo > 9)
}

/// `a` rotated left by one: bit 7 comes round to bit 0.
pub open spec fn rotate_left(a: u8) -> u8 {
    ((a % 128) * 2 + a / 128) as u8
}

/// `a` rotated right by one: bit 0 comes round to bit 7.
pub open spec fn rotate_right(a: u8) -> u8 {
    (a / 2 + (a % 2) * 128) as u8
}

/// `a` shifted left by one with `cin` into bit 0.
pub open spec fn shift_left_in(a: u8, cin: bool) -> u8 {
    ((a % 128) * 2 + carry_in(cin)) as u8
}

/// `a` shifted right by one with `cin` into bit 7.
pub open spec fn shift_right_in(a: u8, cin: bool) -> u8 {
    (a / 2 + carry_in(cin) * 128) as u8
}

/// S, Z and P of `szp(f, r)` follow the result; A and C are kept.
pub proof fn lemma_szp(f: u8, r: u8)
    ensures
        has_flag(szp(f, r), Flag::S) == (r >= 0x80),
        has_flag(szp(f, r), Flag::Z) == (r == 0),
        has_flag(szp(f, r), Flag::P) == even_parity(r),
        has_flag(szp(f, r), Flag::A) == has_flag(f, Flag::A),
        has_flag(szp(f, r), Flag::C) == has_flag(f, Flag::C),
{
    broadcast use lemma_with_flag_auto;

}

/// Every flag of `with_flag(x, f, v)` is known from `x`, `f` and `v`.
pub broadcast proof fn lemma_with_flag_auto(x: u8, f: Flag, v: bool, g: Flag)
    ensures
        #[trigger] has_flag(with_flag(x, f, v), g) == if f == g {
            v
        } else {
            has_flag(x, g)
        },
{
    lemma_with_flag(x, f, v, g);
}

/// After an addition each flag meets its definition.
pub proof fn lemma_add_flags(f: u8, x: u8, y: u8, cin: bool)
    ensures
        ({
            let r = add_result(x, y, cin);
            let g = add_flags(f, x, y, cin);
            &&& has_flag(g, Flag::S) == (r >= 0x80)
            &&& has_flag(g, Flag::Z) == (r == 0)
            &&& has_flag(g, Flag::P) == even_parity(r)
            &&& has_flag(g, Flag::A) == (x % 16 + y % 16 + carry_in(cin) > 0x0f)
            &&& has_flag(g, Flag::C) == (x + y + carry_in(cin) > 0xff)
        }),
{
    broadcast use lemma_with_flag_auto;

    lemma_szp(f, add_result(x, y, cin));
}

/// After a subtraction or comparison each flag meets its definition.
pub proof fn lemma_sub_flags(f: u8, x: u8, y: u8, cin: bool)
    ensures
        ({
            let r = sub_result(x, y, cin);
            let g = sub_flags(f, x, y, cin);
            &&& has_flag(g, Flag::S) == (r >= 0x80)
            &&& has_flag(g, Flag::Z) == (r == 0)
            &&& has_flag(g, Flag::P) == even_parity(r)
            &&& has_flag(g, Flag::A) == (x % 16 - y % 16 - carry_in(cin) < 0)
            &&& has_flag(g, Flag::C) == (x < y + carry_in(cin))
        }),
{
    broadcast use lemma_with_flag_auto;

    lemma_szp(f, sub_result(x, y, cin));
}

/// After a logical and each flag meets its definition; C is clear.
pub proof fn lemma_ana_flags(f: u8, x: u8, y: u8)
    ensures
        ({
            let r = x & y;
            let g = ana_flags(f, x, y);
            &&& has_flag(g, Flag::S) == (r >= 0x80)
            &&& has_flag(g, Flag::Z) == (r == 0)
            &&& has_flag(g, Flag::P) == even_parity(r)
            &&& has_flag(g, Flag::A) == ((x | y) & 0x08 != 0)
            &&& !has_flag(g, Flag::C)
        }),
{
    broadcast use lemma_with_flag_auto;

    lemma_szp(f, x & y);
}

/// After an exclusive or inclusive or each flag meets its definition; A and C are clear.
pub proof fn lemma_logic_flags(f: u8, r: u8)
    ensures
        ({
            let g = logic_flags(f, r);
            &&& has_flag(g, Flag::S) == (r >= 0x80)
            &&& has_flag(g, Flag::Z) == (r == 0)
            &&& has_flag(g, Flag::P) == even_parity(r)
            &&& !has_flag(g, Flag::A)
            &&& !has_flag(g, Flag::C)
        }),
{
    broadcast use lemma_with_flag_auto;

    lemma_szp(f, r);
}

/// After an increment each flag meets its definition, and C is kept.
pub proof fn lemma_inr_flags(f: u8, x: u8)
    ensures
        ({
            let r = ((x + 1) % 256) as u8;
            let g = inr_flags(f, x);
            &&& has_flag(g, Flag::S) == (r >= 0x80)
            &&& has_flag(g, Flag::Z) == (r == 0)
            &&& has_flag(g, Flag::P) == even_parity(r)
            &&& has_flag(g, Flag::A) == (x % 16 + 1 > 0x0f)
            &&& has_flag(g, Flag::C) == has_flag(f, Flag::C)
        }),
{
    broadcast use lemma_with_flag_auto;

    lemma_szp(f, ((x + 1) % 256) as u8);
}

/// After a decrement each flag meets its definition, and C is kept.
pub proof fn lemma_dcr_flags(f: u8, x: u8)
    ensures
        ({
            let r = ((x + 255) % 256) as u8;
            let g = dcr_flags(f, x);
            &&& has_flag(g, Flag::S) == (r >= 0x80)
            &&& has_flag(g, Flag::Z) == (r == 0)
            &&& has_flag(g, Flag::P) == even_parity(r)
            &&& has_flag(g, Flag::A) == (r % 16 != 0x0f)
            &&& has_flag(g, Flag::C) == has_flag(f, Flag::C)
        }),
{
    broadcast use lemma_with_flag_auto;

    lemma_szp(f, ((x + 255) % 256) as u8);
}

} // verus!
