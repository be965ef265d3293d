use vstd::prelude::*;

verus! {

/// The seven general-purpose eight-bit registers and the flags byte `f`.
///
/// Pairs combine two cells big-endian: the first-named register is the high byte.
pub struct Registers {
    pub b: u8,
    pub c: u8,
    pub d: u8,
    pub e: u8,
    pub h: u8,
    pub l: u8,
    /// Condition codes: C at bit 0, P at bit 2, A at bit 4, Z at bit 6, S at bit 7.
    pub f: u8,
    pub a: u8,
}

/// A condition code of the flags byte.
#[derive(Clone, Copy, Debug, PartialEq, Eq, Structural)]
pub enum Flag {
    /// Sign: bit 7 of the result.
    S,
    /// Zero: the result is zero.
    Z,
    /// Auxiliary carry: carry or borrow out of bit 3.
    A,
    /// Parity: the result has an even number of one bits.
    P,
    /// Carry: carry out of, or borrow into, the top bit.
    C,
}

/// The single bit that holds flag `f` in the flags byte.
pub open spec fn flag_mask(f: Flag) -> u8 {
    match f {
        Flag::S => 0x80,
        Flag::Z => 0x40,
        Flag::A => 0x10,
        Flag::P => 0x04,
        Flag::C => 0x01,
    }
}

/// Whether flag `f` is set in the byte `x`.
pub open spec fn has_flag(x: u8, f: Flag) -> bool {
    x & flag_mask(f) == flag_mask(f)
}

/// The byte `x` with flag `f` set to `v` and every other bit kept.
pub open spec fn with_flag(x: u8, f: Flag, v: bool) -> u8 {
    if v {
        x | flag_mask(f)
    } else {
        x & !flag_mask(f)
    }
}

/// The sixteen-bit value whose high byte is `hi` and whose low byte is `lo`.
pub open spec fn pair(hi: u8, lo: u8) -> u16 {
    (hi * 256 + lo) as u16
}

/// The high byte of `v`.
pub open spec fn high(v: u16) -> u8 {
    (v / 256) as u8
}

/// The low byte of `v`.
pub open spec fn low(v: u16) -> u8 {
    (v % 256) as u8
}

/// The number of one bits of `x`.
pub open spec fn ones(x: nat) -> nat
    decreases x,
{
    if x == 0 {
        0
    } else {
        x % 2 + ones(x / 2)
    }
}

/// Whether `x` has an even number of one bits.
pub open spec fn even_parity(x: u8) -> bool {
    ones(x as nat) % 2 == 0
}

/// `f` with S, Z and P set from the eight-bit result `r`, all other bits kept.
pub open spec fn szp(f: u8, r: u8) -> u8 {
    with_flag(with_flag(with_flag(f, Flag::S, r >= 0x80), Flag::Z, r == 0), Flag::P, even_parity(r))
}

/// The flags byte that `update_flags_from` leaves: for each flag selected in `mask`,
/// the flag is derived from `v`, read as the result of an operation; the others are kept.
///
/// S is bit 7 of `v`, Z that the low byte of `v` is zero, P the parity of that low byte,
/// A that `v` exceeds a nibble and C that `v` exceeds a byte.
pub open spec fn flags_from(f: u8, v: int, mask: u8) -> u8 {
    let r = (v % 256) as u8;
    let f1 = if has_flag(mask, Flag::S) { with_flag(f, Flag::S, r >= 0x80) } else { f };
    let f2 = if has_flag(mask, Flag::Z) { with_flag(f1, Flag::Z, r == 0) } else { f1 };
    let f3 = if has_flag(mask, Flag::A) { with_flag(f2, Flag::A, v > 0x0f) } else { f2 };
    let f4 = if has_flag(mask, Flag::P) { with_flag(f3, Flag::P, even_parity(r)) } else { f3 };
    if has_flag(mask, Flag::C) { with_flag(f4, Flag::C, v > 0xff) } else { f4 }
}

/// The mask selecting S, Z and P.
pub const SZP_MASK: u8 = 0xc4;

proof fn lemma_mask_ops(x: u8, m: u8, n: u8)
    by (bit_vector)
    ensures
        (x | m) & m == m,
        (x & !m) & m == 0,
        m & n == 0 ==> (x | m) & n == x & n,
        m & n == 0 ==> (x & !m) & n == x & n,
{
}

proof fn lemma_masks_disjoint(f: Flag, g: Flag)
    ensures
        flag_mask(f) != 0,
        f != g ==> flag_mask(f) & flag_mask(g) == 0,
{
    assert(0x80u8 & 0x40u8 == 0 && 0x80u8 & 0x10u8 == 0 && 0x80u8 & 0x04u8 == 0 && 0x80u8
        & 0x01u8 == 0 && 0x40u8 & 0x80u8 == 0 && 0x40u8 & 0x10u8 == 0 && 0x40u8 & 0x04u8 == 0
        && 0x40u8 & 0x01u8 == 0 && 0x10u8 & 0x80u8 == 0 && 0x10u8 & 0x40u8 == 0 && 0x10u8
        & 0x04u8 == 0 && 0x10u8 & 0x01u8 == 0 && 0x04u8 & 0x80u8 == 0 && 0x04u8 & 0x40u8 == 0
        && 0x04u8 & 0x10u8 == 0 && 0x04u8 & 0x01u8 == 0 && 0x01u8 & 0x80u8 == 0 && 0x01u8
        & 0x40u8 == 0 && 0x01u8 & 0x10u8 == 0 && 0x01u8 & 0x04u8 == 0) by (bit_vector);
}

/// Setting a flag makes it read back as set, and leaves every other flag as it was.
pub proof fn lemma_with_flag(x: u8, f: Flag, v: bool, g: Flag)
    ensures
        has_flag(with_flag(x, f, v), g) == if f == g {
            v
        } else {
            has_flag(x, g)
        },
{
    lemma_mask_ops(x, flag_mask(f), flag_mask(g));
    lemma_masks_disjoint(f, g);
}

proof fn lemma_ones_le(x: nat)
    ensures
        ones(x) <= x,
    decreases x,
{
    if x > 0 {
        lemma_ones_le(x / 2);
    }
}

/// Whether `x` has an even number of one bits.
pub fn is_even_parity(x: u8) -> (r: bool)
    ensures
        r == even_parity(x),
{
    let mut v: u8 = x;
    let mut n: u8 = 0;
    proof {
        lemma_ones_le(x as nat);
    }
    while v > 0
        invariant
            n + ones(v as nat) == ones(x as nat),
            ones(x as nat) <= 255,
        decreases v,
    {
        n = n + v % 2;
        v = v / 2;
    }
    n % 2 == 0
}

impl Flag {
    /// The single bit that holds this flag in the flags byte.
    pub fn mask(self) -> (m: u8)
        ensures
            m == flag_mask(self),
    {
        match self {
            Flag::S => 0x80,
            Flag::Z => 0x40,
            Flag::A => 0x10,
            Flag::P => 0x04,
            Flag::C => 0x01,
        }
    }

    /// Whether flag `f` is set in the byte `x`.
    pub fn is_flag(x: u8, f: Self) -> (r: bool)
        ensures
            r == has_flag(x, f),
    {
        let m = f.mask();
        x & m == m
    }
}

impl core::ops::BitOr for Flag {
    type Output = u8;

    /// The byte with exactly the bits of both flags set.
    fn bitor(self, rhs: Self) -> (r: u8)
        ensures
            r == flag_mask(self) | flag_mask(rhs),
    {
        self.mask() | rhs.mask()
    }
}

impl vstd::std_specs::ops::BitOrSpecImpl for Flag {
    open spec fn obeys_bitor_spec() -> bool {
        true
    }

    open spec fn bitor_req(self, rhs: Flag) -> bool {
        true
    }

    open spec fn bitor_spec(self, rhs: Flag) -> u8 {
        flag_mask(self) | flag_mask(rhs)
    }
}

impl core::ops::BitOr<Flag> for u8 {
    type Output = u8;

    /// The byte `self` with the bit of `rhs` set as well.
    fn bitor(self, rhs: Flag) -> (r: u8)
        ensures
            r == self | flag_mask(rhs),
    {
        self | rhs.mask()
    }
}

impl vstd::std_specs::ops::BitOrSpecImpl<Flag> for u8 {
    open spec fn obeys_bitor_spec() -> bool {
        true
    }

    open spec fn bitor_req(self, rhs: Flag) -> bool {
        true
    }

    open spec fn bitor_spec(self, rhs: Flag) -> u8 {
        self | flag_mask(rhs)
    }
}

impl Registers {
    /// All registers zero, and the flags byte holding only its always-set bit 1.
    pub fn new() -> (r: Self)
        ensures
            r.a == 0 && r.b == 0 && r.c == 0 && r.d == 0,
            r.e == 0 && r.h == 0 && r.l == 0,
            r.f == 0x02,
    {
        Registers { b: 0, c: 0, d: 0, e: 0, h: 0, l: 0, a: 0, f: 0x02 }
    }

    pub fn get_af(&self) -> (r: u16)
        ensures
            r == pair(self.a, self.f),
    {
        (self.a as u16) * 256 + (self.f as u16)
    }

    pub fn get_bc(&self) -> (r: u16)
        ensures
            r == pair(self.b, self.c),
    {
        (self.b as u16) * 256 + (self.c as u16)
    }

    pub fn get_de(&self) -> (r: u16)
        ensures
            r == pair(self.d, self.e),
    {
        (self.d as u16) * 256 + (self.e as u16)
    }

    pub fn get_hl(&self) -> (r: u16)
        ensures
            r == pair(self.h, self.l),
    {
        (self.h as u16) * 256 + (self.l as u16)
    }

    pub fn set_af(&mut self, data: u16)
        ensures
            *final(self) == (Registers { a: high(data), f: low(data), ..*old(self) }),
    {
        self.a = (data / 256) as u8;
        self.f = (data % 256) as u8;
    }

    pub fn set_bc(&mut self, data: u16)
        ensures
            *final(self) == (Registers { b: high(data), c: low(data), ..*old(self) }),
    {
        self.b = (data / 256) as u8;
        self.c = (data % 256) as u8;
    }

    pub fn set_de(&mut self, data: u16)
        ensures
            *final(self) == (Registers { d: high(data), e: low(data), ..*old(self) }),
    {
        self.d = (data / 256) as u8;
        self.e = (data % 256) as u8;
    }

    pub fn set_hl(&mut self, data: u16)
        ensures
            *final(self) == (Registers { h: high(data), l: low(data), ..*old(self) }),
    {
        self.h = (data / 256) as u8;
        self.l = (data % 256) as u8;
    }

    pub fn get_flag(&self, f: Flag) -> (r: bool)
        ensures
            r == has_flag(self.f, f),
    {
        let m = f.mask();
        self.f & m == m
    }

    pub fn set_flag(&mut self, f: Flag, c: bool)
        ensures
            *final(self) == (Registers { f: with_flag(old(self).f, f, c), ..*old(self) }),
    {
        let m = f.mask();
        if c {
            self.f = self.f | m;
        } else {
            self.f = self.f & !m;
        }
    }

    /// Derives each flag selected in `mask` from `v`, read as the result of an operation
    /// (see `flags_from`); the other bits of the flags byte are kept.
    pub fn update_flags_from(&mut self, v: usize, mask: u8)
        ensures
            *final(self) == (Registers {
                f: flags_from(old(self).f, v as int, mask),
                ..*old(self)
            }),
    {
        let r = (v % 256) as u8;
        if Flag::is_flag(mask, Flag::S) {
            self.set_flag(Flag::S, r >= 0x80);
        }
        if Flag::is_flag(mask, Flag::Z) {
            self.set_flag(Flag::Z, r == 0);
        }
        if Flag::is_flag(mask, Flag::A) {
            self.set_flag(Flag::A, v > 0x0f);
        }
        if Flag::is_flag(mask, Flag::P) {
            let p = is_even_parity(r);
            self.set_flag(Flag::P, p);
        }
        if Flag::is_flag(mask, Flag::C) {
            self.set_flag(Flag::C, v > 0xff);
        }
    }
}

/// A pair splits back into the bytes it was made of.
pub proof fn lemma_pair_bytes(hi: u8, lo: u8)
    ensures
        high(pair(hi, lo)) == hi,
        low(pair(hi, lo)) == lo,
{
    assert((hi as int * 256 + lo as int) / 256 == hi as int) by (nonlinear_arith);
    assert((hi as int * 256 + lo as int) % 256 == lo as int) by (nonlinear_arith);
}

/// Deriving S, Z and P alone from an eight-bit result is `szp`.
pub proof fn lemma_flags_from_szp(f: u8, r: u8)
    ensures
        flags_from(f, r as int, SZP_MASK) == szp(f, r),
{
    assert(0xc4u8 & 0x80u8 == 0x80u8 && 0xc4u8 & 0x40u8 == 0x40u8 && 0xc4u8 & 0x10u8 != 0x10u8
        && 0xc4u8 & 0x04u8 == 0x04u8 && 0xc4u8 & 0x01u8 != 0x01u8) by (bit_vector);
}

} // verus!
