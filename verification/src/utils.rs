//! Fixed-width integers carried in 64-bit words.
use vstd::arithmetic::power2::*;
use vstd::bits::*;
use vstd::prelude::*;

verus! {

/// An operand width of the machine.
#[derive(Clone, Copy, Debug, PartialEq, Eq, Structural)]
pub enum Width {
    W8,
    W16,
    W32,
    W64,
}

impl Width {
    /// The number of values of this width.
    pub open spec fn modulus(self) -> int {
        match self {
            Width::W8 => 0x100,
            Width::W16 => 0x1_0000,
            Width::W32 => 0x1_0000_0000,
            Width::W64 => 0x1_0000_0000_0000_0000,
        }
    }

    /// The number of non-negative signed values of this width.
    pub open spec fn half(self) -> int {
        match self {
            Width::W8 => 0x80,
            Width::W16 => 0x8000,
            Width::W32 => 0x8000_0000,
            Width::W64 => 0x8000_0000_0000_0000,
        }
    }

    /// The width in bits.
    pub open spec fn spec_bits(self) -> int {
        match self {
            Width::W8 => 8,
            Width::W16 => 16,
            Width::W32 => 32,
            Width::W64 => 64,
        }
    }

    /// The width in bytes.
    pub open spec fn spec_bytes(self) -> int {
        match self {
            Width::W8 => 1,
            Width::W16 => 2,
            Width::W32 => 4,
            Width::W64 => 8,
        }
    }

    /// Whether `a` is a value of this width.
    pub open spec fn holds(self, a: u64) -> bool {
        a < self.modulus()
    }

    /// The value of `a` as a two's complement number of this width.
    pub open spec fn signed(self, a: u64) -> int {
        if a >= self.half() {
            a - self.modulus()
        } else {
            a as int
        }
    }

    /// The value of this width that is congruent to `v`.
    pub open spec fn wrap(self, v: int) -> u64 {
        (v % self.modulus()) as u64
    }

    pub fn bits(self) -> (r: u32)
        ensures
            r == self.spec_bits(),
    {
        match self {
            Width::W8 => 8,
            Width::W16 => 16,
            Width::W32 => 32,
            Width::W64 => 64,
        }
    }

    pub fn bytes(self) -> (r: usize)
        ensures
            r == self.spec_bytes(),
    {
        match self {
            Width::W8 => 1,
            Width::W16 => 2,
            Width::W32 => 4,
            Width::W64 => 8,
        }
    }

    /// The greatest value of this width.
    pub fn max_value(self) -> (r: u64)
        ensures
            r == self.modulus() - 1,
    {
        match self {
            Width::W8 => 0xff,
            Width::W16 => 0xffff,
            Width::W32 => 0xffff_ffff,
            Width::W64 => 0xffff_ffff_ffff_ffff,
        }
    }

    /// Drops the bits of `v` above this width.
    pub fn truncate(self, v: u64) -> (r: u64)
        ensures
            r == self.wrap(v as int),
            self.holds(r),
    {
        match self {
            Width::W8 => v % 0x100,
            Width::W16 => v % 0x1_0000,
            Width::W32 => v % 0x1_0000_0000,
            Width::W64 => v,
        }
    }

    /// Drops the bits of `v` above this width.
    pub fn truncate_u128(self, v: u128) -> (r: u64)
        ensures
            r == self.wrap(v as int),
            self.holds(r),
    {
        match self {
            Width::W8 => (v % 0x100) as u64,
            Width::W16 => (v % 0x1_0000) as u64,
            Width::W32 => (v % 0x1_0000_0000) as u64,
            Width::W64 => (v % 0x1_0000_0000_0000_0000) as u64,
        }
    }

    /// Whether `a` is negative as a number of this width.
    pub fn is_negative(self, a: u64) -> (r: bool)
        requires
            self.holds(a),
        ensures
            r == (self.signed(a) < 0),
    {
        match self {
            Width::W8 => a >= 0x80,
            Width::W16 => a >= 0x8000,
            Width::W32 => a >= 0x8000_0000,
            Width::W64 => a >= 0x8000_0000_0000_0000,
        }
    }

    /// The absolute value of `a` as a number of this width.
    pub fn magnitude(self, a: u64) -> (r: u64)
        requires
            self.holds(a),
        ensures
            r == if self.signed(a) < 0 {
                -self.signed(a)
            } else {
                self.signed(a)
            },
            r <= self.half(),
    {
        if self.is_negative(a) {
            (self.max_value() - a) + 1
        } else {
            a
        }
    }

    /// The value of this width that represents `-v`.
    pub fn negate(self, v: u64) -> (r: u64)
        requires
            self.holds(v),
        ensures
            r == self.wrap(-(v as int)),
            self.holds(r),
    {
        if v == 0 {
            0
        } else {
            (self.max_value() - v) + 1
        }
    }
}

/// Two raised to `n`.
pub fn pow2_u64(n: u32) -> (r: u64)
    requires
        n < 64,
    ensures
        r == pow2(n as nat),
        r > 0,
{
    proof {
        lemma_u64_pow2_no_overflow(n as nat);
        lemma_u64_shl_is_mul(1, n as u64);
    }
    1u64 << (n as u64)
}

/// What sign-extension of the low `from` bits of `value` to 64 bits gives.
pub open spec fn sign_extended(value: u64, from: u32) -> u64 {
    let m = pow2(from as nat) as int;
    let low = value as int % m;
    if low >= pow2((from - 1) as nat) {
        (low + 0x1_0000_0000_0000_0000 - m) as u64
    } else {
        low as u64
    }
}

/// Sign-extends the low `from` bits of `value` to 64 bits.
pub fn sign_extend(value: u64, from: u32) -> (r: u64)
    requires
        1 <= from < 64,
    ensures
        r == sign_extended(value, from),
{
    let m: u64 = pow2_u64(from);
    let half: u64 = pow2_u64(from - 1);
    proof {
        lemma_pow2_unfold(from as nat);
    }
    let low: u64 = value % m;
    if low >= half {
        (0xffff_ffff_ffff_ffff - m) + 1 + low
    } else {
        low
    }
}

/// What sign-extension of a value of width `w` to 64 bits gives.
pub open spec fn widened(w: Width, a: u64) -> u64 {
    Width::W64.wrap(w.signed(a))
}

/// Sign-extends a value of width `w` to 64 bits.
pub fn widen(w: Width, a: u64) -> (r: u64)
    requires
        w.holds(a),
    ensures
        r == widened(w, a),
{
    if w.is_negative(a) {
        Width::W64.negate(w.magnitude(a))
    } else {
        a
    }
}

/// Sign-extends the low 32 bits of `a`.
pub fn sign_extend_u32(a: u32) -> (r: u64)
    ensures
        r == widened(Width::W32, a as u64),
{
    widen(Width::W32, a as u64)
}

/// Whether a value is the sign-extension of its low 32 bits.
pub open spec fn is_word(value: u64) -> bool {
    value < 0x8000_0000 || value >= 0xffff_ffff_8000_0000
}

/// Sign-extension of at most 32 bits gives the sign-extension of 32 bits.
pub proof fn lemma_sign_extended(value: u64, from: u32)
    requires
        1 <= from <= 32,
    ensures
        is_word(sign_extended(value, from)),
{
    let m = pow2(from as nat) as int;
    let half = pow2((from - 1) as nat) as int;
    lemma_pow2_unfold(from as nat);
    lemma2_to64();
    if from < 33 {
        lemma_pow2_grows((from - 1) as nat, 31);
    }
    vstd::arithmetic::div_mod::lemma_mod_bound(value as int, m);
}

proof fn lemma_pow2_grows(a: nat, b: nat)
    requires
        a <= b,
    ensures
        0 < pow2(a) <= pow2(b),
    decreases b - a,
{
    lemma_pow2_pos(a);
    if a < b {
        lemma_pow2_grows(a, (b - 1) as nat);
        lemma_pow2_unfold(b);
    }
}

/// The two's complement of `value`.
pub fn negative_of(value: u64) -> (r: u64)
    ensures
        r == Width::W64.wrap(-(value as int)),
{
    Width::W64.negate(value)
}

/// Adds modulo the word size.
pub fn add64(a: u64, b: u64) -> (r: u64)
    ensures
        r == Width::W64.wrap(a + b),
{
    let r: u64 = a.wrapping_add(b);
    assert(r == (a + b) % 0x1_0000_0000_0000_0000);
    r
}

/// Whether `addr` is a multiple of the width in bytes.
pub open spec fn aligned(w: Width, addr: u64) -> bool {
    addr as int % w.spec_bytes() == 0
}

/// Whether `addr` is naturally aligned for an access of width `w`.
pub fn check_align(w: Width, addr: u64) -> (r: bool)
    ensures
        r == aligned(w, addr),
{
    match w {
        Width::W8 => true,
        Width::W16 => addr % 2 == 0,
        Width::W32 => addr % 4 == 0,
        Width::W64 => addr % 8 == 0,
    }
}

/// Extracts the bits `low` to `high` of `value`, both included.
pub fn extract_range(value: u64, low: u32, high: u32) -> (r: u64)
    requires
        low <= high < 64,
        high - low < 63,
    ensures
        r == (value as int / pow2(low as nat) as int) % (pow2((high - low + 1) as nat) as int),
{
    (value / pow2_u64(low)) % pow2_u64(high - low + 1)
}

} // verus!
