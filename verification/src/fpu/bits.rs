//! The encodings of floating-point numbers.
use vstd::prelude::*;

verus! {

/// A rounding direction.
#[derive(Clone, Copy, Debug, PartialEq, Eq, Structural)]
pub enum Round {
    NearestTiesToEven,
    TowardPositive,
    TowardNegative,
    TowardZero,
    NearestTiesToAway,
}

/// The status of an operation without an exception.
pub const STATUS_OK: u8 = 0x00;

/// The status of an invalid operation.
pub const STATUS_INVALID_OP: u8 = 0x01;

/// The status of a rounded result.
pub const STATUS_INEXACT: u8 = 0x10;

/// A binary interchange format.
#[derive(Clone, Copy, Debug, PartialEq, Eq, Structural)]
pub enum FloatFormat {
    Single,
    Double,
}

impl FloatFormat {
    /// The weight of the sign bit.
    pub open spec fn spec_sign_unit(self) -> int {
        match self {
            FloatFormat::Single => 0x8000_0000,
            FloatFormat::Double => 0x8000_0000_0000_0000,
        }
    }

    /// The number of fractions.
    pub open spec fn spec_fractions(self) -> int {
        match self {
            FloatFormat::Single => 0x80_0000,
            FloatFormat::Double => 0x10_0000_0000_0000,
        }
    }

    /// The magnitude of an infinity.
    pub open spec fn spec_infinity(self) -> int {
        match self {
            FloatFormat::Single => 0x7f80_0000,
            FloatFormat::Double => 0x7ff0_0000_0000_0000,
        }
    }

    /// The canonical NaN.
    pub open spec fn spec_canonical_nan(self) -> u64 {
        match self {
            FloatFormat::Single => 0x7fc0_0000,
            FloatFormat::Double => 0x7ff8_0000_0000_0000,
        }
    }

    /// Whether `x` encodes a number of this format.
    pub open spec fn encodes(self, x: u64) -> bool {
        x < 2 * self.spec_sign_unit()
    }

    /// Whether the sign bit is set.
    pub open spec fn sign(self, x: u64) -> bool {
        x >= self.spec_sign_unit()
    }

    /// The encoding without the sign bit.
    pub open spec fn magnitude(self, x: u64) -> int {
        if self.sign(x) {
            x - self.spec_sign_unit()
        } else {
            x as int
        }
    }

    pub open spec fn is_nan(self, x: u64) -> bool {
        self.magnitude(x) > self.spec_infinity()
    }

    /// Whether `x` is a NaN that raises the invalid flag wherever it is used.
    pub open spec fn is_signaling(self, x: u64) -> bool {
        self.is_nan(x) && self.magnitude(x) < self.spec_infinity() + self.spec_fractions() / 2
    }

    /// A number that orders all encodings but those of NaNs as the numbers that they encode.
    pub open spec fn order_key(self, x: u64) -> int {
        if self.sign(x) {
            -self.magnitude(x)
        } else {
            self.magnitude(x)
        }
    }

    /// The encoding with the sign replaced.
    pub open spec fn with_sign(self, x: u64, sign: bool) -> u64 {
        if sign {
            (self.magnitude(x) + self.spec_sign_unit()) as u64
        } else {
            self.magnitude(x) as u64
        }
    }

    pub fn sign_unit(self) -> (r: u64)
        ensures
            r == self.spec_sign_unit(),
    {
        match self {
            FloatFormat::Single => 0x8000_0000,
            FloatFormat::Double => 0x8000_0000_0000_0000,
        }
    }

    pub fn fractions(self) -> (r: u64)
        ensures
            r == self.spec_fractions(),
    {
        match self {
            FloatFormat::Single => 0x80_0000,
            FloatFormat::Double => 0x10_0000_0000_0000,
        }
    }

    pub fn infinity(self) -> (r: u64)
        ensures
            r == self.spec_infinity(),
    {
        match self {
            FloatFormat::Single => 0x7f80_0000,
            FloatFormat::Double => 0x7ff0_0000_0000_0000,
        }
    }

    pub fn canonical_nan(self) -> (r: u64)
        ensures
            r == self.spec_canonical_nan(),
            self.encodes(r),
    {
        match self {
            FloatFormat::Single => 0x7fc0_0000,
            FloatFormat::Double => 0x7ff8_0000_0000_0000,
        }
    }

    /// Whether the sign bit is set.
    pub fn is_negative(self, x: u64) -> (r: bool)
        ensures
            r == self.sign(x),
    {
        x >= self.sign_unit()
    }

    /// The encoding without the sign bit.
    pub fn without_sign(self, x: u64) -> (r: u64)
        requires
            self.encodes(x),
        ensures
            r == self.magnitude(x),
            r < self.spec_sign_unit(),
    {
        if x >= self.sign_unit() {
            x - self.sign_unit()
        } else {
            x
        }
    }

    pub fn check_nan(self, x: u64) -> (r: bool)
        requires
            self.encodes(x),
        ensures
            r == self.is_nan(x),
    {
        self.without_sign(x) > self.infinity()
    }

    pub fn check_signaling(self, x: u64) -> (r: bool)
        requires
            self.encodes(x),
        ensures
            r == self.is_signaling(x),
    {
        let m: u64 = self.without_sign(x);
        m > self.infinity() && m - self.infinity() < self.fractions() / 2
    }

    /// The encoding with the sign replaced.
    pub fn set_sign(self, x: u64, sign: bool) -> (r: u64)
        requires
            self.encodes(x),
        ensures
            r == self.with_sign(x, sign),
            self.encodes(r),
    {
        let m: u64 = self.without_sign(x);
        if sign {
            m + self.sign_unit()
        } else {
            m
        }
    }

    /// The encoding of the negated number.
    pub fn negate(self, x: u64) -> (r: u64)
        requires
            self.encodes(x),
        ensures
            r == self.with_sign(x, !self.sign(x)),
            self.encodes(r),
    {
        self.set_sign(x, !self.is_negative(x))
    }
}

/// The class mask of a number: one bit for each of the ten classes.
pub open spec fn class_of(f: FloatFormat, x: u64) -> u64 {
    let m = f.magnitude(x);
    if f.is_nan(x) {
        if f.is_signaling(x) {
            0x100
        } else {
            0x200
        }
    } else if m == f.spec_infinity() {
        if f.sign(x) {
            0x1
        } else {
            0x80
        }
    } else if m == 0 {
        if f.sign(x) {
            0x8
        } else {
            0x10
        }
    } else if m < f.spec_fractions() {
        if f.sign(x) {
            0x4
        } else {
            0x20
        }
    } else if f.sign(x) {
        0x2
    } else {
        0x40
    }
}

/// Classifies a number.
pub fn classify(f: FloatFormat, x: u64) -> (r: u64)
    requires
        f.encodes(x),
    ensures
        r == class_of(f, x),
{
    let m: u64 = f.without_sign(x);
    let negative = f.is_negative(x);
    if f.check_nan(x) {
        if f.check_signaling(x) {
            0x100
        } else {
            0x200
        }
    } else if m == f.infinity() {
        if negative {
            0x1
        } else {
            0x80
        }
    } else if m == 0 {
        if negative {
            0x8
        } else {
            0x10
        }
    } else if m < f.fractions() {
        if negative {
            0x4
        } else {
            0x20
        }
    } else if negative {
        0x2
    } else {
        0x40
    }
}

/// A number is in exactly one class.
pub proof fn law_one_class(f: FloatFormat, x: u64)
    requires
        f.encodes(x),
    ensures
        ({
            let c = class_of(f, x);
            c == 0x1 || c == 0x2 || c == 0x4 || c == 0x8 || c == 0x10 || c == 0x20 || c == 0x40
                || c == 0x80 || c == 0x100 || c == 0x200
        }),
        f.is_nan(x) <==> class_of(f, x) >= 0x100,
{
}

/// A comparison of numbers.
#[derive(Clone, Copy, Debug, PartialEq, Eq, Structural)]
pub enum FloatRelation {
    Eq,
    Lt,
    Le,
}

impl FloatRelation {
    /// Whether the relation holds, which it never does of a NaN, and the status.
    pub open spec fn compared(self, f: FloatFormat, a: u64, b: u64) -> (bool, u8) {
        let nan = f.is_nan(a) || f.is_nan(b);
        let holds = !nan && match self {
            FloatRelation::Eq => f.order_key(a) == f.order_key(b),
            FloatRelation::Lt => f.order_key(a) < f.order_key(b),
            FloatRelation::Le => f.order_key(a) <= f.order_key(b),
        };
        let invalid = match self {
            FloatRelation::Eq => f.is_signaling(a) || f.is_signaling(b),
            _ => nan,
        };
        (
            holds,
            if invalid {
                STATUS_INVALID_OP
            } else {
                STATUS_OK
            },
        )
    }

    pub fn check(self, f: FloatFormat, a: u64, b: u64) -> (r: (bool, u8))
        requires
            f.encodes(a),
            f.encodes(b),
        ensures
            r == self.compared(f, a, b),
    {
        let nan = f.check_nan(a) || f.check_nan(b);
        let holds = !nan && match self {
            FloatRelation::Eq => same(f, a, b),
            FloatRelation::Lt => below(f, a, b),
            FloatRelation::Le => !below(f, b, a),
        };
        let invalid = match self {
            FloatRelation::Eq => f.check_signaling(a) || f.check_signaling(b),
            _ => nan,
        };
        let status: u8 = if invalid {
            STATUS_INVALID_OP
        } else {
            STATUS_OK
        };
        (holds, status)
    }
}

fn same(f: FloatFormat, a: u64, b: u64) -> (r: bool)
    requires
        f.encodes(a),
        f.encodes(b),
    ensures
        r == (f.order_key(a) == f.order_key(b)),
{
    a == b || (f.without_sign(a) == 0 && f.without_sign(b) == 0)
}

fn below(f: FloatFormat, a: u64, b: u64) -> (r: bool)
    requires
        f.encodes(a),
        f.encodes(b),
    ensures
        r == (f.order_key(a) < f.order_key(b)),
{
    let ma: u64 = f.without_sign(a);
    let mb: u64 = f.without_sign(b);
    match (f.is_negative(a), f.is_negative(b)) {
        (false, false) => ma < mb,
        (true, true) => mb < ma,
        (true, false) => ma > 0 || mb > 0,
        (false, true) => false,
    }
}

/// The smaller (or with `max` the greater) of two numbers, and the status. A NaN counts only if
/// both are NaNs, and a negative zero is below a positive one.
pub open spec fn extreme_of(f: FloatFormat, max: bool, a: u64, b: u64) -> (u64, u8) {
    let status = if f.is_signaling(a) || f.is_signaling(b) {
        STATUS_INVALID_OP
    } else {
        STATUS_OK
    };
    let value = if f.is_nan(a) && f.is_nan(b) {
        f.spec_canonical_nan()
    } else if f.is_nan(a) {
        b
    } else if f.is_nan(b) {
        a
    } else if f.order_key(a) == f.order_key(b) {
        if f.sign(a) != max {
            a
        } else {
            b
        }
    } else if (f.order_key(a) < f.order_key(b)) != max {
        a
    } else {
        b
    };
    (value, status)
}

/// Picks the smaller or the greater of two numbers.
pub fn pick_extreme(f: FloatFormat, max: bool, a: u64, b: u64) -> (r: (u64, u8))
    requires
        f.encodes(a),
        f.encodes(b),
    ensures
        r == extreme_of(f, max, a, b),
        f.encodes(r.0),
{
    let status: u8 = if f.check_signaling(a) || f.check_signaling(b) {
        STATUS_INVALID_OP
    } else {
        STATUS_OK
    };
    let value: u64 = if f.check_nan(a) && f.check_nan(b) {
        f.canonical_nan()
    } else if f.check_nan(a) {
        b
    } else if f.check_nan(b) {
        a
    } else if same(f, a, b) {
        if f.is_negative(a) != max {
            a
        } else {
            b
        }
    } else if below(f, a, b) != max {
        a
    } else {
        b
    };
    (value, status)
}

/// How a sign is put together.
#[derive(Clone, Copy, Debug, PartialEq, Eq, Structural)]
pub enum SignInjection {
    /// The sign of the second operand.
    Copy,
    /// The opposite sign.
    Negate,
    /// Negative if the signs differ.
    Xor,
}

impl SignInjection {
    /// The first operand with the new sign.
    pub open spec fn injected(self, f: FloatFormat, a: u64, b: u64) -> u64 {
        f.with_sign(
            a,
            match self {
                SignInjection::Copy => f.sign(b),
                SignInjection::Negate => !f.sign(b),
                SignInjection::Xor => f.sign(a) != f.sign(b),
            },
        )
    }

    pub fn apply(self, f: FloatFormat, a: u64, b: u64) -> (r: u64)
        requires
            f.encodes(a),
            f.encodes(b),
        ensures
            r == self.injected(f, a, b),
            f.encodes(r),
    {
        let sign = match self {
            SignInjection::Copy => f.is_negative(b),
            SignInjection::Negate => !f.is_negative(b),
            SignInjection::Xor => f.is_negative(a) != f.is_negative(b),
        };
        f.set_sign(a, sign)
    }
}

} // verus!
