use vstd::prelude::*;

verus! {

/// Truncating integer division, the semantics of the hardware `/` operator:
/// the quotient is rounded toward zero. Spec-mode `/` on `int` is Euclidean,
/// so the two disagree on negative operands; this function states the
/// executable behaviour.
pub open spec fn trunc_div(a: int, b: int) -> int {
    if a == 0 {
        0
    } else if a > 0 && b > 0 {
        a / b
    } else if a < 0 && b < 0 {
        (a * -1) / (b * -1)
    } else if a < 0 {
        ((a * -1) / b) * -1
    } else {
        (a / (b * -1)) * -1
    }
}

/// Truncating integer remainder, paired with [`trunc_div`]: the remainder
/// carries the sign of the dividend, as the hardware `%` operator does.
pub open spec fn trunc_rem(a: int, b: int) -> int {
    if a == 0 {
        0
    } else if a > 0 && b > 0 {
        a % b
    } else if a < 0 && b < 0 {
        ((a * -1) % (b * -1)) * -1
    } else if a < 0 {
        ((a * -1) % b) * -1
    } else {
        a % (b * -1)
    }
}

/// The capability a type must offer to serve as a vector scalar: a value that
/// reads as a mathematical integer (`sval`), a representable range, the four
/// arithmetic operations with exact integer contracts, comparison, and a
/// round trip through `i128` for scalar-to-scalar casts.
///
/// Every arithmetic method requires the mathematical result to be
/// representable, so a verified caller can never overflow, and division by
/// zero is ruled out by `requires` rather than guarded at run time.
pub trait BaseNum: Sized + Copy {
    /// The scalar's value as a mathematical integer.
    spec fn sval(self) -> int;

    /// The smallest representable value.
    spec fn rep_min() -> int;

    /// The largest representable value.
    spec fn rep_max() -> int;

    /// The additive identity.
    fn zero() -> (r: Self)
        ensures
            r.sval() == 0,
    ;

    /// The multiplicative identity.
    fn one() -> (r: Self)
        ensures
            r.sval() == 1,
    ;

    /// The largest representable scalar, the stand-in for an unbounded ray
    /// parameter.
    fn max_value() -> (r: Self)
        ensures
            r.sval() == Self::rep_max(),
    ;

    fn num_add(self, other: Self) -> (r: Self)
        requires
            Self::rep_min() <= self.sval() + other.sval() <= Self::rep_max(),
        ensures
            r.sval() == self.sval() + other.sval(),
    ;

    fn num_sub(self, other: Self) -> (r: Self)
        requires
            Self::rep_min() <= self.sval() - other.sval() <= Self::rep_max(),
        ensures
            r.sval() == self.sval() - other.sval(),
    ;

    fn num_mul(self, other: Self) -> (r: Self)
        requires
            Self::rep_min() <= self.sval() * other.sval() <= Self::rep_max(),
        ensures
            r.sval() == self.sval() * other.sval(),
    ;

    /// Truncating division. The quotient must be representable, which also
    /// rules out the one overflowing signed case (the smallest value divided
    /// by minus one).
    fn num_div(self, other: Self) -> (r: Self)
        requires
            other.sval() != 0,
            Self::rep_min() <= trunc_div(self.sval(), other.sval()) <= Self::rep_max(),
        ensures
            r.sval() == trunc_div(self.sval(), other.sval()),
    ;

    /// Truncating remainder. The companion quotient must be representable,
    /// which rules out the same overflowing signed case as `num_div`.
    fn num_rem(self, other: Self) -> (r: Self)
        requires
            other.sval() != 0,
            Self::rep_min() <= trunc_div(self.sval(), other.sval()) <= Self::rep_max(),
        ensures
            r.sval() == trunc_rem(self.sval(), other.sval()),
    ;

    /// Negation. For an unsigned scalar only zero satisfies the `requires`.
    fn num_neg(self) -> (r: Self)
        requires
            Self::rep_min() <= -self.sval() <= Self::rep_max(),
        ensures
            r.sval() == -self.sval(),
    ;

    fn num_le(self, other: Self) -> (r: bool)
        ensures
            r == (self.sval() <= other.sval()),
    ;

    fn num_eq(self, other: Self) -> (r: bool)
        ensures
            r == (self.sval() == other.sval()),
    ;

    /// The value carried into `i128`, the widest type every scalar fits in.
    fn to_wide(self) -> (r: i128)
        ensures
            r as int == self.sval(),
    ;

    /// The scalar holding the given `i128` value, or `None` when the value
    /// is not representable.
    fn from_wide(v: i128) -> (r: Option<Self>)
        ensures
            (match r {
                Some(s) => Self::rep_min() <= v as int <= Self::rep_max()
                    && s.sval() == v as int,
                None => !(Self::rep_min() <= v as int <= Self::rep_max()),
            }),
    ;
}

/// Whether a mathematical value is representable in the scalar type.
pub open spec fn in_rep<S: BaseNum>(x: int) -> bool {
    S::rep_min() <= x <= S::rep_max()
}

/// Whether every component of a tuple is representable in the scalar type.
pub open spec fn seq_in_rep<S: BaseNum>(s: Seq<int>) -> bool {
    forall|i: int| 0 <= i < s.len() ==> in_rep::<S>(#[trigger] s[i])
}

impl BaseNum for i8 {
    open spec fn sval(self) -> int {
        self as int
    }

    open spec fn rep_min() -> int {
        i8::MIN as int
    }

    open spec fn rep_max() -> int {
        i8::MAX as int
    }

    fn zero() -> Self {
        0
    }

    fn one() -> Self {
        1
    }

    fn max_value() -> Self {
        i8::MAX
    }

    fn num_add(self, other: Self) -> Self {
        self + other
    }

    fn num_sub(self, other: Self) -> Self {
        self - other
    }

    fn num_mul(self, other: Self) -> Self {
        self * other
    }

    fn num_div(self, other: Self) -> Self {
        self.checked_div(other).unwrap()
    }

    fn num_rem(self, other: Self) -> Self {
        self.checked_rem(other).unwrap()
    }

    fn num_neg(self) -> Self {
        -self
    }

    fn num_le(self, other: Self) -> bool {
        self <= other
    }

    fn num_eq(self, other: Self) -> bool {
        self == other
    }

    fn to_wide(self) -> i128 {
        self as i128
    }

    fn from_wide(v: i128) -> Option<Self> {
        if i8::MIN as i128 <= v && v <= i8::MAX as i128 {
            Some(v as i8)
        } else {
            None
        }
    }
}

impl BaseNum for i16 {
    open spec fn sval(self) -> int {
        self as int
    }

    open spec fn rep_min() -> int {
        i16::MIN as int
    }

    open spec fn rep_max() -> int {
        i16::MAX as int
    }

    fn zero() -> Self {
        0
    }

    fn one() -> Self {
        1
    }

    fn max_value() -> Self {
        i16::MAX
    }

    fn num_add(self, other: Self) -> Self {
        self + other
    }

    fn num_sub(self, other: Self) -> Self {
        self - other
    }

    fn num_mul(self, other: Self) -> Self {
        self * other
    }

    fn num_div(self, other: Self) -> Self {
        self.checked_div(other).unwrap()
    }

    fn num_rem(self, other: Self) -> Self {
        self.checked_rem(other).unwrap()
    }

    fn num_neg(self) -> Self {
        -self
    }

    fn num_le(self, other: Self) -> bool {
        self <= other
    }

    fn num_eq(self, other: Self) -> bool {
        self == other
    }

    fn to_wide(self) -> i128 {
        self as i128
    }

    fn from_wide(v: i128) -> Option<Self> {
        if i16::MIN as i128 <= v && v <= i16::MAX as i128 {
            Some(v as i16)
        } else {
            None
        }
    }
}

impl BaseNum for i32 {
    open spec fn sval(self) -> int {
        self as int
    }

    open spec fn rep_min() -> int {
        i32::MIN as int
    }

    open spec fn rep_max() -> int {
        i32::MAX as int
    }

    fn zero() -> Self {
        0
    }

    fn one() -> Self {
        1
    }

    fn max_value() -> Self {
        i32::MAX
    }

    fn num_add(self, other: Self) -> Self {
        self + other
    }

    fn num_sub(self, other: Self) -> Self {
        self - other
    }

    fn num_mul(self, other: Self) -> Self {
        self * other
    }

    fn num_div(self, other: Self) -> Self {
        self.checked_div(other).unwrap()
    }

    fn num_rem(self, other: Self) -> Self {
        self.checked_rem(other).unwrap()
    }

    fn num_neg(self) -> Self {
        -self
    }

    fn num_le(self, other: Self) -> bool {
        self <= other
    }

    fn num_eq(self, other: Self) -> bool {
        self == other
    }

    fn to_wide(self) -> i128 {
        self as i128
    }

    fn from_wide(v: i128) -> Option<Self> {
        if i32::MIN as i128 <= v && v <= i32::MAX as i128 {
            Some(v as i32)
        } else {
            None
        }
    }
}

impl BaseNum for i64 {
    open spec fn sval(self) -> int {
        self as int
    }

    open spec fn rep_min() -> int {
        i64::MIN as int
    }

    open spec fn rep_max() -> int {
        i64::MAX as int
    }

    fn zero() -> Self {
        0
    }

    fn one() -> Self {
        1
    }

    fn max_value() -> Self {
        i64::MAX
    }

    fn num_add(self, other: Self) -> Self {
        self + other
    }

    fn num_sub(self, other: Self) -> Self {
        self - other
    }

    fn num_mul(self, other: Self) -> Self {
        self * other
    }

    fn num_div(self, other: Self) -> Self {
        self.checked_div(other).unwrap()
    }

    fn num_rem(self, other: Self) -> Self {
        self.checked_rem(other).unwrap()
    }

    fn num_neg(self) -> Self {
        -self
    }

    fn num_le(self, other: Self) -> bool {
        self <= other
    }

    fn num_eq(self, other: Self) -> bool {
        self == other
    }

    fn to_wide(self) -> i128 {
        self as i128
    }

    fn from_wide(v: i128) -> Option<Self> {
        if i64::MIN as i128 <= v && v <= i64::MAX as i128 {
            Some(v as i64)
        } else {
            None
        }
    }
}

impl BaseNum for isize {
    open spec fn sval(self) -> int {
        self as int
    }

    open spec fn rep_min() -> int {
        isize::MIN as int
    }

    open spec fn rep_max() -> int {
        isize::MAX as int
    }

    fn zero() -> Self {
        0
    }

    fn one() -> Self {
        1
    }

    fn max_value() -> Self {
        isize::MAX
    }

    fn num_add(self, other: Self) -> Self {
        self + other
    }

    fn num_sub(self, other: Self) -> Self {
        self - other
    }

    fn num_mul(self, other: Self) -> Self {
        self * other
    }

    fn num_div(self, other: Self) -> Self {
        self.checked_div(other).unwrap()
    }

    fn num_rem(self, other: Self) -> Self {
        self.checked_rem(other).unwrap()
    }

    fn num_neg(self) -> Self {
        -self
    }

    fn num_le(self, other: Self) -> bool {
        self <= other
    }

    fn num_eq(self, other: Self) -> bool {
        self == other
    }

    fn to_wide(self) -> i128 {
        self as i128
    }

    fn from_wide(v: i128) -> Option<Self> {
        if isize::MIN as i128 <= v && v <= isize::MAX as i128 {
            Some(v as isize)
        } else {
            None
        }
    }
}

impl BaseNum for u8 {
    open spec fn sval(self) -> int {
        self as int
    }

    open spec fn rep_min() -> int {
        0
    }

    open spec fn rep_max() -> int {
        u8::MAX as int
    }

    fn zero() -> Self {
        0
    }

    fn one() -> Self {
        1
    }

    fn max_value() -> Self {
        u8::MAX
    }

    fn num_add(self, other: Self) -> Self {
        self + other
    }

    fn num_sub(self, other: Self) -> Self {
        self - other
    }

    fn num_mul(self, other: Self) -> Self {
        self * other
    }

    fn num_div(self, other: Self) -> Self {
        self / other
    }

    fn num_rem(self, other: Self) -> Self {
        if self == 0 {
            0
        } else {
            self % other
        }
    }

    fn num_neg(self) -> Self {
        self
    }

    fn num_le(self, other: Self) -> bool {
        self <= other
    }

    fn num_eq(self, other: Self) -> bool {
        self == other
    }

    fn to_wide(self) -> i128 {
        self as i128
    }

    fn from_wide(v: i128) -> Option<Self> {
        if 0 <= v && v <= u8::MAX as i128 {
            Some(v as u8)
        } else {
            None
        }
    }
}

impl BaseNum for u16 {
    open spec fn sval(self) -> int {
        self as int
    }

    open spec fn rep_min() -> int {
        0
    }

    open spec fn rep_max() -> int {
        u16::MAX as int
    }

    fn zero() -> Self {
        0
    }

    fn one() -> Self {
        1
    }

    fn max_value() -> Self {
        u16::MAX
    }

    fn num_add(self, other: Self) -> Self {
        self + other
    }

    fn num_sub(self, other: Self) -> Self {
        self - other
    }

    fn num_mul(self, other: Self) -> Self {
        self * other
    }

    fn num_div(self, other: Self) -> Self {
        self / other
    }

    fn num_rem(self, other: Self) -> Self {
        if self == 0 {
            0
        } else {
            self % other
        }
    }

    fn num_neg(self) -> Self {
        self
    }

    fn num_le(self, other: Self) -> bool {
        self <= other
    }

    fn num_eq(self, other: Self) -> bool {
        self == other
    }

    fn to_wide(self) -> i128 {
        self as i128
    }

    fn from_wide(v: i128) -> Option<Self> {
        if 0 <= v && v <= u16::MAX as i128 {
            Some(v as u16)
        } else {
            None
        }
    }
}

impl BaseNum for u32 {
    open spec fn sval(self) -> int {
        self as int
    }

    open spec fn rep_min() -> int {
        0
    }

    open spec fn rep_max() -> int {
        u32::MAX as int
    }

    fn zero() -> Self {
        0
    }

    fn one() -> Self {
        1
    }

    fn max_value() -> Self {
        u32::MAX
    }

    fn num_add(self, other: Self) -> Self {
        self + other
    }

    fn num_sub(self, other: Self) -> Self {
        self - other
    }

    fn num_mul(self, other: Self) -> Self {
        self * other
    }

    fn num_div(self, other: Self) -> Self {
        self / other
    }

    fn num_rem(self, other: Self) -> Self {
        if self == 0 {
            0
        } else {
            self % other
        }
    }

    fn num_neg(self) -> Self {
        self
    }

    fn num_le(self, other: Self) -> bool {
        self <= other
    }

    fn num_eq(self, other: Self) -> bool {
        self == other
    }

    fn to_wide(self) -> i128 {
        self as i128
    }

    fn from_wide(v: i128) -> Option<Self> {
        if 0 <= v && v <= u32::MAX as i128 {
            Some(v as u32)
        } else {
            None
        }
    }
}

impl BaseNum for u64 {
    open spec fn sval(self) -> int {
        self as int
    }

    open spec fn rep_min() -> int {
        0
    }

    open spec fn rep_max() -> int {
        u64::MAX as int
    }

    fn zero() -> Self {
        0
    }

    fn one() -> Self {
        1
    }

    fn max_value() -> Self {
        u64::MAX
    }

    fn num_add(self, other: Self) -> Self {
        self + other
    }

    fn num_sub(self, other: Self) -> Self {
        self - other
    }

    fn num_mul(self, other: Self) -> Self {
        self * other
    }

    fn num_div(self, other: Self) -> Self {
        self / other
    }

    fn num_rem(self, other: Self) -> Self {
        if self == 0 {
            0
        } else {
            self % other
        }
    }

    fn num_neg(self) -> Self {
        self
    }

    fn num_le(self, other: Self) -> bool {
        self <= other
    }

    fn num_eq(self, other: Self) -> bool {
        self == other
    }

    fn to_wide(self) -> i128 {
        self as i128
    }

    fn from_wide(v: i128) -> Option<Self> {
        if 0 <= v && v <= u64::MAX as i128 {
            Some(v as u64)
        } else {
            None
        }
    }
}

impl BaseNum for usize {
    open spec fn sval(self) -> int {
        self as int
    }

    open spec fn rep_min() -> int {
        0
    }

    open spec fn rep_max() -> int {
        usize::MAX as int
    }

    fn zero() -> Self {
        0
    }

    fn one() -> Self {
        1
    }

    fn max_value() -> Self {
        usize::MAX
    }

    fn num_add(self, other: Self) -> Self {
        self + other
    }

    fn num_sub(self, other: Self) -> Self {
        self - other
    }

    fn num_mul(self, other: Self) -> Self {
        self * other
    }

    fn num_div(self, other: Self) -> Self {
        self / other
    }

    fn num_rem(self, other: Self) -> Self {
        if self == 0 {
            0
        } else {
            self % other
        }
    }

    fn num_neg(self) -> Self {
        self
    }

    fn num_le(self, other: Self) -> bool {
        self <= other
    }

    fn num_eq(self, other: Self) -> bool {
        self == other
    }

    fn to_wide(self) -> i128 {
        self as i128
    }

    fn from_wide(v: i128) -> Option<Self> {
        if 0 <= v && v <= usize::MAX as i128 {
            Some(v as usize)
        } else {
            None
        }
    }
}

} // verus!
