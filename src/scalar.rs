//! Scalar capabilities the wrappers rely on.
use vstd::math::abs;
use vstd::prelude::*;

verus! {

/// A scalar with a distinguished zero element.
pub trait Zero: Sized {
    /// Whether this value is the zero element.
    spec fn spec_is_zero(&self) -> bool;

    /// Returns the zero element.
    fn zero() -> (r: Self)
        ensures
            r.spec_is_zero(),
    ;

    /// Tests whether this value is the zero element.
    fn is_zero(&self) -> (r: bool)
        ensures
            r == self.spec_is_zero(),
    ;
}

/// A signed integer scalar, modelled by the mathematical integer it holds.
pub trait Signed: Zero + Copy {
    /// The integer this value stands for.
    spec fn spec_int(&self) -> int;

    /// The least value of the type.
    spec fn spec_min() -> int;

    /// The greatest value of the type.
    spec fn spec_max() -> int;

    /// Every value lies within the type's bounds, and is zero exactly when its integer is.
    proof fn lemma_model(v: Self)
        ensures
            Self::spec_min() <= v.spec_int() <= Self::spec_max(),
            Self::spec_min() < 0 < Self::spec_max(),
            v.spec_is_zero() <==> v.spec_int() == 0,
    ;

    /// Returns the magnitude of this value.
    fn abs(&self) -> (r: Self)
        requires
            self.spec_int() > Self::spec_min(),
        ensures
            r.spec_int() == abs(self.spec_int()),
    ;

    /// Returns the sum of this value and `rhs`.
    fn add(&self, rhs: &Self) -> (r: Self)
        requires
            Self::spec_min() <= self.spec_int() + rhs.spec_int() <= Self::spec_max(),
        ensures
            r.spec_int() == self.spec_int() + rhs.spec_int(),
    ;
}

impl Zero for u8 {
    open spec fn spec_is_zero(&self) -> bool {
        *self == 0
    }

    fn zero() -> (r: Self) {
        0
    }

    fn is_zero(&self) -> (r: bool) {
        *self == 0
    }
}

impl Zero for u16 {
    open spec fn spec_is_zero(&self) -> bool {
        *self == 0
    }

    fn zero() -> (r: Self) {
        0
    }

    fn is_zero(&self) -> (r: bool) {
        *self == 0
    }
}

impl Zero for u32 {
    open spec fn spec_is_zero(&self) -> bool {
        *self == 0
    }

    fn zero() -> (r: Self) {
        0
    }

    fn is_zero(&self) -> (r: bool) {
        *self == 0
    }
}

impl Zero for u64 {
    open spec fn spec_is_zero(&self) -> bool {
        *self == 0
    }

    fn zero() -> (r: Self) {
        0
    }

    fn is_zero(&self) -> (r: bool) {
        *self == 0
    }
}

impl Zero for i8 {
    open spec fn spec_is_zero(&self) -> bool {
        *self == 0
    }

    fn zero() -> (r: Self) {
        0
    }

    fn is_zero(&self) -> (r: bool) {
        *self == 0
    }
}

impl Zero for i16 {
    open spec fn spec_is_zero(&self) -> bool {
        *self == 0
    }

    fn zero() -> (r: Self) {
        0
    }

    fn is_zero(&self) -> (r: bool) {
        *self == 0
    }
}

impl Zero for i32 {
    open spec fn spec_is_zero(&self) -> bool {
        *self == 0
    }

    fn zero() -> (r: Self) {
        0
    }

    fn is_zero(&self) -> (r: bool) {
        *self == 0
    }
}

impl Zero for i64 {
    open spec fn spec_is_zero(&self) -> bool {
        *self == 0
    }

    fn zero() -> (r: Self) {
        0
    }

    fn is_zero(&self) -> (r: bool) {
        *self == 0
    }
}

impl Signed for i8 {
    open spec fn spec_int(&self) -> int {
        *self as int
    }

    open spec fn spec_min() -> int {
        i8::MIN as int
    }

    open spec fn spec_max() -> int {
        i8::MAX as int
    }

    proof fn lemma_model(v: Self) {
    }

    fn abs(&self) -> (r: Self) {
        if *self < 0 {
            -*self
        } else {
            *self
        }
    }

    fn add(&self, rhs: &Self) -> (r: Self) {
        *self + *rhs
    }
}

impl Signed for i16 {
    open spec fn spec_int(&self) -> int {
        *self as int
    }

    open spec fn spec_min() -> int {
        i16::MIN as int
    }

    open spec fn spec_max() -> int {
        i16::MAX as int
    }

    proof fn lemma_model(v: Self) {
    }

    fn abs(&self) -> (r: Self) {
        if *self < 0 {
            -*self
        } else {
            *self
        }
    }

    fn add(&self, rhs: &Self) -> (r: Self) {
        *self + *rhs
    }
}

impl Signed for i32 {
    open spec fn spec_int(&self) -> int {
        *self as int
    }

    open spec fn spec_min() -> int {
        i32::MIN as int
    }

    open spec fn spec_max() -> int {
        i32::MAX as int
    }

    proof fn lemma_model(v: Self) {
    }

    fn abs(&self) -> (r: Self) {
        if *self < 0 {
            -*self
        } else {
            *self
        }
    }

    fn add(&self, rhs: &Self) -> (r: Self) {
        *self + *rhs
    }
}

impl Signed for i64 {
    open spec fn spec_int(&self) -> int {
        *self as int
    }

    open spec fn spec_min() -> int {
        i64::MIN as int
    }

    open spec fn spec_max() -> int {
        i64::MAX as int
    }

    proof fn lemma_model(v: Self) {
    }

    fn abs(&self) -> (r: Self) {
        if *self < 0 {
            -*self
        } else {
            *self
        }
    }

    fn add(&self, rhs: &Self) -> (r: Self) {
        *self + *rhs
    }
}

} // verus!
