use geoproj::nonzero::NonZero;
use geoproj::positive::Positive;
use geoproj::projection::orthographic::OrthographicError;
use geoproj::projection::radius::radius_value;
use geoproj::scalar::{Signed, Zero};

#[test]
fn nonzero_new_rejects_zero_of_every_type() {
    assert!(NonZero::new(0u8).is_none());
    assert!(NonZero::new(0u16).is_none());
    assert!(NonZero::new(0u32).is_none());
    assert!(NonZero::new(0u64).is_none());
    assert!(NonZero::new(0i8).is_none());
    assert!(NonZero::new(0i16).is_none());
    assert!(NonZero::new(0i32).is_none());
    assert!(NonZero::new(0i64).is_none());
    assert!(NonZero::new(Positive::from(0i32)).is_none());
}

#[test]
fn nonzero_new_keeps_value() {
    assert_eq!(NonZero::new(1u8).map(NonZero::into_inner), Some(1));
    assert_eq!(NonZero::new(u64::MAX).map(NonZero::into_inner), Some(u64::MAX));
    assert_eq!(NonZero::new(-7i32).map(NonZero::into_inner), Some(-7));
    assert_eq!(NonZero::new(i64::MIN).map(NonZero::into_inner), Some(i64::MIN));
    let wrapped = NonZero::new(Positive::from(-5i16)).unwrap();
    assert_eq!(wrapped.into_inner().into_inner(), 5);
}

#[test]
fn nonzero_clone_and_compare() {
    let a = NonZero::new(3i32).unwrap();
    let b = a.clone();
    assert_eq!(a, b);
    assert!(NonZero::new(2i32).unwrap() < a);
}

#[test]
fn positive_from_negative_is_magnitude() {
    assert_eq!(Positive::from(-3i32).into_inner(), 3);
    assert_eq!(Positive::from(-127i8).into_inner(), 127);
    assert_eq!(Positive::from(-9_000_000_000i64).into_inner(), 9_000_000_000);
    assert_eq!(Positive::from(i64::MAX).into_inner(), i64::MAX);
}

#[test]
fn positive_from_nonnegative_is_unchanged() {
    assert_eq!(Positive::from(0i32).into_inner(), 0);
    assert_eq!(Positive::from(42i16).into_inner(), 42);
}

#[test]
fn positive_zero_is_zero() {
    assert!(Positive::<i8>::zero().is_zero());
    assert!(Positive::<i64>::zero().is_zero());
    assert_eq!(Positive::<i32>::zero().into_inner(), 0);
    assert!(!Positive::from(-1i32).is_zero());
}

#[test]
fn positive_add_sums() {
    let sum = Positive::from(-3i32).add(Positive::from(4i32));
    assert_eq!(sum.into_inner(), 7);
    let edge = Positive::from(100i8).add(Positive::from(-27i8));
    assert_eq!(edge.into_inner(), 127);
    assert_eq!(Positive::from(5i64).add(Positive::zero()).into_inner(), 5);
}

#[test]
fn positive_equality_and_order() {
    assert_eq!(Positive::from(-2i32), Positive::from(2i32));
    assert!(Positive::from(1i32) < Positive::from(-2i32));
}

#[test]
fn scalar_abs_and_add() {
    assert_eq!(Signed::abs(&-8i8), 8);
    assert_eq!(Signed::abs(&i32::MAX), i32::MAX);
    assert_eq!(Signed::add(&-8i16, &3), -5);
    assert!(Zero::is_zero(&0u16));
    assert!(!Zero::is_zero(&1u32));
    assert_eq!(<u64 as Zero>::zero(), 0);
}

#[test]
fn radius_from_zero_cannot_be_built() {
    assert!(NonZero::new(Positive::from(0i64)).is_none());
    assert!(NonZero::new(Positive::<i32>::zero()).is_none());
}

#[test]
fn radius_value_is_magnitude() {
    let radius = NonZero::new(Positive::from(-6_371i32)).unwrap();
    assert_eq!(radius_value(radius), 6_371);
    let unit = NonZero::new(Positive::from(1i8)).unwrap();
    assert_eq!(radius_value(unit), 1);
}

#[test]
fn orthographic_error_messages() {
    assert_eq!(
        OrthographicError::OutOfHemisphere.message(),
        "the point does not belongs to the hemisphere"
    );
    assert_eq!(
        OrthographicError::OutOfPlane.message(),
        "the point does not belongs to the plane"
    );
    assert_ne!(OrthographicError::OutOfHemisphere, OrthographicError::OutOfPlane);
}
