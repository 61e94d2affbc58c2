use witnessed::{Warrant, Witness, Witnessed};

use std::sync::atomic::{AtomicUsize, Ordering};

struct ZeroOne;

#[derive(Debug, PartialEq)]
enum ZErr {
    NonFinite,
    OutOfRange(f32),
}

impl Witness<f32> for ZeroOne {
    type Error = ZErr;

    fn verify(x: &f32) -> Result<(), Self::Error> {
        if !x.is_finite() {
            return Err(ZErr::NonFinite);
        }
        (0.0 <= *x && *x <= 1.0)
            .then_some(())
            .ok_or(ZErr::OutOfRange(*x))
    }
}

// If a, b are in [0, 1], so is a * b.
struct Mul01;
impl Warrant<f32, ZeroOne> for Mul01 {}

fn z(x: f32) -> Witnessed<f32, ZeroOne> {
    Witnessed::<f32, ZeroOne>::try_new(x).unwrap()
}

#[test]
fn zero_one_mul_is_zero_one() {
    let a = z(0.2);
    let b = z(0.3);

    let c = Mul01::warrant(|| *a * *b);

    assert!((*c - 0.06).abs() < 1e-6);
    assert!(ZeroOne::verify(c.as_ref()).is_ok());
}

static VERIFY: AtomicUsize = AtomicUsize::new(0);

struct Counted01;
impl Witness<f32> for Counted01 {
    type Error = ZErr;

    fn verify(x: &f32) -> Result<(), Self::Error> {
        VERIFY.fetch_add(1, Ordering::Relaxed);
        ZeroOne::verify(x)
    }
}

struct MulCounted01;
impl Warrant<f32, Counted01> for MulCounted01 {}

#[test]
fn warrant_only_verifies_in_debug() {
    VERIFY.store(0, Ordering::Relaxed);

    let a = Witnessed::<f32, Counted01>::try_new(0.4).unwrap();
    let b = Witnessed::<f32, Counted01>::try_new(0.5).unwrap();
    assert_eq!(VERIFY.load(Ordering::Relaxed), 2);

    let _c = MulCounted01::warrant(|| *a * *b);

    assert_eq!(VERIFY.load(Ordering::Relaxed), 2);
}

// Added case: the error of the witness is passed on by `try_new`.
#[test]
fn try_new_reports_zero_one_errors() {
    assert_eq!(
        Witnessed::<f32, ZeroOne>::try_new(f32::INFINITY).map(|w| w.into_inner()),
        Err(ZErr::NonFinite)
    );
    assert_eq!(
        Witnessed::<f32, ZeroOne>::try_new(1.5).map(|w| w.into_inner()),
        Err(ZErr::OutOfRange(1.5))
    );
}
