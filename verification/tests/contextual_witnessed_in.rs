use witnessed::{WitnessIn, WitnessInExt, WitnessedIn};

use std::cmp::Ordering as CmpOrdering;
use std::collections::hash_map::DefaultHasher;
use std::hash::{Hash, Hasher};
use std::sync::atomic::{AtomicUsize, Ordering};

/// Accepts any value under any environment.
struct AnyIn;

impl<T, Env: ?Sized> WitnessIn<T, Env> for AnyIn {
    type Error = std::convert::Infallible;

    fn verify_in(_: &Env, _: &T) -> Result<(), Self::Error> {
        Ok(())
    }
}

/// Normalized membership of an `f32` in a finite, non-empty environment summing to one.
struct Normalized;

#[derive(Debug, PartialEq)]
enum NormErr {
    EnvEmpty,
    EnvNonFinite,
    EnvSumNotOne { sum: f32 },
    ValueNonFinite,
    NotMember { x: f32 },
}

impl WitnessIn<f32, [f32]> for Normalized {
    type Error = NormErr;

    fn verify_in(env: &[f32], x: &f32) -> Result<(), Self::Error> {
        if env.is_empty() {
            return Err(NormErr::EnvEmpty);
        }
        if !x.is_finite() {
            return Err(NormErr::ValueNonFinite);
        }
        if !env.iter().all(|v| v.is_finite()) {
            return Err(NormErr::EnvNonFinite);
        }

        let sum = env.iter().copied().sum::<f32>();
        let eps = 1e-6f32;
        if (sum - 1.0).abs() > eps {
            return Err(NormErr::EnvSumNotOne { sum });
        }

        env.iter()
            .any(|v| v == x)
            .then_some(())
            .ok_or(NormErr::NotMember { x: *x })
    }
}

#[test]
fn witnessed_in_try_new_in_ok_for_member_and_env_sum_one() {
    let env = vec![0.2, 0.3, 0.5];
    let w = WitnessedIn::<[f32], f32, Normalized>::try_new_in(env.as_slice(), 0.3).unwrap();

    assert_eq!(*w, 0.3);
    assert!(std::ptr::eq(w.env(), env.as_slice()));
    assert!(Normalized::verify_in(env.as_slice(), w.as_ref()).is_ok());
}

#[test]
fn witnessed_in_try_new_in_err_when_env_sum_not_one() {
    let env = vec![0.2, 0.3, 0.6];
    let e = WitnessedIn::<[f32], f32, Normalized>::try_new_in(env.as_slice(), 0.3).unwrap_err();
    assert_eq!(e, NormErr::EnvSumNotOne { sum: 1.1 });
}

#[test]
fn witnessed_in_try_new_in_err_when_value_not_member() {
    let env = vec![0.2, 0.3, 0.5];
    let e = WitnessedIn::<[f32], f32, Normalized>::try_new_in(env.as_slice(), 0.4).unwrap_err();
    assert_eq!(e, NormErr::NotMember { x: 0.4 });
}

#[test]
fn witnessed_in_try_new_in_err_when_env_contains_non_finite() {
    let env = vec![0.2, f32::NAN, 0.8];
    let e = WitnessedIn::<[f32], f32, Normalized>::try_new_in(env.as_slice(), 0.2).unwrap_err();
    assert_eq!(e, NormErr::EnvNonFinite);
}

#[test]
fn witnessed_in_try_new_in_err_when_value_non_finite() {
    let env = vec![0.2, 0.3, 0.5];
    let e = WitnessedIn::<[f32], f32, Normalized>::try_new_in(env.as_slice(), f32::NAN)
        .unwrap_err();
    assert_eq!(e, NormErr::ValueNonFinite);
}

static CALLS: AtomicUsize = AtomicUsize::new(0);

struct CountOnceNorm;

impl WitnessIn<f32, [f32]> for CountOnceNorm {
    type Error = NormErr;

    fn verify_in(env: &[f32], x: &f32) -> Result<(), Self::Error> {
        CALLS.fetch_add(1, Ordering::Relaxed);
        Normalized::verify_in(env, x)
    }
}

#[test]
fn witnessed_in_try_new_in_calls_witness_exactly_once() {
    let env = vec![0.2, 0.3, 0.5];

    CALLS.store(0, Ordering::Relaxed);
    let _ = WitnessedIn::<[f32], f32, CountOnceNorm>::try_new_in(env.as_slice(), 0.2);
    assert_eq!(CALLS.load(Ordering::Relaxed), 1);

    let _ = WitnessedIn::<[f32], f32, CountOnceNorm>::try_new_in(env.as_slice(), 0.9);
    assert_eq!(CALLS.load(Ordering::Relaxed), 2);
}

#[derive(Clone, Copy)]
struct MaxLen {
    max: usize,
}

struct StrNonEmptyAndMax;

#[derive(Debug, PartialEq, Eq)]
enum StrMaxErr {
    Empty,
    TooLong { len: usize, max: usize },
}

impl WitnessIn<String, MaxLen> for StrNonEmptyAndMax {
    type Error = StrMaxErr;

    fn verify_in(env: &MaxLen, s: &String) -> Result<(), Self::Error> {
        if s.is_empty() {
            return Err(StrMaxErr::Empty);
        }
        let len = s.len();
        (len <= env.max)
            .then_some(())
            .ok_or(StrMaxErr::TooLong { len, max: env.max })
    }
}

#[test]
fn witnessed_in_try_new_in_env_dependent_string_invariant_ok() {
    let env = MaxLen { max: 5 };
    let w = WitnessedIn::<MaxLen, String, StrNonEmptyAndMax>::try_new_in(&env, "hello".into())
        .unwrap();
    assert_eq!(w.as_ref(), "hello");
    assert!(std::ptr::eq(w.env(), &env));
}

#[test]
fn witnessed_in_try_new_in_env_dependent_string_invariant_fails() {
    let env = MaxLen { max: 5 };

    let e = WitnessedIn::<MaxLen, String, StrNonEmptyAndMax>::try_new_in(&env, "".into())
        .unwrap_err();
    assert_eq!(e, StrMaxErr::Empty);

    let e = WitnessedIn::<MaxLen, String, StrNonEmptyAndMax>::try_new_in(&env, "toolong".into())
        .unwrap_err();
    assert_eq!(
        e,
        StrMaxErr::TooLong {
            len: "toolong".len(),
            max: 5
        }
    );
}

#[derive(Clone, Copy)]
struct AbcEnv {
    max_a_len: usize,
}

struct AbcIn;

#[derive(Debug, PartialEq, Eq)]
enum AbcInErr {
    AEmpty,
    ATooLong { len: usize, max: usize },
    BOdd { b: u32 },
    CNonAscii,
}

impl WitnessIn<(String, u32, Vec<u8>), AbcEnv> for AbcIn {
    type Error = AbcInErr;

    fn verify_in(env: &AbcEnv, input: &(String, u32, Vec<u8>)) -> Result<(), Self::Error> {
        let (a, b, c) = input;

        if a.trim().is_empty() {
            return Err(AbcInErr::AEmpty);
        }
        let len = a.len();
        if len > env.max_a_len {
            return Err(AbcInErr::ATooLong {
                len,
                max: env.max_a_len,
            });
        }
        if b % 2 != 0 {
            return Err(AbcInErr::BOdd { b: *b });
        }
        if !c.is_ascii() {
            return Err(AbcInErr::CNonAscii);
        }
        Ok(())
    }
}

#[test]
fn witnessed_in_try_new_in_composite_tuple_ok() {
    let env = AbcEnv { max_a_len: 16 };
    let w = WitnessedIn::<AbcEnv, (String, u32, Vec<u8>), AbcIn>::try_new_in(
        &env,
        ("  hello  ".into(), 42, b"ABC".to_vec()),
    )
    .unwrap();

    assert_eq!((w.as_ref().0).as_str(), "  hello  ");
    assert_eq!(w.as_ref().1, 42);
    assert_eq!(w.as_ref().2.as_slice(), b"ABC");
    assert!(std::ptr::eq(w.env(), &env));
}

#[test]
fn witnessed_in_try_new_in_composite_tuple_fails_on_each_invariant() {
    let env = AbcEnv { max_a_len: 16 };

    let e = WitnessedIn::<AbcEnv, (String, u32, Vec<u8>), AbcIn>::try_new_in(
        &env,
        ("   ".into(), 2, b"ABC".to_vec()),
    )
    .unwrap_err();
    assert_eq!(e, AbcInErr::AEmpty);

    let e = WitnessedIn::<AbcEnv, (String, u32, Vec<u8>), AbcIn>::try_new_in(
        &env,
        ("ok".into(), 3, b"ABC".to_vec()),
    )
    .unwrap_err();
    assert_eq!(e, AbcInErr::BOdd { b: 3 });

    let e = WitnessedIn::<AbcEnv, (String, u32, Vec<u8>), AbcIn>::try_new_in(
        &env,
        ("ok".into(), 4, vec![0xFF]),
    )
    .unwrap_err();
    assert_eq!(e, AbcInErr::CNonAscii);

    let e = WitnessedIn::<AbcEnv, (String, u32, Vec<u8>), AbcIn>::try_new_in(
        &env,
        ("this string is way too long".into(), 4, b"ABC".to_vec()),
    )
    .unwrap_err();
    assert_eq!(
        e,
        AbcInErr::ATooLong {
            len: "this string is way too long".len(),
            max: 16
        }
    );
}

#[test]
fn witnessed_in_debug_fmt_matches_tuple_shape_without_regex() {
    let env = vec![0.2, 0.3, 0.5];
    let w = WitnessedIn::<[f32], f32, Normalized>::try_new_in(env.as_slice(), 0.3).unwrap();
    let s = format!("{:?}", w);

    assert!(s.starts_with("WitnessedIn("));
    assert!(s.ends_with(')'));

    let inner = &s["WitnessedIn(".len()..s.len() - 1];
    assert!(
        inner.chars().all(|c| c.is_ascii_digit() || c == '.'),
        "Inner part should look numeric, got: {inner}"
    );
}

#[test]
fn witnessed_in_debug_fmt_preserves_inner_debug_repr_exactly() {
    let env = vec![0.2, 0.3, 0.5];
    let w = WitnessedIn::<[f32], f32, Normalized>::try_new_in(env.as_slice(), 0.3).unwrap();
    assert_eq!(format!("{:?}", w), "WitnessedIn(0.3)");
}

#[test]
fn partial_eq_compares_inner_only_same_env() {
    let env = vec![0.2, 0.3, 0.5];
    let a = WitnessedIn::<[f32], f32, Normalized>::try_new_in(env.as_slice(), 0.3).unwrap();
    let b = WitnessedIn::<[f32], f32, Normalized>::try_new_in(env.as_slice(), 0.3).unwrap();
    let c = WitnessedIn::<[f32], f32, Normalized>::try_new_in(env.as_slice(), 0.2).unwrap();

    assert_eq!(a, b);
    assert_ne!(a, c);
}

#[test]
fn eq_laws_hold_for_witnessed_in() {
    let env = vec![0.2, 0.3, 0.5];
    let a = WitnessedIn::<[f32], f32, Normalized>::try_new_in(env.as_slice(), 0.2).unwrap();
    let b = WitnessedIn::<[f32], f32, Normalized>::try_new_in(env.as_slice(), 0.2).unwrap();
    let c = WitnessedIn::<[f32], f32, Normalized>::try_new_in(env.as_slice(), 0.2).unwrap();

    assert_eq!(a, a);
    assert_eq!(a == b, b == a);
    assert!(a == b && b == c && a == c);
}

#[test]
fn equality_ignores_env_identity_by_design() {
    let env1 = vec![0.2, 0.3, 0.5];
    let env2 = vec![0.3, 0.2, 0.5];

    let a = WitnessedIn::<[f32], f32, Normalized>::try_new_in(env1.as_slice(), 0.3).unwrap();
    let b = WitnessedIn::<[f32], f32, Normalized>::try_new_in(env2.as_slice(), 0.3).unwrap();

    assert_eq!(a, b);
    assert_ne!(std::ptr::eq(a.env(), b.env()), true);
}

#[test]
fn equality_does_not_require_env_to_contain_both_values() {
    let env1 = vec![0.2, 0.3, 0.5];
    let env2 = vec![0.1, 0.3, 0.6];

    let a = WitnessedIn::<[f32], f32, Normalized>::try_new_in(env1.as_slice(), 0.3).unwrap();
    let b = WitnessedIn::<[f32], f32, Normalized>::try_new_in(env2.as_slice(), 0.3).unwrap();

    assert_eq!(a, b);
}

#[test]
fn witnessed_in_partial_ord_delegates_to_inner_for_total_ordered_types() {
    let env = vec![1, 2, 3];
    let a = WitnessedIn::<[i32], i32, AnyIn>::try_new_in(env.as_slice(), 1).unwrap();
    let b = WitnessedIn::<[i32], i32, AnyIn>::try_new_in(env.as_slice(), 2).unwrap();

    assert_eq!(a.partial_cmp(&b), Some(CmpOrdering::Less));
    assert_eq!(b.partial_cmp(&a), Some(CmpOrdering::Greater));
    assert_eq!(a.partial_cmp(&a), Some(CmpOrdering::Equal));
}

#[test]
fn witnessed_in_ord_cmp_delegates_to_inner_and_sort_matches_inner_sort() {
    let env = vec![1, 2, 3];
    let mut v = [
        WitnessedIn::<[i32], i32, AnyIn>::try_new_in(env.as_slice(), 3).unwrap(),
        WitnessedIn::<[i32], i32, AnyIn>::try_new_in(env.as_slice(), 1).unwrap(),
        WitnessedIn::<[i32], i32, AnyIn>::try_new_in(env.as_slice(), 2).unwrap(),
    ];
    v.sort();

    let got: Vec<i32> = v.iter().map(|x| **x).collect();
    assert_eq!(got, vec![1, 2, 3]);
}

struct AnyF32In;

#[derive(Debug, PartialEq)]
enum AnyF32Err {
    EmptyEnv,
}

impl WitnessIn<f32, [f32]> for AnyF32In {
    type Error = AnyF32Err;

    fn verify_in(env: &[f32], _x: &f32) -> Result<(), Self::Error> {
        (!env.is_empty()).then_some(()).ok_or(AnyF32Err::EmptyEnv)
    }
}

#[test]
fn witnessed_in_partial_ord_propagates_none_for_nan_like_inner() {
    let env = vec![0.0];
    let nan = WitnessedIn::<[f32], f32, AnyF32In>::try_new_in(env.as_slice(), f32::NAN).unwrap();
    let one = WitnessedIn::<[f32], f32, AnyF32In>::try_new_in(env.as_slice(), 1.0).unwrap();

    assert_eq!(nan.partial_cmp(&one), None);
    assert_eq!(one.partial_cmp(&nan), None);
    assert_eq!(nan.partial_cmp(&nan), None);
}

fn hash64(x: impl Hash) -> u64 {
    let mut h = DefaultHasher::new();
    x.hash(&mut h);
    h.finish()
}

#[test]
fn witnessed_in_hash_matches_inner_hash_exactly() {
    let env = vec![1];
    let w = WitnessedIn::<[i32], i32, AnyIn>::try_new_in(env.as_slice(), 42).unwrap();
    assert_eq!(hash64(&w), hash64(&42));
}

#[test]
fn witnessed_in_equal_inner_implies_equal_hash() {
    let env = vec![1];
    let a = WitnessedIn::<[i32], i32, AnyIn>::try_new_in(env.as_slice(), 7).unwrap();
    let b = WitnessedIn::<[i32], i32, AnyIn>::try_new_in(env.as_slice(), 7).unwrap();
    assert_eq!(hash64(&a), hash64(&b));
}

#[test]
fn witnessed_in_different_inner_usually_differs_in_hash_smoke() {
    let env = vec![1];
    let a = WitnessedIn::<[i32], i32, AnyIn>::try_new_in(env.as_slice(), 1).unwrap();
    let b = WitnessedIn::<[i32], i32, AnyIn>::try_new_in(env.as_slice(), 2).unwrap();
    assert_ne!(hash64(&a), hash64(&b));
}

#[test]
fn hash_ignores_env_identity_by_design() {
    let env1 = vec![1];
    let env2 = vec![2];

    let a = WitnessedIn::<[i32], i32, AnyIn>::try_new_in(env1.as_slice(), 7).unwrap();
    let b = WitnessedIn::<[i32], i32, AnyIn>::try_new_in(env2.as_slice(), 7).unwrap();

    assert_eq!(hash64(&a), hash64(&b));
}

// Added cases.
#[test]
fn into_parts_and_into_inner_return_env_and_value() {
    let env = vec![0.2, 0.3, 0.5];
    let w = WitnessedIn::<[f32], f32, Normalized>::try_new_in(env.as_slice(), 0.5).unwrap();
    let copy = w.clone();
    let (e, x) = w.into_parts();
    assert!(std::ptr::eq(e, env.as_slice()));
    assert_eq!(x, 0.5);
    assert_eq!(copy.into_inner(), 0.5);
}

#[test]
fn witness_in_ref_entry_point_agrees_with_try_new_in() {
    let env = vec![0.2, 0.3, 0.5];
    assert_eq!(*Normalized::witness_in_ref(env.as_slice(), 0.2).unwrap(), 0.2);
    assert_eq!(
        Normalized::witness_in_ref(env.as_slice(), 0.7).unwrap_err(),
        NormErr::NotMember { x: 0.7 }
    );
    assert_eq!(
        Normalized::witness_in_ref(&[][..], 0.7).unwrap_err(),
        NormErr::EnvEmpty
    );
}
