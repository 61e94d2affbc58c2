use witnessed::{WitnessExt, Witnessed};

use std::cmp::Ordering;
use std::collections::hash_map::DefaultHasher;
use std::hash::{Hash, Hasher};

struct AnyToken;

fn witnessed<T>(value: T) -> Witnessed<T, AnyToken> {
    value.witness().by_unchecked::<AnyToken>()
}

fn hash64(x: impl Hash) -> u64 {
    let mut h = DefaultHasher::new();
    x.hash(&mut h);
    h.finish()
}

#[test]
fn partial_eq_compares_inner_only() {
    let a = witnessed(1_i32);
    let b = witnessed(1_i32);
    let c = witnessed(2_i32);

    assert_eq!(a, b);
    assert_ne!(a, c);
}

#[test]
fn eq_laws_hold_for_witnessed() {
    let a = witnessed(3_i32);
    let b = witnessed(3_i32);
    let c = witnessed(3_i32);

    assert_eq!(a, a);
    assert_eq!(a == b, b == a);
    assert!(a == b && b == c && a == c);
}

#[test]
fn tests_for_hash_hash_matches_inner_hash_exactly() {
    let w = witnessed(42_i32);

    assert_eq!(hash64(&w), hash64(&42_i32));
}

#[test]
fn tests_for_hash_equal_inner_implies_equal_hash() {
    let a = witnessed(7_i32);
    let b = witnessed(7_i32);

    assert_eq!(hash64(&a), hash64(&b));
}

#[test]
fn tests_for_hash_different_inner_usually_differs_in_hash_smoke() {
    let a = witnessed(1_i32);
    let b = witnessed(2_i32);

    assert_ne!(hash64(&a), hash64(&b));
}

#[test]
fn tests_for_ord_partial_ord_delegates_to_inner_for_total_ordered_types() {
    let a = witnessed(1_i32);
    let b = witnessed(2_i32);

    assert_eq!(a.partial_cmp(&b), Some(Ordering::Less));
    assert_eq!(b.partial_cmp(&a), Some(Ordering::Greater));
    assert_eq!(a.partial_cmp(&a), Some(Ordering::Equal));
}

#[test]
fn tests_for_ord_ord_cmp_delegates_to_inner_and_sort_matches_inner_sort() {
    let mut v = [witnessed(3_i32), witnessed(1_i32), witnessed(2_i32)];

    v.sort();

    let got: Vec<i32> = v.iter().map(|x| **x).collect();
    assert_eq!(got, vec![1, 2, 3]);
}

#[test]
fn tests_for_ord_partial_ord_propagates_none_for_nan_like_inner() {
    let nan = witnessed(f32::NAN);
    let one = witnessed(1.0_f32);

    assert_eq!(nan.partial_cmp(&one), None);
    assert_eq!(one.partial_cmp(&nan), None);
    assert_eq!(nan.partial_cmp(&nan), None);
}

// Added cases.
#[test]
fn cmp_agrees_with_inner_cmp() {
    assert_eq!(witnessed(5_u64).cmp(&witnessed(9_u64)), Ordering::Less);
    assert_eq!(witnessed(9_u64).cmp(&witnessed(5_u64)), Ordering::Greater);
    assert_eq!(witnessed(5_u64).cmp(&witnessed(5_u64)), Ordering::Equal);
}

#[test]
fn clone_keeps_the_value() {
    let a = witnessed(String::from("abc"));
    let b = a.clone();
    assert_eq!(a, b);
    assert_eq!(b.into_inner(), String::from("abc"));
}
