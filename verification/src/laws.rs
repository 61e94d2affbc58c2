//! Laws relating the comparison operators of the wrappers to those of the wrapped values.

use vstd::laws_cmp::obeys_cmp;
use vstd::laws_cmp::obeys_cmp_ord;
use vstd::laws_cmp::obeys_cmp_partial_ord;
use vstd::laws_cmp::obeys_partial_cmp_spec_properties;
use vstd::laws_eq::obeys_eq;
use vstd::laws_eq::obeys_eq_spec_properties;
use vstd::prelude::*;
use vstd::std_specs::cmp::OrdSpec;
use vstd::std_specs::cmp::PartialEqSpec;
use vstd::std_specs::cmp::PartialOrdSpec;

use core::cmp::Ordering;

use crate::contextual::witness_in::WitnessIn;
use crate::contextual::witnessed_in::WitnessedIn;
use crate::contextual::witnessed_in_owned::WitnessedInOwned;
use crate::witnessed::Witnessed;

verus! {

/// Equality of witnessed values is an equivalence relation whenever equality of the wrapped values
/// is one.
pub proof fn lemma_witnessed_eq_is_equivalence<T: PartialEq, W>()
    requires
        obeys_eq::<T>(),
    ensures
        obeys_eq::<Witnessed<T, W>>(),
{
    reveal(obeys_eq_spec_properties);
}

/// Two witnessed values are equal exactly when their values are equal; the witness token plays no
/// part.
pub proof fn lemma_witnessed_eq_compares_values_only<T: PartialEq, W>(
    a: Witnessed<T, W>,
    b: Witnessed<T, W>,
)
    ensures
        a.eq_spec(&b) <==> a@.eq_spec(&b@),
{
}

/// Ordering witnessed values gives exactly the ordering of their values (the witness token plays no
/// part), so the ordering laws of the values carry over.
pub proof fn lemma_witnessed_partial_cmp_laws_carry_over<T: PartialOrd, W>()
    requires
        obeys_partial_cmp_spec_properties::<T>(),
    ensures
        obeys_partial_cmp_spec_properties::<Witnessed<T, W>>(),
        forall|a: Witnessed<T, W>, b: Witnessed<T, W>|
            #[trigger] a.partial_cmp_spec(&b) == a@.partial_cmp_spec(&b@),
{
    reveal(obeys_partial_cmp_spec_properties);
    reveal(obeys_eq_spec_properties);
    assert forall|a: Witnessed<T, W>, b: Witnessed<T, W>, c: Witnessed<T, W>|
        a.partial_cmp_spec(&b) == Some(Ordering::Less)
            && #[trigger] b.partial_cmp_spec(&c) == Some(Ordering::Less)
        implies #[trigger] a.partial_cmp_spec(&c) == Some(Ordering::Less) by {
        assert(a@.partial_cmp_spec(&b@) == Some(Ordering::Less));
        assert(b@.partial_cmp_spec(&c@) == Some(Ordering::Less));
    }
    assert forall|a: Witnessed<T, W>, b: Witnessed<T, W>, c: Witnessed<T, W>|
        a.partial_cmp_spec(&b) == Some(Ordering::Greater)
            && #[trigger] b.partial_cmp_spec(&c) == Some(Ordering::Greater)
        implies #[trigger] a.partial_cmp_spec(&c) == Some(Ordering::Greater) by {
        assert(a@.partial_cmp_spec(&b@) == Some(Ordering::Greater));
        assert(b@.partial_cmp_spec(&c@) == Some(Ordering::Greater));
    }
}

/// Equality of contextually witnessed values is an equivalence relation whenever equality of the
/// wrapped values is one.
pub proof fn lemma_witnessed_in_eq_is_equivalence<'a, Env: ?Sized, T: PartialEq, W: WitnessIn<T, Env>>()
    requires
        obeys_eq::<T>(),
    ensures
        obeys_eq::<WitnessedIn<'a, Env, T, W>>(),
{
    reveal(obeys_eq_spec_properties);
}

/// Two contextually witnessed values are equal exactly when their values are equal; the
/// environments they were checked against play no part.
pub proof fn lemma_witnessed_in_eq_compares_values_only<'a, Env: ?Sized, T: PartialEq, W: WitnessIn<T, Env>>(
    a: WitnessedIn<'a, Env, T, W>,
    b: WitnessedIn<'a, Env, T, W>,
)
    ensures
        a.eq_spec(&b) <==> a@.eq_spec(&b@),
{
}

/// Ordering contextually witnessed values gives exactly the ordering of their values (the
/// environments they were checked against play no part), so the ordering laws of the values carry
/// over.
pub proof fn lemma_witnessed_in_partial_cmp_laws_carry_over<'a, Env: ?Sized, T: PartialOrd, W: WitnessIn<T, Env>>()
    requires
        obeys_partial_cmp_spec_properties::<T>(),
    ensures
        obeys_partial_cmp_spec_properties::<WitnessedIn<'a, Env, T, W>>(),
        forall|a: WitnessedIn<'a, Env, T, W>, b: WitnessedIn<'a, Env, T, W>|
            #[trigger] a.partial_cmp_spec(&b) == a@.partial_cmp_spec(&b@),
{
    reveal(obeys_partial_cmp_spec_properties);
    reveal(obeys_eq_spec_properties);
    assert forall|a: WitnessedIn<'a, Env, T, W>, b: WitnessedIn<'a, Env, T, W>, c: WitnessedIn<'a, Env, T, W>|
        a.partial_cmp_spec(&b) == Some(Ordering::Less)
            && #[trigger] b.partial_cmp_spec(&c) == Some(Ordering::Less)
        implies #[trigger] a.partial_cmp_spec(&c) == Some(Ordering::Less) by {
        assert(a@.partial_cmp_spec(&b@) == Some(Ordering::Less));
        assert(b@.partial_cmp_spec(&c@) == Some(Ordering::Less));
    }
    assert forall|a: WitnessedIn<'a, Env, T, W>, b: WitnessedIn<'a, Env, T, W>, c: WitnessedIn<'a, Env, T, W>|
        a.partial_cmp_spec(&b) == Some(Ordering::Greater)
            && #[trigger] b.partial_cmp_spec(&c) == Some(Ordering::Greater)
        implies #[trigger] a.partial_cmp_spec(&c) == Some(Ordering::Greater) by {
        assert(a@.partial_cmp_spec(&b@) == Some(Ordering::Greater));
        assert(b@.partial_cmp_spec(&c@) == Some(Ordering::Greater));
    }
}

/// Equality of owned-form witnessed values is an equivalence relation whenever equality of the
/// wrapped values is one.
pub proof fn lemma_witnessed_in_owned_eq_is_equivalence<Env, T: PartialEq, W: WitnessIn<T, Env>>()
    requires
        obeys_eq::<T>(),
    ensures
        obeys_eq::<WitnessedInOwned<Env, T, W>>(),
{
    reveal(obeys_eq_spec_properties);
}

/// Two owned-form witnessed values are equal exactly when their values are equal; the environments
/// they were checked against play no part.
pub proof fn lemma_witnessed_in_owned_eq_compares_values_only<Env, T: PartialEq, W: WitnessIn<T, Env>>(
    a: WitnessedInOwned<Env, T, W>,
    b: WitnessedInOwned<Env, T, W>,
)
    ensures
        a.eq_spec(&b) <==> a@.eq_spec(&b@),
{
}

/// Ordering owned-form witnessed values gives exactly the ordering of their values (the
/// environments they were checked against play no part), so the ordering laws of the values carry
/// over.
pub proof fn lemma_witnessed_in_owned_partial_cmp_laws_carry_over<Env, T: PartialOrd, W: WitnessIn<T, Env>>()
    requires
        obeys_partial_cmp_spec_properties::<T>(),
    ensures
        obeys_partial_cmp_spec_properties::<WitnessedInOwned<Env, T, W>>(),
        forall|a: WitnessedInOwned<Env, T, W>, b: WitnessedInOwned<Env, T, W>|
            #[trigger] a.partial_cmp_spec(&b) == a@.partial_cmp_spec(&b@),
{
    reveal(obeys_partial_cmp_spec_properties);
    reveal(obeys_eq_spec_properties);
    assert forall|a: WitnessedInOwned<Env, T, W>, b: WitnessedInOwned<Env, T, W>, c: WitnessedInOwned<Env, T, W>|
        a.partial_cmp_spec(&b) == Some(Ordering::Less)
            && #[trigger] b.partial_cmp_spec(&c) == Some(Ordering::Less)
        implies #[trigger] a.partial_cmp_spec(&c) == Some(Ordering::Less) by {
        assert(a@.partial_cmp_spec(&b@) == Some(Ordering::Less));
        assert(b@.partial_cmp_spec(&c@) == Some(Ordering::Less));
    }
    assert forall|a: WitnessedInOwned<Env, T, W>, b: WitnessedInOwned<Env, T, W>, c: WitnessedInOwned<Env, T, W>|
        a.partial_cmp_spec(&b) == Some(Ordering::Greater)
            && #[trigger] b.partial_cmp_spec(&c) == Some(Ordering::Greater)
        implies #[trigger] a.partial_cmp_spec(&c) == Some(Ordering::Greater) by {
        assert(a@.partial_cmp_spec(&b@) == Some(Ordering::Greater));
        assert(b@.partial_cmp_spec(&c@) == Some(Ordering::Greater));
    }
}

/// Where `T`'s comparison follows vstd's `Ord` laws, `cmp_values` on witnessed values gives the
/// ordering of their values (the witness token play no part): the answer is the values' specified
/// ordering and agrees with `partial_cmp` and `==` on the wrappers, and comparing the other way
/// round gives the reverse answer.
pub proof fn lemma_witnessed_cmp_values_follows_values<T: Ord, W>(
    a: Witnessed<T, W>,
    b: Witnessed<T, W>,
    ab: Ordering,
    ba: Ordering,
)
    requires
        obeys_cmp::<T>(),
        call_ensures(Witnessed::<T, W>::cmp_values, (&a, &b), ab),
        call_ensures(Witnessed::<T, W>::cmp_values, (&b, &a), ba),
    ensures
        ab == a@.cmp_spec(&b@),
        a.partial_cmp_spec(&b) == Some(ab),
        ab == Ordering::Less <==> ba == Ordering::Greater,
        ab == Ordering::Greater <==> ba == Ordering::Less,
        ab == Ordering::Equal <==> ba == Ordering::Equal,
        ab == Ordering::Equal <==> a.eq_spec(&b),
{
    reveal(obeys_cmp_ord);
    reveal(obeys_cmp_partial_ord);
    reveal(obeys_partial_cmp_spec_properties);
    reveal(obeys_eq_spec_properties);
    assert(b@.partial_cmp_spec(&a@) == Some(ba));
    assert(a@.eq_spec(&b@) <==> b@.eq_spec(&a@));
}

/// Where `T`'s comparison follows vstd's `Ord` laws, `Ord::cmp` on witnessed values gives the
/// ordering of their values (the witness token play no part): the answer is the values' specified
/// ordering and agrees with `partial_cmp` and `==` on the wrappers, and comparing the other way
/// round gives the reverse answer.
pub proof fn lemma_witnessed_cmp_follows_values<T: Ord, W>(
    a: Witnessed<T, W>,
    b: Witnessed<T, W>,
    ab: Ordering,
    ba: Ordering,
)
    requires
        obeys_cmp::<T>(),
        call_ensures(Witnessed::<T, W>::cmp, (&a, &b), ab),
        call_ensures(Witnessed::<T, W>::cmp, (&b, &a), ba),
    ensures
        ab == a@.cmp_spec(&b@),
        a.partial_cmp_spec(&b) == Some(ab),
        ab == Ordering::Less <==> ba == Ordering::Greater,
        ab == Ordering::Greater <==> ba == Ordering::Less,
        ab == Ordering::Equal <==> ba == Ordering::Equal,
        ab == Ordering::Equal <==> a.eq_spec(&b),
{
    reveal(obeys_cmp_ord);
    reveal(obeys_cmp_partial_ord);
    reveal(obeys_partial_cmp_spec_properties);
    reveal(obeys_eq_spec_properties);
    assert(b@.partial_cmp_spec(&a@) == Some(ba));
    assert(a@.eq_spec(&b@) <==> b@.eq_spec(&a@));
}

/// Where `T`'s comparison follows vstd's `Ord` laws, `cmp_values` on contextually witnessed values
/// gives the ordering of their values (the environments play no part): the answer is the values'
/// specified ordering and agrees with `partial_cmp` and `==` on the wrappers, and comparing the
/// other way round gives the reverse answer.
pub proof fn lemma_witnessed_in_cmp_values_follows_values<'a, Env: ?Sized, T: Ord, W: WitnessIn<T, Env>>(
    a: WitnessedIn<'a, Env, T, W>,
    b: WitnessedIn<'a, Env, T, W>,
    ab: Ordering,
    ba: Ordering,
)
    requires
        obeys_cmp::<T>(),
        call_ensures(WitnessedIn::<'a, Env, T, W>::cmp_values, (&a, &b), ab),
        call_ensures(WitnessedIn::<'a, Env, T, W>::cmp_values, (&b, &a), ba),
    ensures
        ab == a@.cmp_spec(&b@),
        a.partial_cmp_spec(&b) == Some(ab),
        ab == Ordering::Less <==> ba == Ordering::Greater,
        ab == Ordering::Greater <==> ba == Ordering::Less,
        ab == Ordering::Equal <==> ba == Ordering::Equal,
        ab == Ordering::Equal <==> a.eq_spec(&b),
{
    reveal(obeys_cmp_ord);
    reveal(obeys_cmp_partial_ord);
    reveal(obeys_partial_cmp_spec_properties);
    reveal(obeys_eq_spec_properties);
    assert(b@.partial_cmp_spec(&a@) == Some(ba));
    assert(a@.eq_spec(&b@) <==> b@.eq_spec(&a@));
}

/// Where `T`'s comparison follows vstd's `Ord` laws, `Ord::cmp` on contextually witnessed values
/// gives the ordering of their values (the environments play no part): the answer is the values'
/// specified ordering and agrees with `partial_cmp` and `==` on the wrappers, and comparing the
/// other way round gives the reverse answer.
pub proof fn lemma_witnessed_in_cmp_follows_values<'a, Env: ?Sized, T: Ord, W: WitnessIn<T, Env>>(
    a: WitnessedIn<'a, Env, T, W>,
    b: WitnessedIn<'a, Env, T, W>,
    ab: Ordering,
    ba: Ordering,
)
    requires
        obeys_cmp::<T>(),
        call_ensures(WitnessedIn::<'a, Env, T, W>::cmp, (&a, &b), ab),
        call_ensures(WitnessedIn::<'a, Env, T, W>::cmp, (&b, &a), ba),
    ensures
        ab == a@.cmp_spec(&b@),
        a.partial_cmp_spec(&b) == Some(ab),
        ab == Ordering::Less <==> ba == Ordering::Greater,
        ab == Ordering::Greater <==> ba == Ordering::Less,
        ab == Ordering::Equal <==> ba == Ordering::Equal,
        ab == Ordering::Equal <==> a.eq_spec(&b),
{
    reveal(obeys_cmp_ord);
    reveal(obeys_cmp_partial_ord);
    reveal(obeys_partial_cmp_spec_properties);
    reveal(obeys_eq_spec_properties);
    assert(b@.partial_cmp_spec(&a@) == Some(ba));
    assert(a@.eq_spec(&b@) <==> b@.eq_spec(&a@));
}

/// Where `T`'s comparison follows vstd's `Ord` laws, `cmp_values` on owned-form witnessed values
/// gives the ordering of their values (the environments play no part): the answer is the values'
/// specified ordering and agrees with `partial_cmp` and `==` on the wrappers, and comparing the
/// other way round gives the reverse answer.
pub proof fn lemma_witnessed_in_owned_cmp_values_follows_values<Env, T: Ord, W: WitnessIn<T, Env>>(
    a: WitnessedInOwned<Env, T, W>,
    b: WitnessedInOwned<Env, T, W>,
    ab: Ordering,
    ba: Ordering,
)
    requires
        obeys_cmp::<T>(),
        call_ensures(WitnessedInOwned::<Env, T, W>::cmp_values, (&a, &b), ab),
        call_ensures(WitnessedInOwned::<Env, T, W>::cmp_values, (&b, &a), ba),
    ensures
        ab == a@.cmp_spec(&b@),
        a.partial_cmp_spec(&b) == Some(ab),
        ab == Ordering::Less <==> ba == Ordering::Greater,
        ab == Ordering::Greater <==> ba == Ordering::Less,
        ab == Ordering::Equal <==> ba == Ordering::Equal,
        ab == Ordering::Equal <==> a.eq_spec(&b),
{
    reveal(obeys_cmp_ord);
    reveal(obeys_cmp_partial_ord);
    reveal(obeys_partial_cmp_spec_properties);
    reveal(obeys_eq_spec_properties);
    assert(b@.partial_cmp_spec(&a@) == Some(ba));
    assert(a@.eq_spec(&b@) <==> b@.eq_spec(&a@));
}

/// Where `T`'s comparison follows vstd's `Ord` laws, `Ord::cmp` on owned-form witnessed values
/// gives the ordering of their values (the environments play no part): the answer is the values'
/// specified ordering and agrees with `partial_cmp` and `==` on the wrappers, and comparing the
/// other way round gives the reverse answer.
pub proof fn lemma_witnessed_in_owned_cmp_follows_values<Env, T: Ord, W: WitnessIn<T, Env>>(
    a: WitnessedInOwned<Env, T, W>,
    b: WitnessedInOwned<Env, T, W>,
    ab: Ordering,
    ba: Ordering,
)
    requires
        obeys_cmp::<T>(),
        call_ensures(WitnessedInOwned::<Env, T, W>::cmp, (&a, &b), ab),
        call_ensures(WitnessedInOwned::<Env, T, W>::cmp, (&b, &a), ba),
    ensures
        ab == a@.cmp_spec(&b@),
        a.partial_cmp_spec(&b) == Some(ab),
        ab == Ordering::Less <==> ba == Ordering::Greater,
        ab == Ordering::Greater <==> ba == Ordering::Less,
        ab == Ordering::Equal <==> ba == Ordering::Equal,
        ab == Ordering::Equal <==> a.eq_spec(&b),
{
    reveal(obeys_cmp_ord);
    reveal(obeys_cmp_partial_ord);
    reveal(obeys_partial_cmp_spec_properties);
    reveal(obeys_eq_spec_properties);
    assert(b@.partial_cmp_spec(&a@) == Some(ba));
    assert(a@.eq_spec(&b@) <==> b@.eq_spec(&a@));
}

} // verus!
