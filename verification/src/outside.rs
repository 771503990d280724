use vstd::prelude::*;

verus! {

/// The outside error type that carries the cause of a failure.
#[verifier::external_type_specification]
#[verifier::external_body]
pub struct ExAnyhowError(anyhow::Error);

/// The consistent-hashing ring of the `hashring` crate.
#[verifier::external_type_specification]
#[verifier::external_body]
#[verifier::reject_recursive_types(T)]
#[verifier::reject_recursive_types(S)]
pub struct ExHashRing<T, S>(hashring::HashRing<T, S>);

/// The hasher builder the `hashring` crate uses by default.
#[verifier::external_type_specification]
#[verifier::external_body]
pub struct ExDefaultHashBuilder(hashring::DefaultHashBuilder);

/// The non-empty vector of the `vec1` crate.
#[verifier::external_type_specification]
#[verifier::external_body]
#[verifier::reject_recursive_types(I)]
pub struct ExVec1<I>(vec1::Vec1<I>);

} // verus!
