//! The shape of a hybrid: one classical and one post-quantum primitive behind
//! a single interface, so that breaking either of them alone breaks nothing.
//! A hybrid runs both of its parts in every operation and fails as soon as
//! one of them does; it never falls back on a single part.

use crate::pqc::{DigitalSignature, KeyEncapsulation};
use crate::QraiopError;
use vstd::prelude::*;

verus! {

/// A key encapsulation mechanism composed of two others.
pub trait HybridKem: KeyEncapsulation {
    /// The classical part.
    type Classical: KeyEncapsulation;

    /// The post-quantum part.
    type PostQuantum: KeyEncapsulation;
}

/// A signature scheme composed of two others.
pub trait HybridSignature: DigitalSignature {
    /// The classical part.
    type Classical: DigitalSignature;

    /// The post-quantum part.
    type PostQuantum: DigitalSignature;
}

/// What two outcomes amount to together.
pub open spec fn spec_both<A, B>(
    classical: Result<A, QraiopError>,
    post_quantum: Result<B, QraiopError>,
) -> Result<(A, B), QraiopError> {
    match (classical, post_quantum) {
        (Ok(first), Ok(second)) => Ok((first, second)),
        (Err(error), _) => Err(error),
        (Ok(_), Err(error)) => Err(error),
    }
}

/// Puts the outcomes of the two parts of a hybrid together: both results
/// where both parts succeeded, and otherwise the failure of the part that
/// failed, the classical one's where both did.
pub fn both<A, B>(
    classical: Result<A, QraiopError>,
    post_quantum: Result<B, QraiopError>,
) -> (joined: Result<(A, B), QraiopError>)
    ensures
        joined == spec_both(classical, post_quantum),
        joined is Ok <==> classical is Ok && post_quantum is Ok,
{
    match classical {
        Ok(first) => match post_quantum {
            Ok(second) => Ok((first, second)),
            Err(error) => Err(error),
        },
        Err(error) => Err(error),
    }
}

/// Puts the verdicts of the two parts of a hybrid signature together: the
/// signature is accepted only where both parts accept it, and a failure of
/// either part is a failure of the whole.
pub fn both_accept(
    classical: Result<bool, QraiopError>,
    post_quantum: Result<bool, QraiopError>,
) -> (verdict: Result<bool, QraiopError>)
    ensures
        verdict == match spec_both(classical, post_quantum) {
            Ok((first, second)) => Ok::<bool, QraiopError>(first && second),
            Err(error) => Err(error),
        },
        verdict == Ok::<bool, QraiopError>(true) <==> (classical == Ok::<bool, QraiopError>(true)
            && post_quantum == Ok::<bool, QraiopError>(true)),
{
    match both(classical, post_quantum) {
        Ok((first, second)) => Ok(first && second),
        Err(error) => Err(error),
    }
}

/// Joins the outputs of the two parts of a hybrid: the bytes of the
/// classical part, then those of the post-quantum part.
pub fn join(classical: &[u8], post_quantum: &[u8]) -> (joined: Vec<u8>)
    ensures
        joined@ == classical@ + post_quantum@,
{
    let mut joined: Vec<u8> = Vec::new();
    joined.extend_from_slice(classical);
    joined.extend_from_slice(post_quantum);
    joined
}

} // verus!
