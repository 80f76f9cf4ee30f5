//! Random bytes.
use rand::RngCore;
use ring::rand::SecureRandom;
use vstd::prelude::*;

verus! {

/// `ring::error::Unspecified`, the error of `ring`'s random source.
#[verifier::external_type_specification]
#[verifier::external_body]
pub struct ExUnspecified(ring::error::Unspecified);

/// Whether `rand::thread_rng` can draw these bytes.
pub uninterp spec fn can_draw(bytes: Seq<u8>) -> bool;

/// Whether `ring::rand::SystemRandom`, asked for so many bytes, can give this result.
pub uninterp spec fn can_draw_from_system(
    len: usize,
    result: Result<Vec<u8>, ring::error::Unspecified>,
) -> bool;

/// `rand::RngCore::fill_bytes` of `rand::thread_rng`: as many bytes as were asked for, which are
/// some that [`can_draw`] names. Nothing else is claimed of what they are.
#[verifier::external_body]
pub(crate) fn random_bytes(len: usize) -> (bytes: Vec<u8>)
    ensures
        bytes@.len() == len,
        can_draw(bytes@),
{
    let mut bytes = vec![0u8; len];
    rand::thread_rng().fill_bytes(&mut bytes);
    bytes
}

/// `ring::rand::SecureRandom::fill` of `ring::rand::SystemRandom`: as many bytes as were asked for,
/// unless the system's random source fails. What can come of a call is what
/// [`can_draw_from_system`] names. Nothing else is claimed of it.
#[verifier::external_body]
pub(crate) fn system_random_bytes(len: usize) -> (bytes: Result<Vec<u8>, ring::error::Unspecified>)
    ensures
        can_draw_from_system(len, bytes),
        bytes matches Ok(b) ==> b@.len() == len,
{
    let mut bytes = vec![0u8; len];
    ring::rand::SystemRandom::new().fill(&mut bytes)?;
    Ok(bytes)
}

} // verus!
