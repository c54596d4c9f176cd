//! Sampling the secret scalar tau.
use vstd::prelude::*;

use blstrs::Scalar;
use dusk_bls12_381::BlsScalar;

verus! {

#[verifier::external_type_specification]
#[verifier::external_body]
pub struct ExRandomError(getrandom::Error);

/// The canonical little-endian bytes of a 512-bit little-endian integer
/// reduced modulo the order of the BLS12-381 scalar field.
pub uninterp spec fn wide_reduction(bytes: Seq<u8>) -> Seq<u8>;

/// The scalar that canonical little-endian bytes encode, or `None` where
/// they are not canonical.
pub uninterp spec fn scalar_le(bytes: Seq<u8>) -> Option<Scalar>;

/// Relies on `getrandom::fill`: fills the buffer from the operating
/// system's secure random source, or reports that it is unavailable.
#[verifier::external_body]
fn fill_random(buf: &mut [u8; 64]) -> (r: Result<(), getrandom::Error>) {
    getrandom::fill(buf)
}

/// Relies on `BlsScalar::from_bytes_wide` of dusk-bls12_381, read out with
/// `BlsScalar::to_bytes`: the 64 bytes reduced into the scalar field.
#[verifier::external_body]
fn reduce_wide(bytes: &[u8; 64]) -> (r: [u8; 32])
    ensures
        r@ == wide_reduction(bytes@),
{
    BlsScalar::from_bytes_wide(bytes).to_bytes()
}

/// Relies on `Scalar::from_bytes_le` of blstrs: the scalar that the bytes
/// encode, where they are canonical.
#[verifier::external_body]
fn scalar_from_bytes_le(bytes: &[u8; 32]) -> (r: Option<Scalar>)
    ensures
        r == scalar_le(bytes@),
{
    Scalar::from_bytes_le(bytes).into_option()
}

/// Why no scalar could be sampled.
#[derive(Debug, Clone, Copy, PartialEq, Eq, Structural)]
pub enum SampleError {
    /// The secure random source was unavailable.
    Entropy,
    /// The reduced bytes were not accepted as a scalar.
    NonCanonical,
}

/// The scalar of 64 bytes of entropy, by wide reduction into the scalar field.
pub fn scalar_from_wide(bytes: &[u8; 64]) -> (r: Option<Scalar>)
    ensures
        r == scalar_le(wide_reduction(bytes@)),
{
    let reduced = reduce_wide(bytes);
    scalar_from_bytes_le(&reduced)
}

/// Samples a secret scalar from 64 bytes of secure randomness. A failure of
/// the random source is reported, never replaced by weaker randomness.
pub fn sample_scalar() -> (r: Result<Scalar, SampleError>)
    ensures
        r matches Ok(s) ==> exists|b: Seq<u8>|
            b.len() == 64 && scalar_le(wide_reduction(b)) == Some(s),
{
    let mut bytes: [u8; 64] = [0u8; 64];
    match fill_random(&mut bytes) {
        Err(_) => Err(SampleError::Entropy),
        Ok(()) => match scalar_from_wide(&bytes) {
            Some(s) => {
                assert(bytes@.len() == 64);
                Ok(s)
            },
            None => Err(SampleError::NonCanonical),
        },
    }
}

} // verus!
