//! Curve points and scalars of BLS12-381, as the stream logic sees them.
use vstd::prelude::*;

use blstrs::{G1Projective, G2Projective, Scalar};
use group::{Group, GroupEncoding};

verus! {

#[verifier::external_type_specification]
#[verifier::external_body]
pub struct ExScalar(Scalar);

#[verifier::external_type_specification]
#[verifier::external_body]
pub struct ExG1Projective(G1Projective);

#[verifier::external_type_specification]
#[verifier::external_body]
pub struct ExG2Projective(G2Projective);

/// The product of a G1 point and a scalar, as blstrs computes it.
pub uninterp spec fn g1_scaled(p: G1Projective, s: Scalar) -> G1Projective;

/// The product of a G2 point and a scalar, as blstrs computes it.
pub uninterp spec fn g2_scaled(p: G2Projective, s: Scalar) -> G2Projective;

/// The compressed encoding of a G1 point.
pub uninterp spec fn g1_encoding(p: G1Projective) -> Seq<u8>;

/// The compressed encoding of a G2 point.
pub uninterp spec fn g2_encoding(p: G2Projective) -> Seq<u8>;

/// Relies on `MulAssign<&Scalar> for G1Projective` of blstrs: the point is
/// replaced by its product with the scalar.
#[verifier::external_body]
fn g1_mul_assign(p: &mut G1Projective, s: &Scalar)
    ensures
        *final(p) == g1_scaled(*old(p), *s),
{
    *p *= s;
}

/// Relies on `MulAssign<&Scalar> for G2Projective` of blstrs: the point is
/// replaced by its product with the scalar.
#[verifier::external_body]
fn g2_mul_assign(p: &mut G2Projective, s: &Scalar)
    ensures
        *final(p) == g2_scaled(*old(p), *s),
{
    *p *= s;
}

/// Relies on `GroupEncoding::to_bytes` of blstrs's G1Projective: the
/// 48-byte compressed form of the point.
#[verifier::external_body]
fn g1_to_bytes(p: &G1Projective) -> (r: Vec<u8>)
    ensures
        r@ == g1_encoding(*p),
        r@.len() == 48,
{
    p.to_bytes().as_ref().to_vec()
}

/// Relies on `GroupEncoding::to_bytes` of blstrs's G2Projective: the
/// 96-byte compressed form of the point.
#[verifier::external_body]
fn g2_to_bytes(p: &G2Projective) -> (r: Vec<u8>)
    ensures
        r@ == g2_encoding(*p),
        r@.len() == 96,
{
    p.to_bytes().as_ref().to_vec()
}

/// Relies on `Group::generator` of blstrs's G1Projective: the fixed base
/// point of G1.
#[verifier::external_body]
fn g1_generator() -> (r: G1Projective) {
    G1Projective::generator()
}

/// Relies on `Group::generator` of blstrs's G2Projective: the fixed base
/// point of G2.
#[verifier::external_body]
fn g2_generator() -> (r: G2Projective) {
    G2Projective::generator()
}

/// A point of one of the two source groups of the pairing.
#[derive(Clone, Copy)]
pub enum CurvePoint {
    G1(G1Projective),
    G2(G2Projective),
}

/// The product of a point and a scalar, in the point's own group.
pub open spec fn scaled(p: CurvePoint, s: Scalar) -> CurvePoint {
    match p {
        CurvePoint::G1(q) => CurvePoint::G1(g1_scaled(q, s)),
        CurvePoint::G2(q) => CurvePoint::G2(g2_scaled(q, s)),
    }
}

/// The compressed encoding of a point.
pub open spec fn encoding(p: CurvePoint) -> Seq<u8> {
    match p {
        CurvePoint::G1(q) => g1_encoding(q),
        CurvePoint::G2(q) => g2_encoding(q),
    }
}

/// The point `base` multiplied `n` times in a row by `tau`: base * tau^n.
pub open spec fn power(base: CurvePoint, tau: Scalar, n: nat) -> CurvePoint
    decreases n,
{
    if n == 0 {
        base
    } else {
        scaled(power(base, tau, (n - 1) as nat), tau)
    }
}

/// The element at index `i` of the powers-of-tau stream from `base`: the
/// encoding of base * tau^(i+1).
pub open spec fn element(base: CurvePoint, tau: Scalar, i: nat) -> Seq<u8> {
    encoding(power(base, tau, i + 1))
}

impl CurvePoint {
    /// The base point of G1.
    pub fn g1_base() -> (r: CurvePoint)
        ensures
            r is G1,
    {
        CurvePoint::G1(g1_generator())
    }

    /// The base point of G2.
    pub fn g2_base() -> (r: CurvePoint)
        ensures
            r is G2,
    {
        CurvePoint::G2(g2_generator())
    }

    /// Multiplies the point in place by `s`.
    pub fn mul_by(&mut self, s: &Scalar)
        ensures
            *final(self) == scaled(*old(self), *s),
    {
        match self {
            CurvePoint::G1(q) => g1_mul_assign(q, s),
            CurvePoint::G2(q) => g2_mul_assign(q, s),
        }
    }

    /// The compressed encoding of the point: 48 bytes in G1, 96 in G2.
    pub fn to_bytes(&self) -> (r: Vec<u8>)
        ensures
            r@ == encoding(*self),
            r@.len() == (if *self is G1 { 48int } else { 96int }),
    {
        match self {
            CurvePoint::G1(q) => g1_to_bytes(q),
            CurvePoint::G2(q) => g2_to_bytes(q),
        }
    }
}

} // verus!
