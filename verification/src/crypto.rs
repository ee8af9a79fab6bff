//! Hashes and Pallas group operations of outside crates, with what their
//! results are taken to be.

use vstd::prelude::*;
use crate::bytes::{le_bytes, le_value};
use blake2::Digest;
use ff::PrimeField;
use group::{Group, GroupEncoding};
use pasta_curves::pallas;

verus! {

/// The BLAKE2b-512 digest of a byte string.
pub uninterp spec fn blake2b512(data: Seq<u8>) -> Seq<u8>;

/// The SHA-256 digest of a byte string.
pub uninterp spec fn sha256(data: Seq<u8>) -> Seq<u8>;

/// Whether 32 bytes are the compressed encoding of a Pallas point.
pub uninterp spec fn pallas_point_decodes(enc: Seq<u8>) -> bool;

/// The encoding of the sum of the two points that `a` and `b` encode.
pub uninterp spec fn pallas_point_sum(a: Seq<u8>, b: Seq<u8>) -> Seq<u8>;

/// The encoding of `[s]G` for the Pallas generator `G` and the scalar that `s` encodes.
pub uninterp spec fn pallas_generator_multiple(s: Seq<u8>) -> Seq<u8>;

/// The order of the Pallas scalar field.
pub open spec fn pallas_scalar_modulus() -> nat {
    0x40000000000000000000000000000000224698fc0994a8dd8c46eb2100000001nat
}

/// 32 bytes that encode a Pallas scalar canonically (little-endian, below the modulus).
pub open spec fn is_canonical_scalar(b: Seq<u8>) -> bool {
    b.len() == 32 && le_value(b) < pallas_scalar_modulus()
}

/// `Blake2b512::digest(data)`.
#[verifier::external_body]
pub(crate) fn blake2b512_digest(data: &[u8]) -> (res: [u8; 64])
    ensures
        res@ == blake2b512(data@),
{
    blake2::Blake2b512::digest(data).into()
}

/// `Sha256::digest(data)`.
#[verifier::external_body]
pub(crate) fn sha256_digest(data: &[u8]) -> (res: [u8; 32])
    ensures
        res@ == sha256(data@),
{
    sha2::Sha256::digest(data).into()
}

/// The canonical encoding of the sum of two scalars: their values added modulo the
/// group order, as 32 little-endian bytes (`Scalar` addition, then `to_repr`).
pub open spec fn scalar_sum(x: Seq<u8>, y: Seq<u8>) -> Seq<u8> {
    le_bytes((le_value(x) + le_value(y)) % pallas_scalar_modulus(), 32)
}

/// `pallas::Scalar::from_repr`, mapped back with `to_repr`: `Some` exactly for the
/// canonical encodings, and then `to_repr` gives the same bytes.
#[verifier::external_body]
pub(crate) fn scalar_from_repr(bytes: [u8; 32]) -> (res: Option<[u8; 32]>)
    ensures
        res is Some <==> is_canonical_scalar(bytes@),
        res matches Some(r) ==> r@ == bytes@,
{
    Option::<pallas::Scalar>::from(pallas::Scalar::from_repr(bytes)).map(|s| s.to_repr())
}

/// `pallas::Point::from_bytes(enc).is_some()`.
#[verifier::external_body]
pub(crate) fn point_decodes(enc: &[u8; 32]) -> (res: bool)
    ensures
        res == pallas_point_decodes(enc@),
{
    bool::from(pallas::Point::from_bytes(enc).is_some())
}

/// `from_bytes(a) + from_bytes(b)`, encoded with `to_bytes`; an encoding produced by
/// `to_bytes` always decodes. Point addition is the group law, so when `a` and `b`
/// are `[x]G` and `[y]G` (as `generator_multiple` encodes them), the sum is
/// `[x + y]G`.
#[verifier::external_body]
pub(crate) fn add_points(a: &[u8; 32], b: &[u8; 32]) -> (res: [u8; 32])
    requires
        pallas_point_decodes(a@),
        pallas_point_decodes(b@),
    ensures
        res@ == pallas_point_sum(a@, b@),
        pallas_point_decodes(res@),
        forall|x: Seq<u8>, y: Seq<u8>|
            #![trigger pallas_generator_multiple(x), pallas_generator_multiple(y)]
            is_canonical_scalar(x) && is_canonical_scalar(y) && a@ == pallas_generator_multiple(x)
                && b@ == pallas_generator_multiple(y) ==> res@ == pallas_generator_multiple(scalar_sum(x, y)),
{
    (pallas::Point::from_bytes(a).unwrap() + pallas::Point::from_bytes(b).unwrap()).to_bytes()
}

/// `pallas::Point::generator() * s`, encoded with `to_bytes`, for a canonical scalar `s`.
#[verifier::external_body]
pub(crate) fn generator_multiple(s: [u8; 32]) -> (res: [u8; 32])
    requires
        is_canonical_scalar(s@),
    ensures
        res@ == pallas_generator_multiple(s@),
        pallas_point_decodes(res@),
{
    (pallas::Point::generator() * pallas::Scalar::from_repr(s).unwrap()).to_bytes()
}

} // verus!
