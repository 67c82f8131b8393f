//! Scalars and group elements, held as their canonical 32-byte encodings, and
//! the group operations on them, performed by `curve25519_dalek`.
use vstd::prelude::*;
use vstd::arithmetic::power::pow;
use curve25519_dalek::traits::Identity;

verus! {

/// The order of the Ristretto group: 2^252 + 27742317777372353535851937790883648493.
pub open spec fn group_order() -> nat {
    7237005577332262213973186563042994240857116359379907606001950938285454250989nat
}

/// The integer that a little-endian byte string encodes.
pub open spec fn le_value(b: Seq<u8>) -> nat
    decreases b.len(),
{
    if b.len() == 0 {
        0
    } else {
        b[0] as nat + 256 * le_value(b.drop_first())
    }
}

/// The 32-byte little-endian encoding of `n`.
pub open spec fn le_encoding(n: nat) -> Seq<u8> {
    Seq::new(32, |i: int| ((n as int / pow(256, i as nat)) % 256) as u8)
}

/// The encoding of the scalar `(a + b) mod l`.
pub open spec fn scalar_sum(a: Seq<u8>, b: Seq<u8>) -> Seq<u8> {
    le_encoding((le_value(a) + le_value(b)) % group_order())
}

/// The encoding of the scalar `(a * b) mod l`.
pub open spec fn scalar_product(a: Seq<u8>, b: Seq<u8>) -> Seq<u8> {
    le_encoding((le_value(a) * le_value(b)) % group_order())
}

/// The encoding of the scalar `-a mod l`.
pub open spec fn scalar_negation(a: Seq<u8>) -> Seq<u8> {
    le_encoding(((group_order() - le_value(a) % group_order()) as nat) % group_order())
}

/// The 32 zero bytes, which encode the identity element.
pub open spec fn identity_encoding() -> Seq<u8> {
    Seq::new(32, |i: int| 0u8)
}

/// Whether `b` is the canonical encoding of a Ristretto point.
pub uninterp spec fn decodes(b: Seq<u8>) -> bool;

/// The encoding of the sum of the points that `a` and `b` encode.
pub uninterp spec fn point_sum(a: Seq<u8>, b: Seq<u8>) -> Seq<u8>;

/// The encoding of the point that `p` encodes, multiplied by the scalar `s`.
pub uninterp spec fn point_scaled(s: Seq<u8>, p: Seq<u8>) -> Seq<u8>;

/// The encoding of the base point multiplied by the scalar `s`.
pub uninterp spec fn base_scaled(s: Seq<u8>) -> Seq<u8>;

/// The encoding of the point that SHA-512 of `b` maps to.
pub uninterp spec fn hash_to_point_of(b: Seq<u8>) -> Seq<u8>;

/// The encoding of the scalar that SHA-512 of `b` reduces to.
pub uninterp spec fn hash_to_scalar_of(b: Seq<u8>) -> Seq<u8>;

/// An element of the scalar field, held as its canonical little-endian bytes.
#[derive(Clone, Copy)]
pub struct Scalar {
    bytes: [u8; 32],
}

/// A point of the Ristretto group, held as its canonical compressed encoding.
#[derive(Clone, Copy)]
pub struct GroupElement {
    bytes: [u8; 32],
}

impl View for Scalar {
    type V = Seq<u8>;

    closed spec fn view(&self) -> Seq<u8> {
        self.bytes@
    }
}

impl View for GroupElement {
    type V = Seq<u8>;

    closed spec fn view(&self) -> Seq<u8> {
        self.bytes@
    }
}

impl GroupElement {
    /// A group element always holds the canonical encoding of a point.
    #[verifier::type_invariant]
    pub open spec fn well_formed(self) -> bool {
        decodes(self@)
    }

    /// The canonical encoding of this point.
    pub fn to_bytes(&self) -> (r: [u8; 32])
        ensures
            r@ == self@,
    {
        self.bytes
    }

    /// The point that `bytes` encodes, or `None` where `bytes` is not the
    /// canonical encoding of a point.
    pub fn from_bytes(bytes: [u8; 32]) -> (r: Option<GroupElement>)
        ensures
            r.is_some() == decodes(bytes@),
            r matches Some(g) ==> g@ == bytes@,
    {
        decompress(bytes)
    }
}

impl Scalar {
    /// The canonical little-endian encoding of this scalar.
    pub fn to_bytes(&self) -> (r: [u8; 32])
        ensures
            r@ == self@,
    {
        self.bytes
    }
}

/// Relies on `CompressedRistretto::decompress`: `Some` exactly on the canonical
/// encoding of a point, which then compresses back to the same bytes.
#[verifier::external_body]
fn decompress(bytes: [u8; 32]) -> (r: Option<GroupElement>)
    ensures
        r.is_some() == decodes(bytes@),
        r matches Some(g) ==> g@ == bytes@,
{
    curve25519_dalek::ristretto::CompressedRistretto(bytes).decompress().map(|p| GroupElement { bytes: p.compress().to_bytes() })
}

/// Relies on `RistrettoPoint::identity`, whose compressed encoding is 32 zero
/// bytes.
#[verifier::external_body]
pub(crate) fn identity() -> (r: GroupElement)
    ensures
        r@ == identity_encoding(),
{
    GroupElement { bytes: curve25519_dalek::ristretto::RistrettoPoint::identity().compress().to_bytes() }
}

/// Relies on `RistrettoPoint + RistrettoPoint` (with `decompress` and
/// `compress` to move between the point and its encoding).
#[verifier::external_body]
pub(crate) fn point_add(a: &GroupElement, b: &GroupElement) -> (r: GroupElement)
    requires
        decodes(a@),
        decodes(b@),
    ensures
        r@ == point_sum(a@, b@),
{
    let p = curve25519_dalek::ristretto::CompressedRistretto(a.bytes).decompress().unwrap();
    let q = curve25519_dalek::ristretto::CompressedRistretto(b.bytes).decompress().unwrap();
    GroupElement { bytes: (p + q).compress().to_bytes() }
}

/// Relies on `Scalar * RistrettoPoint`.
#[verifier::external_body]
pub(crate) fn scale(s: &Scalar, p: &GroupElement) -> (r: GroupElement)
    requires
        decodes(p@),
    ensures
        r@ == point_scaled(s@, p@),
{
    let k = curve25519_dalek::scalar::Scalar::from_bytes_mod_order(s.bytes);
    let q = curve25519_dalek::ristretto::CompressedRistretto(p.bytes).decompress().unwrap();
    GroupElement { bytes: (k * q).compress().to_bytes() }
}

/// Relies on `RistrettoPoint::mul_base`: the base point multiplied by `s`.
#[verifier::external_body]
pub(crate) fn scale_base(s: &Scalar) -> (r: GroupElement)
    ensures
        r@ == base_scaled(s@),
{
    let k = curve25519_dalek::scalar::Scalar::from_bytes_mod_order(s.bytes);
    GroupElement { bytes: curve25519_dalek::ristretto::RistrettoPoint::mul_base(&k).compress().to_bytes() }
}

/// Relies on `RistrettoPoint::hash_from_bytes::<Sha512>`: a point that depends
/// on the bytes alone.
#[verifier::external_body]
pub(crate) fn hash_to_point(b: &[u8]) -> (r: GroupElement)
    ensures
        r@ == hash_to_point_of(b@),
{
    let p = curve25519_dalek::ristretto::RistrettoPoint::hash_from_bytes::<sha2::Sha512>(b);
    GroupElement { bytes: p.compress().to_bytes() }
}

/// Relies on `Scalar::hash_from_bytes::<Sha512>`: a scalar that depends on the
/// bytes alone.
#[verifier::external_body]
pub(crate) fn hash_to_scalar(b: &[u8]) -> (r: Scalar)
    ensures
        r@ == hash_to_scalar_of(b@),
{
    Scalar { bytes: curve25519_dalek::scalar::Scalar::hash_from_bytes::<sha2::Sha512>(b).to_bytes() }
}

/// Relies on `Scalar::from_bytes_mod_order_wide`: the 512-bit little-endian
/// integer reduced modulo the group order.
#[verifier::external_body]
pub(crate) fn scalar_from_wide(b: &[u8; 64]) -> (r: Scalar)
    ensures
        r@ == le_encoding(le_value(b@) % group_order()),
{
    Scalar { bytes: curve25519_dalek::scalar::Scalar::from_bytes_mod_order_wide(b).to_bytes() }
}

/// Relies on `Scalar + Scalar`: the sum modulo the group order
/// (`from_bytes_mod_order` first reduces each operand).
#[verifier::external_body]
pub(crate) fn scalar_add(a: &Scalar, b: &Scalar) -> (r: Scalar)
    ensures
        r@ == scalar_sum(a@, b@),
{
    let x = curve25519_dalek::scalar::Scalar::from_bytes_mod_order(a.bytes);
    let y = curve25519_dalek::scalar::Scalar::from_bytes_mod_order(b.bytes);
    Scalar { bytes: (x + y).to_bytes() }
}

/// Relies on `Scalar * Scalar`: the product modulo the group order.
#[verifier::external_body]
pub(crate) fn scalar_mul(a: &Scalar, b: &Scalar) -> (r: Scalar)
    ensures
        r@ == scalar_product(a@, b@),
{
    let x = curve25519_dalek::scalar::Scalar::from_bytes_mod_order(a.bytes);
    let y = curve25519_dalek::scalar::Scalar::from_bytes_mod_order(b.bytes);
    Scalar { bytes: (x * y).to_bytes() }
}

/// Relies on `-Scalar`: the additive inverse modulo the group order.
#[verifier::external_body]
pub(crate) fn scalar_neg(a: &Scalar) -> (r: Scalar)
    ensures
        r@ == scalar_negation(a@),
{
    let x = curve25519_dalek::scalar::Scalar::from_bytes_mod_order(a.bytes);
    Scalar { bytes: (-x).to_bytes() }
}

} // verus!
