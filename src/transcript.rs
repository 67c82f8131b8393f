//! The hashes that bind a link to its key and message, and the sum of a
//! sequence of points.
use vstd::prelude::*;
use crate::group::{
    point_add, decodes, hash_to_point, hash_to_point_of, hash_to_scalar, hash_to_scalar_of, identity,
    identity_encoding, point_sum, GroupElement, Scalar,
};

verus! {

/// The point that a link's public key and message hash to.
pub open spec fn link_point(key: Seq<u8>, message: Seq<u8>) -> Seq<u8> {
    hash_to_point_of(key + message)
}

/// The encodings of `points`, one after the other.
pub open spec fn concat(points: Seq<Seq<u8>>) -> Seq<u8>
    decreases points.len(),
{
    if points.len() == 0 {
        Seq::empty()
    } else {
        concat(points.drop_last()) + points.last()
    }
}

/// The Fiat-Shamir challenge of an ordered sequence of points.
pub open spec fn challenge_of(points: Seq<Seq<u8>>) -> Seq<u8> {
    hash_to_scalar_of(concat(points))
}

/// The nonce that a secret scalar derives for a point.
pub open spec fn nonce_of(secret: Seq<u8>, point: Seq<u8>) -> Seq<u8> {
    hash_to_scalar_of(secret + point)
}

/// The sum of `points`, added from the first to the last; the identity for
/// none.
pub open spec fn point_total(points: Seq<Seq<u8>>) -> Seq<u8>
    decreases points.len(),
{
    if points.len() == 0 {
        identity_encoding()
    } else if points.len() == 1 {
        points[0]
    } else {
        point_sum(point_total(points.drop_last()), points.last())
    }
}

/// The views of a sequence of points.
pub open spec fn views(points: Seq<GroupElement>) -> Seq<Seq<u8>> {
    points.map_values(|p: GroupElement| p@)
}

/// Pushes the bytes of `src` onto `out`.
pub(crate) fn push_bytes(out: &mut Vec<u8>, src: &[u8])
    ensures
        final(out)@ == old(out)@ + src@,
{
    let mut i: usize = 0;
    while i < src.len()
        invariant
            i <= src@.len(),
            out@ == old(out)@ + src@.subrange(0, i as int),
        decreases src@.len() - i,
    {
        out.push(src[i]);
        i = i + 1;
        assert(src@.subrange(0, i as int) == src@.subrange(0, i - 1) + seq![src@[i - 1]]);
    }
    assert(src@.subrange(0, src@.len() as int) == src@);
}

/// Hashes a public key and a message to a point of the group.
pub fn hash_to_curve(key: &GroupElement, message: &[u8]) -> (r: GroupElement)
    ensures
        r@ == link_point(key@, message@),
{
    let mut input: Vec<u8> = Vec::new();
    let encoded = key.to_bytes();
    push_bytes(&mut input, encoded.as_slice());
    push_bytes(&mut input, message);
    hash_to_point(input.as_slice())
}

/// Hashes an ordered sequence of points to a challenge scalar.
pub fn hash_points(points: &[GroupElement]) -> (r: Scalar)
    ensures
        r@ == challenge_of(views(points@)),
{
    let mut input: Vec<u8> = Vec::new();
    let mut i: usize = 0;
    while i < points.len()
        invariant
            i <= points@.len(),
            input@ == concat(views(points@).subrange(0, i as int)),
        decreases points@.len() - i,
    {
        let encoded = points[i].to_bytes();
        push_bytes(&mut input, encoded.as_slice());
        i = i + 1;
        assert(views(points@).subrange(0, i as int).drop_last() == views(points@).subrange(0, i - 1));
    }
    assert(views(points@).subrange(0, points@.len() as int) == views(points@));
    hash_to_scalar(input.as_slice())
}

/// Derives the nonce of a secret scalar for a point.
pub fn derive_nonce(secret: &Scalar, point: &GroupElement) -> (r: Scalar)
    ensures
        r@ == nonce_of(secret@, point@),
{
    let mut input: Vec<u8> = Vec::new();
    let s = secret.to_bytes();
    let p = point.to_bytes();
    push_bytes(&mut input, s.as_slice());
    push_bytes(&mut input, p.as_slice());
    hash_to_scalar(input.as_slice())
}

/// Adds up `points` from the first to the last; the identity for none.
pub fn add_points(points: &[GroupElement]) -> (r: GroupElement)
    ensures
        r@ == point_total(views(points@)),
{
    if points.len() == 0 {
        return identity();
    }
    let mut acc = points[0];
    let mut i: usize = 1;
    while i < points.len()
        invariant
            1 <= i <= points@.len(),
            acc@ == point_total(views(points@).subrange(0, i as int)),
        decreases points@.len() - i,
    {
        let next = &points[i];
        proof {
            use_type_invariant(&acc);
            use_type_invariant(next);
        }
        acc = point_add(&acc, next);
        i = i + 1;
        assert(views(points@).subrange(0, i as int).drop_last() == views(points@).subrange(0, i - 1));
    }
    assert(views(points@).subrange(0, points@.len() as int) == views(points@));
    acc
}

} // verus!
