//! secp256k1 backend.
//!
//! Every function here wraps one operation of the `k256` crate.  Scalar
//! arithmetic is stated exactly: `k256::Scalar` is the field of integers
//! modulo the secp256k1 group order, `Reduce::reduce_bytes` reduces a 32-byte
//! big-endian string modulo that order, and `to_bytes` writes the canonical
//! 32-byte big-endian form.  The group operations on points are named by the
//! uninterpreted functions below, as functions of the compressed encodings.

use vstd::prelude::*;
use crate::curve::{group_order, generator_bytes, field_modulus_val, Curve, Point, Scalar};
use crate::error::Result;
use crate::model::{be_val, is_mod_inverse};
use crate::types::CurveType;
use k256::elliptic_curve::Field;
use k256::elliptic_curve::ops::Reduce;
use k256::elliptic_curve::sec1::{FromEncodedPoint, ToEncodedPoint};

verus! {

/// Whether `k256`'s SEC1 decoder accepts `b` as a point encoding.
pub uninterp spec fn k1_point_ok(b: Seq<u8>) -> bool;

/// The compressed encoding of the sum of the points encoded by `a` and `b`,
/// as computed by `k256` point addition.
pub uninterp spec fn k1_point_add(a: Seq<u8>, b: Seq<u8>) -> Seq<u8>;

/// The compressed encoding of the point encoded by `p` multiplied by the
/// scalar denoted by the 32-byte big-endian string `s`, as computed by
/// `k256` scalar multiplication after reduction of `s`.
pub uninterp spec fn k1_point_mul(p: Seq<u8>, s: Seq<u8>) -> Seq<u8>;

/// secp256k1 curve implementation.
pub struct Secp256k1;

impl Secp256k1 {
    /// Create a new secp256k1 instance.
    pub fn new() -> Secp256k1 {
        Secp256k1
    }

    /// Relies on `k256::Scalar`: `+` is addition modulo the group order,
    /// `reduce_bytes` reduces 32 big-endian bytes, `to_bytes` is big-endian.
    #[verifier::external_body]
    pub fn add_scalars(a: &Scalar, b: &Scalar) -> (r: Result<Scalar>)
        requires
            a.value@.len() == 32,
            b.value@.len() == 32,
        ensures
            r is Ok,
            r matches Ok(s) ==> s.curve_type == CurveType::Secp256k1 && s.value@.len() == 32 && be_val(s.value@) == (be_val(a.value@) + be_val(b.value@)) % group_order(CurveType::Secp256k1),
    {
        let mut xa = [0u8; 32];
        xa.copy_from_slice(&a.value);
        let mut xb = [0u8; 32];
        xb.copy_from_slice(&b.value);
        let sa = <k256::Scalar as Reduce<k256::U256>>::reduce_bytes(&xa.into());
        let sb = <k256::Scalar as Reduce<k256::U256>>::reduce_bytes(&xb.into());
        Ok(Scalar::new(CurveType::Secp256k1, (sa + sb).to_bytes().to_vec()))
    }

    /// Relies on `k256::Scalar`: `*` is multiplication modulo the group
    /// order.
    #[verifier::external_body]
    pub fn mul_scalars(a: &Scalar, b: &Scalar) -> (r: Result<Scalar>)
        requires
            a.value@.len() == 32,
            b.value@.len() == 32,
        ensures
            r is Ok,
            r matches Ok(s) ==> s.curve_type == CurveType::Secp256k1 && s.value@.len() == 32 && be_val(s.value@) == (be_val(a.value@) * be_val(b.value@)) % group_order(CurveType::Secp256k1),
    {
        let mut xa = [0u8; 32];
        xa.copy_from_slice(&a.value);
        let mut xb = [0u8; 32];
        xb.copy_from_slice(&b.value);
        let sa = <k256::Scalar as Reduce<k256::U256>>::reduce_bytes(&xa.into());
        let sb = <k256::Scalar as Reduce<k256::U256>>::reduce_bytes(&xb.into());
        Ok(Scalar::new(CurveType::Secp256k1, (sa * sb).to_bytes().to_vec()))
    }

    /// Relies on `k256::Scalar::invert`: the multiplicative inverse modulo
    /// the group order, `None` exactly for zero, which is mapped to zero.
    #[verifier::external_body]
    pub fn invert_scalar(s: &Scalar) -> (r: Result<Scalar>)
        requires
            s.value@.len() == 32,
        ensures
            r is Ok,
            r matches Ok(v) ==> v.curve_type == CurveType::Secp256k1 && v.value@.len() == 32 && is_mod_inverse(group_order(CurveType::Secp256k1), be_val(s.value@), be_val(v.value@)),
    {
        let mut xs = [0u8; 32];
        xs.copy_from_slice(&s.value);
        let sc = <k256::Scalar as Reduce<k256::U256>>::reduce_bytes(&xs.into());
        let inv = sc.invert().unwrap_or(k256::Scalar::ZERO);
        Ok(Scalar::new(CurveType::Secp256k1, inv.to_bytes().to_vec()))
    }

    /// Relies on `k256::Scalar::reduce_bytes`: reduces a 32-byte big-endian
    /// string modulo the group order.
    #[verifier::external_body]
    pub(crate) fn reduce_scalar(bytes: &[u8]) -> (r: Scalar)
        requires
            bytes@.len() == 32,
        ensures
            r.curve_type == CurveType::Secp256k1,
            r.value@.len() == 32,
            be_val(r.value@) == be_val(bytes@) % group_order(CurveType::Secp256k1),
    {
        let mut xs = [0u8; 32];
        xs.copy_from_slice(bytes);
        let sc = <k256::Scalar as Reduce<k256::U256>>::reduce_bytes(&xs.into());
        Scalar::new(CurveType::Secp256k1, sc.to_bytes().to_vec())
    }

    /// Relies on `k256::Scalar::random`: a uniform scalar below the group
    /// order, from the process CSPRNG.
    #[verifier::external_body]
    pub(crate) fn sample_scalar() -> (r: Scalar)
        ensures
            r.curve_type == CurveType::Secp256k1,
            r.value@.len() == 32,
            be_val(r.value@) < group_order(CurveType::Secp256k1),
    {
        let sc = k256::Scalar::random(&mut rand::thread_rng());
        Scalar::new(CurveType::Secp256k1, sc.to_bytes().to_vec())
    }

    /// Relies on `k256::AffinePoint::from_encoded_point`: decides whether a
    /// byte string is a valid SEC1 point encoding.
    #[verifier::external_body]
    pub(crate) fn check_point(b: &[u8]) -> (r: bool)
        ensures
            r == k1_point_ok(b@),
    {
        match k256::EncodedPoint::from_bytes(b) {
            Ok(ep) => bool::from(k256::AffinePoint::from_encoded_point(&ep).is_some()),
            Err(_) => false,
        }
    }

    /// Relies on `k256` point addition and SEC1 compression: the sum of two
    /// valid points re-encodes to a valid encoding.
    #[verifier::external_body]
    pub fn add_points(a: &Point, b: &Point) -> (r: Result<Point>)
        ensures
            (r matches Ok(_)) == (k1_point_ok(a.bytes@) && k1_point_ok(b.bytes@)),
            r matches Ok(p) ==> p.curve_type == CurveType::Secp256k1 && p.bytes@ == k1_point_add(a.bytes@, b.bytes@) && k1_point_ok(p.bytes@),
            r matches Err(e) ==> e is CurveError,
    {
        let bad = || crate::error::Error::CurveError("invalid point".to_owned());
        let ea = k256::EncodedPoint::from_bytes(&a.bytes).map_err(|_| bad())?;
        let pa: k256::AffinePoint =
            Option::from(k256::AffinePoint::from_encoded_point(&ea)).ok_or_else(bad)?;
        let eb = k256::EncodedPoint::from_bytes(&b.bytes).map_err(|_| bad())?;
        let pb: k256::AffinePoint =
            Option::from(k256::AffinePoint::from_encoded_point(&eb)).ok_or_else(bad)?;
        let sum = (k256::ProjectivePoint::from(pa) + pb).to_affine();
        Ok(Point::new(CurveType::Secp256k1, sum.to_encoded_point(true).as_bytes().to_vec()))
    }

    /// Relies on `k256` scalar multiplication and SEC1 compression; the
    /// scalar bytes are first reduced modulo the group order.
    #[verifier::external_body]
    pub fn mul_point_scalar(p: &Point, s: &Scalar) -> (r: Result<Point>)
        requires
            s.value@.len() == 32,
        ensures
            (r matches Ok(_)) == k1_point_ok(p.bytes@),
            r matches Ok(q) ==> q.curve_type == CurveType::Secp256k1 && q.bytes@ == k1_point_mul(p.bytes@, s.value@) && k1_point_ok(q.bytes@),
            r matches Err(e) ==> e is CurveError,
    {
        let bad = || crate::error::Error::CurveError("invalid point".to_owned());
        let ep = k256::EncodedPoint::from_bytes(&p.bytes).map_err(|_| bad())?;
        let pt: k256::AffinePoint =
            Option::from(k256::AffinePoint::from_encoded_point(&ep)).ok_or_else(bad)?;
        let mut xs = [0u8; 32];
        xs.copy_from_slice(&s.value);
        let sc = <k256::Scalar as Reduce<k256::U256>>::reduce_bytes(&xs.into());
        let prod = (k256::ProjectivePoint::from(pt) * sc).to_affine();
        Ok(Point::new(CurveType::Secp256k1, prod.to_encoded_point(true).as_bytes().to_vec()))
    }

    /// Relies on `k256::AffinePoint::GENERATOR`: the SEC1 compressed
    /// encoding of the standard secp256k1 generator, a valid point.
    #[verifier::external_body]
    pub(crate) fn generator_point() -> (r: Point)
        ensures
            r.curve_type == CurveType::Secp256k1,
            r.bytes@ == generator_bytes(CurveType::Secp256k1),
            k1_point_ok(r.bytes@),
    {
        let g = k256::AffinePoint::GENERATOR;
        Point::new(CurveType::Secp256k1, g.to_encoded_point(true).as_bytes().to_vec())
    }

    /// The compressed encoding of a point of this curve: the stored bytes,
    /// if they decode.
    pub fn point_to_compressed(p: &Point) -> (r: Result<Vec<u8>>)
        ensures
            k1_point_ok(p.bytes@) ==> (r matches Ok(v) && v@ == p.bytes@),
            !k1_point_ok(p.bytes@) ==> (r matches Err(e) && e is CurveError),
    {
        if Secp256k1::check_point(p.bytes.as_slice()) {
            Ok(p.bytes.clone())
        } else {
            Err(crate::error::Error::CurveError("invalid point".to_owned()))
        }
    }

    /// Decode a compressed point of this curve.
    pub fn point_from_compressed(bytes: &[u8]) -> (r: Result<Point>)
        ensures
            k1_point_ok(bytes@) ==> (r matches Ok(p) && p.curve_type == CurveType::Secp256k1 && p.bytes@ == bytes@),
            !k1_point_ok(bytes@) ==> (r matches Err(e) && e is CurveError),
    {
        if Secp256k1::check_point(bytes) {
            Ok(Point { curve_type: CurveType::Secp256k1, bytes: crate::curve::bytes_to_vec(bytes) })
        } else {
            Err(crate::error::Error::CurveError("invalid compressed point".to_owned()))
        }
    }
}

impl Curve for Secp256k1 {
    open spec fn ct(&self) -> CurveType {
        CurveType::Secp256k1
    }

    fn curve_type(&self) -> CurveType {
        CurveType::Secp256k1
    }

    fn random_scalar(&self) -> Result<Scalar> {
        Ok(Secp256k1::sample_scalar())
    }

    fn scalar_from_bytes(&self, bytes: &[u8]) -> Result<Scalar> {
        if bytes.len() != 32 {
            return Err(crate::error::Error::CurveError("invalid scalar length".to_owned()));
        }
        proof {
            vstd::arithmetic::div_mod::lemma_mod_division_less_than_divisor(be_val(bytes@) as int, group_order(CurveType::Secp256k1) as int);
        }
        Ok(Secp256k1::reduce_scalar(bytes))
    }

    fn scalar_from_u64(&self, value: u64) -> Result<Scalar> {
        let b = crate::model::u64_to_be32(value);
        proof {
            crate::curve::lemma_group_order_large(CurveType::Secp256k1);
            vstd::arithmetic::div_mod::lemma_small_mod(value as nat, group_order(CurveType::Secp256k1));
        }
        Ok(Secp256k1::reduce_scalar(b.as_slice()))
    }

    fn generator(&self) -> Point {
        Secp256k1::generator_point()
    }

    fn point_from_bytes(&self, bytes: &[u8]) -> Result<Point> {
        Point::from_compressed_bytes(CurveType::Secp256k1, bytes)
    }

    fn order(&self) -> Scalar {
        let v = vec![0xffu8, 0xff, 0xff, 0xff, 0xff, 0xff, 0xff, 0xff, 0xff, 0xff, 0xff, 0xff, 0xff, 0xff, 0xff, 0xfe, 0xba, 0xae, 0xdc, 0xe6, 0xaf, 0x48, 0xa0, 0x3b, 0xbf, 0xd2, 0x5e, 0x8c, 0xd0, 0x36, 0x41, 0x41];
        proof {
            assert(be_val(v@) == group_order(CurveType::Secp256k1)) by {
                reveal_with_fuel(be_val, 33);
            }
        }
        Scalar { curve_type: CurveType::Secp256k1, value: v }
    }

    fn field_modulus(&self) -> Scalar {
        let v = vec![0xffu8, 0xff, 0xff, 0xff, 0xff, 0xff, 0xff, 0xff, 0xff, 0xff, 0xff, 0xff, 0xff, 0xff, 0xff, 0xff, 0xff, 0xff, 0xff, 0xff, 0xff, 0xff, 0xff, 0xff, 0xff, 0xff, 0xff, 0xfe, 0xff, 0xff, 0xfc, 0x2f];
        proof {
            assert(be_val(v@) == field_modulus_val(CurveType::Secp256k1)) by {
                reveal_with_fuel(be_val, 33);
            }
        }
        Scalar { curve_type: CurveType::Secp256k1, value: v }
    }
}

} // verus!
