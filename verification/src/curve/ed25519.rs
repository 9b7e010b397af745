//! Edwards25519 backend.
//!
//! Every function here wraps one operation of the `curve25519-dalek` crate.
//! Scalar arithmetic is stated exactly: `curve25519_dalek::Scalar` is the
//! field of integers modulo the Ed25519 group order,
//! `from_bytes_mod_order` reduces 32 little-endian bytes modulo that order,
//! and `to_bytes` writes little-endian.  This crate carries scalars
//! big-endian, so the wrappers reverse the byte order on the way in and out.
//! The group operations on points are named by the uninterpreted functions
//! below, as functions of the compressed Edwards-y encodings.

use vstd::prelude::*;
use crate::curve::{group_order, generator_bytes, field_modulus_val, Curve, Point, Scalar};
use crate::error::Result;
use crate::model::{be_val, is_mod_inverse};
use crate::types::CurveType;

verus! {

/// Whether `b` decompresses to an Edwards25519 point.
pub uninterp spec fn ed_point_ok(b: Seq<u8>) -> bool;

/// The compressed encoding of the sum of the points encoded by `a` and `b`,
/// as computed by `curve25519-dalek` point addition.
pub uninterp spec fn ed_point_add(a: Seq<u8>, b: Seq<u8>) -> Seq<u8>;

/// The compressed encoding of the point encoded by `p` multiplied by the
/// scalar denoted by the 32-byte big-endian string `s`, as computed by
/// `curve25519-dalek` scalar multiplication after reduction of `s`.
pub uninterp spec fn ed_point_mul(p: Seq<u8>, s: Seq<u8>) -> Seq<u8>;

/// Edwards25519 curve implementation.
pub struct Ed25519;

impl Ed25519 {
    /// Create a new Ed25519 instance.
    pub fn new() -> Ed25519 {
        Ed25519
    }

    /// Relies on `curve25519_dalek::Scalar`: `+` is addition modulo the
    /// group order, `from_bytes_mod_order` reduces, `to_bytes` is
    /// little-endian (reversed here to big-endian).
    #[verifier::external_body]
    pub fn add_scalars(a: &Scalar, b: &Scalar) -> (r: Result<Scalar>)
        requires
            a.value@.len() == 32,
            b.value@.len() == 32,
        ensures
            r is Ok,
            r matches Ok(s) ==> s.curve_type == CurveType::Edwards25519 && s.value@.len() == 32 && be_val(s.value@) == (be_val(a.value@) + be_val(b.value@)) % group_order(CurveType::Edwards25519),
    {
        let mut xa = [0u8; 32];
        xa.copy_from_slice(&a.value);
        xa.reverse();
        let mut xb = [0u8; 32];
        xb.copy_from_slice(&b.value);
        xb.reverse();
        let sum = curve25519_dalek::Scalar::from_bytes_mod_order(xa)
            + curve25519_dalek::Scalar::from_bytes_mod_order(xb);
        let mut out = sum.to_bytes();
        out.reverse();
        Ok(Scalar::new(CurveType::Edwards25519, out.to_vec()))
    }

    /// Relies on `curve25519_dalek::Scalar`: `*` is multiplication modulo
    /// the group order.
    #[verifier::external_body]
    pub fn mul_scalars(a: &Scalar, b: &Scalar) -> (r: Result<Scalar>)
        requires
            a.value@.len() == 32,
            b.value@.len() == 32,
        ensures
            r is Ok,
            r matches Ok(s) ==> s.curve_type == CurveType::Edwards25519 && s.value@.len() == 32 && be_val(s.value@) == (be_val(a.value@) * be_val(b.value@)) % group_order(CurveType::Edwards25519),
    {
        let mut xa = [0u8; 32];
        xa.copy_from_slice(&a.value);
        xa.reverse();
        let mut xb = [0u8; 32];
        xb.copy_from_slice(&b.value);
        xb.reverse();
        let prod = curve25519_dalek::Scalar::from_bytes_mod_order(xa)
            * curve25519_dalek::Scalar::from_bytes_mod_order(xb);
        let mut out = prod.to_bytes();
        out.reverse();
        Ok(Scalar::new(CurveType::Edwards25519, out.to_vec()))
    }

    /// Relies on `curve25519_dalek::Scalar::invert`: exponentiation by an
    /// addition chain for the group order minus two, so the inverse modulo
    /// the group order, and zero for zero.
    #[verifier::external_body]
    pub fn invert_scalar(s: &Scalar) -> (r: Result<Scalar>)
        requires
            s.value@.len() == 32,
        ensures
            r is Ok,
            r matches Ok(v) ==> v.curve_type == CurveType::Edwards25519 && v.value@.len() == 32 && is_mod_inverse(group_order(CurveType::Edwards25519), be_val(s.value@), be_val(v.value@)),
    {
        let mut xs = [0u8; 32];
        xs.copy_from_slice(&s.value);
        xs.reverse();
        let inv = curve25519_dalek::Scalar::from_bytes_mod_order(xs).invert();
        let mut out = inv.to_bytes();
        out.reverse();
        Ok(Scalar::new(CurveType::Edwards25519, out.to_vec()))
    }

    /// Relies on `curve25519_dalek::Scalar::from_bytes_mod_order`: reduces
    /// modulo the group order.
    #[verifier::external_body]
    pub(crate) fn reduce_scalar(bytes: &[u8]) -> (r: Scalar)
        requires
            bytes@.len() == 32,
        ensures
            r.curve_type == CurveType::Edwards25519,
            r.value@.len() == 32,
            be_val(r.value@) == be_val(bytes@) % group_order(CurveType::Edwards25519),
    {
        let mut xs = [0u8; 32];
        xs.copy_from_slice(bytes);
        xs.reverse();
        let sc = curve25519_dalek::Scalar::from_bytes_mod_order(xs);
        let mut out = sc.to_bytes();
        out.reverse();
        Scalar::new(CurveType::Edwards25519, out.to_vec())
    }

    /// Relies on `curve25519_dalek::Scalar::random`: a uniform scalar below
    /// the group order, from the process CSPRNG.
    #[verifier::external_body]
    pub(crate) fn sample_scalar() -> (r: Scalar)
        ensures
            r.curve_type == CurveType::Edwards25519,
            r.value@.len() == 32,
            be_val(r.value@) < group_order(CurveType::Edwards25519),
    {
        let sc = curve25519_dalek::Scalar::random(&mut rand::thread_rng());
        let mut out = sc.to_bytes();
        out.reverse();
        Scalar::new(CurveType::Edwards25519, out.to_vec())
    }

    /// Relies on `CompressedEdwardsY::decompress`: decides whether 32 bytes
    /// encode a point of the curve.
    #[verifier::external_body]
    pub(crate) fn check_point(b: &[u8]) -> (r: bool)
        ensures
            r == ed_point_ok(b@),
    {
        match curve25519_dalek::edwards::CompressedEdwardsY::from_slice(b) {
            Ok(c) => c.decompress().is_some(),
            Err(_) => false,
        }
    }

    /// Relies on `curve25519-dalek` point addition and compression: the sum
    /// of two valid points re-encodes to a valid encoding.
    #[verifier::external_body]
    pub fn add_points(a: &Point, b: &Point) -> (r: Result<Point>)
        ensures
            (r matches Ok(_)) == (ed_point_ok(a.bytes@) && ed_point_ok(b.bytes@)),
            r matches Ok(p) ==> p.curve_type == CurveType::Edwards25519 && p.bytes@ == ed_point_add(a.bytes@, b.bytes@) && ed_point_ok(p.bytes@),
            r matches Err(e) ==> e is CurveError,
    {
        let bad = || crate::error::Error::CurveError("invalid point".to_owned());
        let ca = curve25519_dalek::edwards::CompressedEdwardsY::from_slice(&a.bytes)
            .map_err(|_| bad())?;
        let pa = ca.decompress().ok_or_else(bad)?;
        let cb = curve25519_dalek::edwards::CompressedEdwardsY::from_slice(&b.bytes)
            .map_err(|_| bad())?;
        let pb = cb.decompress().ok_or_else(bad)?;
        Ok(Point::new(CurveType::Edwards25519, (pa + pb).compress().to_bytes().to_vec()))
    }

    /// Relies on `curve25519-dalek` scalar multiplication and compression;
    /// the scalar bytes are first reduced modulo the group order.
    #[verifier::external_body]
    pub fn mul_point_scalar(p: &Point, s: &Scalar) -> (r: Result<Point>)
        requires
            s.value@.len() == 32,
        ensures
            (r matches Ok(_)) == ed_point_ok(p.bytes@),
            r matches Ok(q) ==> q.curve_type == CurveType::Edwards25519 && q.bytes@ == ed_point_mul(p.bytes@, s.value@) && ed_point_ok(q.bytes@),
            r matches Err(e) ==> e is CurveError,
    {
        let bad = || crate::error::Error::CurveError("invalid point".to_owned());
        let cp = curve25519_dalek::edwards::CompressedEdwardsY::from_slice(&p.bytes)
            .map_err(|_| bad())?;
        let pt = cp.decompress().ok_or_else(bad)?;
        let mut xs = [0u8; 32];
        xs.copy_from_slice(&s.value);
        xs.reverse();
        let sc = curve25519_dalek::Scalar::from_bytes_mod_order(xs);
        Ok(Point::new(CurveType::Edwards25519, (pt * sc).compress().to_bytes().to_vec()))
    }

    /// Relies on `ED25519_BASEPOINT_COMPRESSED`: the compressed encoding of
    /// the standard Ed25519 basepoint, a valid point.
    #[verifier::external_body]
    pub(crate) fn generator_point() -> (r: Point)
        ensures
            r.curve_type == CurveType::Edwards25519,
            r.bytes@ == generator_bytes(CurveType::Edwards25519),
            ed_point_ok(r.bytes@),
    {
        let g = curve25519_dalek::constants::ED25519_BASEPOINT_COMPRESSED;
        Point::new(CurveType::Edwards25519, g.to_bytes().to_vec())
    }

    /// The compressed encoding of a point of this curve: the stored bytes,
    /// if they decode.
    pub fn point_to_compressed(p: &Point) -> (r: Result<Vec<u8>>)
        ensures
            ed_point_ok(p.bytes@) ==> (r matches Ok(v) && v@ == p.bytes@),
            !ed_point_ok(p.bytes@) ==> (r matches Err(e) && e is CurveError),
    {
        if Ed25519::check_point(p.bytes.as_slice()) {
            Ok(p.bytes.clone())
        } else {
            Err(crate::error::Error::CurveError("invalid point".to_owned()))
        }
    }

    /// Decode a compressed point of this curve.
    pub fn point_from_compressed(bytes: &[u8]) -> (r: Result<Point>)
        ensures
            ed_point_ok(bytes@) ==> (r matches Ok(p) && p.curve_type == CurveType::Edwards25519 && p.bytes@ == bytes@),
            !ed_point_ok(bytes@) ==> (r matches Err(e) && e is CurveError),
    {
        if Ed25519::check_point(bytes) {
            Ok(Point { curve_type: CurveType::Edwards25519, bytes: crate::curve::bytes_to_vec(bytes) })
        } else {
            Err(crate::error::Error::CurveError("invalid compressed point".to_owned()))
        }
    }
}

impl Curve for Ed25519 {
    open spec fn ct(&self) -> CurveType {
        CurveType::Edwards25519
    }

    fn curve_type(&self) -> CurveType {
        CurveType::Edwards25519
    }

    fn random_scalar(&self) -> Result<Scalar> {
        Ok(Ed25519::sample_scalar())
    }

    fn scalar_from_bytes(&self, bytes: &[u8]) -> Result<Scalar> {
        if bytes.len() != 32 {
            return Err(crate::error::Error::CurveError("invalid scalar length".to_owned()));
        }
        proof {
            vstd::arithmetic::div_mod::lemma_mod_division_less_than_divisor(be_val(bytes@) as int, group_order(CurveType::Edwards25519) as int);
        }
        Ok(Ed25519::reduce_scalar(bytes))
    }

    fn scalar_from_u64(&self, value: u64) -> Result<Scalar> {
        let b = crate::model::u64_to_be32(value);
        proof {
            crate::curve::lemma_group_order_large(CurveType::Edwards25519);
            vstd::arithmetic::div_mod::lemma_small_mod(value as nat, group_order(CurveType::Edwards25519));
        }
        Ok(Ed25519::reduce_scalar(b.as_slice()))
    }

    fn generator(&self) -> Point {
        Ed25519::generator_point()
    }

    fn point_from_bytes(&self, bytes: &[u8]) -> Result<Point> {
        Point::from_compressed_bytes(CurveType::Edwards25519, bytes)
    }

    fn order(&self) -> Scalar {
        let v = vec![0x10u8, 0x00, 0x00, 0x00, 0x00, 0x00, 0x00, 0x00, 0x00, 0x00, 0x00, 0x00, 0x00, 0x00, 0x00, 0x00, 0x14, 0xde, 0xf9, 0xde, 0xa2, 0xf7, 0x9c, 0xd6, 0x58, 0x12, 0x63, 0x1a, 0x5c, 0xf5, 0xd3, 0xed];
        proof {
            assert(be_val(v@) == group_order(CurveType::Edwards25519)) by {
                reveal_with_fuel(be_val, 33);
            }
        }
        Scalar { curve_type: CurveType::Edwards25519, value: v }
    }

    fn field_modulus(&self) -> Scalar {
        let v = vec![0x7fu8, 0xff, 0xff, 0xff, 0xff, 0xff, 0xff, 0xff, 0xff, 0xff, 0xff, 0xff, 0xff, 0xff, 0xff, 0xff, 0xff, 0xff, 0xff, 0xff, 0xff, 0xff, 0xff, 0xff, 0xff, 0xff, 0xff, 0xff, 0xff, 0xff, 0xff, 0xed];
        proof {
            assert(be_val(v@) == field_modulus_val(CurveType::Edwards25519)) by {
                reveal_with_fuel(be_val, 33);
            }
        }
        Scalar { curve_type: CurveType::Edwards25519, value: v }
    }
}

} // verus!
