//! Elliptic curve operations.
//!
//! A uniform scalar/point interface over three curves (secp256k1, NIST P-256,
//! Edwards25519), dispatched by `CurveType` tag.  Scalars are canonical
//! 32-byte big-endian strings reduced modulo the group order; points are
//! carried in their compressed encoding.  The scalar arithmetic is specified
//! exactly as arithmetic modulo the group order; the group operations on
//! points are named, uninterpreted functions of the compressed encodings,
//! computed by the backing curve libraries.

pub mod secp256k1;
pub mod p256;
pub mod ed25519;

use vstd::prelude::*;
use vstd::arithmetic::div_mod::lemma_mod_division_less_than_divisor;
use crate::error::{Error, Result};
use crate::model::{be_val, mod_inv, lemma_mod_inverse_unique};
use crate::types::CurveType;

pub use secp256k1::Secp256k1;
pub use p256::P256;
pub use ed25519::Ed25519;

verus! {

/// The group order `q` of each curve.
pub open spec fn group_order(c: CurveType) -> nat {
    match c {
        CurveType::Secp256k1 => 0xFFFFFFFFFFFFFFFFFFFFFFFFFFFFFFFEBAAEDCE6AF48A03BBFD25E8CD0364141nat,
        CurveType::P256 => 0xFFFFFFFF00000000FFFFFFFFFFFFFFFFBCE6FAADA7179E84F3B9CAC2FC632551nat,
        CurveType::Edwards25519 => 0x1000000000000000000000000000000014DEF9DEA2F79CD65812631A5CF5D3EDnat,
    }
}

/// The field modulus `p` of each curve.
pub open spec fn field_modulus_val(c: CurveType) -> nat {
    match c {
        CurveType::Secp256k1 => 0xFFFFFFFFFFFFFFFFFFFFFFFFFFFFFFFFFFFFFFFFFFFFFFFFFFFFFFFEFFFFFC2Fnat,
        CurveType::P256 => 0xFFFFFFFF00000001000000000000000000000000FFFFFFFFFFFFFFFFFFFFFFFFnat,
        CurveType::Edwards25519 => 0x7FFFFFFFFFFFFFFFFFFFFFFFFFFFFFFFFFFFFFFFFFFFFFFFFFFFFFFFFFFFFFEDnat,
    }
}

/// Every group order is far above `2^64`, so `u64` values and participant
/// indices are already reduced.
pub proof fn lemma_group_order_large(c: CurveType)
    ensures
        group_order(c) > 0xFFFFFFFFFFFFFFFFnat,
{
}

/// Whether `b` is a valid compressed encoding of a point of curve `c`, as
/// decided by the backing library's decoder.
pub open spec fn point_ok(c: CurveType, b: Seq<u8>) -> bool {
    match c {
        CurveType::Secp256k1 => secp256k1::k1_point_ok(b),
        CurveType::P256 => p256::p256_point_ok(b),
        CurveType::Edwards25519 => ed25519::ed_point_ok(b),
    }
}

/// The compressed encoding of the group sum of two points, by curve.
pub open spec fn point_add_val(c: CurveType, a: Seq<u8>, b: Seq<u8>) -> Seq<u8> {
    match c {
        CurveType::Secp256k1 => secp256k1::k1_point_add(a, b),
        CurveType::P256 => p256::p256_point_add(a, b),
        CurveType::Edwards25519 => ed25519::ed_point_add(a, b),
    }
}

/// The compressed encoding of a scalar multiple of a point, by curve.  The
/// scalar argument is the 32-byte big-endian string handed to the library,
/// which reduces it modulo the group order.
pub open spec fn point_mul_val(c: CurveType, p: Seq<u8>, s: Seq<u8>) -> Seq<u8> {
    match c {
        CurveType::Secp256k1 => secp256k1::k1_point_mul(p, s),
        CurveType::P256 => p256::p256_point_mul(p, s),
        CurveType::Edwards25519 => ed25519::ed_point_mul(p, s),
    }
}

/// The length of a compressed point encoding: SEC1 compressed on the
/// Weierstrass curves, compressed Edwards-y on Edwards25519.
pub open spec fn point_len(c: CurveType) -> nat {
    match c {
        CurveType::Secp256k1 => 33,
        CurveType::P256 => 33,
        CurveType::Edwards25519 => 32,
    }
}

/// The compressed encoding of the canonical generator of each curve.  These
/// are the standard published constants: the SEC1 compressed generators of
/// secp256k1 and P-256, and the compressed Ed25519 basepoint.
pub open spec fn generator_bytes(c: CurveType) -> Seq<u8> {
    match c {
        CurveType::Secp256k1 => seq![
            0x02u8, 0x79, 0xBE, 0x66, 0x7E, 0xF9, 0xDC, 0xBB, 0xAC, 0x55, 0xA0, 0x62, 0x95,
            0xCE, 0x87, 0x0B, 0x07, 0x02, 0x9B, 0xFC, 0xDB, 0x2D, 0xCE, 0x28, 0xD9, 0x59,
            0xF2, 0x81, 0x5B, 0x16, 0xF8, 0x17, 0x98,
        ],
        CurveType::P256 => seq![
            0x03u8, 0x6B, 0x17, 0xD1, 0xF2, 0xE1, 0x2C, 0x42, 0x47, 0xF8, 0xBC, 0xE6, 0xE5,
            0x63, 0xA4, 0x40, 0xF2, 0x77, 0x03, 0x7D, 0x81, 0x2D, 0xEB, 0x33, 0xA0, 0xF4,
            0xA1, 0x39, 0x45, 0xD8, 0x98, 0xC2, 0x96,
        ],
        CurveType::Edwards25519 => seq![
            0x58u8, 0x66, 0x66, 0x66, 0x66, 0x66, 0x66, 0x66, 0x66, 0x66, 0x66, 0x66, 0x66,
            0x66, 0x66, 0x66, 0x66, 0x66, 0x66, 0x66, 0x66, 0x66, 0x66, 0x66, 0x66, 0x66,
            0x66, 0x66, 0x66, 0x66, 0x66, 0x66,
        ],
    }
}

/// Scalar value on an elliptic curve: a curve tag and a byte string, canonical
/// when well formed.
#[derive(Debug, Clone, PartialEq, Eq)]
pub struct Scalar {
    pub curve_type: CurveType,
    pub value: Vec<u8>,
}

impl Scalar {
    /// The integer this scalar denotes.
    pub open spec fn val(self) -> nat {
        be_val(self.value@)
    }

    /// Canonical form: 32 big-endian bytes, reduced modulo the group order.
    pub open spec fn wf(self) -> bool {
        self.value@.len() == 32 && self.val() < group_order(self.curve_type)
    }

    /// Create a new scalar from raw bytes; nothing is checked here.
    pub fn new(curve_type: CurveType, value: Vec<u8>) -> (r: Scalar)
        ensures
            r.curve_type == curve_type,
            r.value == value,
    {
        Scalar { curve_type, value }
    }

    /// The scalar's bytes.
    pub fn as_bytes(&self) -> (r: &[u8])
        ensures
            r@ == self.value@,
    {
        self.value.as_slice()
    }

    /// Add two scalars modulo the group order.  Fails if the operands belong
    /// to different curves or are not 32 bytes long.
    pub fn add(&self, other: &Scalar) -> (r: Result<Scalar>)
        ensures
            ({
                let good = self.curve_type == other.curve_type && self.value@.len() == 32
                    && other.value@.len() == 32;
                &&& good ==> (r matches Ok(s) && s.curve_type == self.curve_type && s.wf()
                    && s.val() == (self.val() + other.val()) % group_order(self.curve_type))
                &&& !good ==> (r matches Err(e) && e is CurveError)
            }),
    {
        if self.curve_type != other.curve_type {
            return Err(Error::CurveError("cannot add scalars from different curves".to_owned()));
        }
        if self.value.len() != 32 || other.value.len() != 32 {
            return Err(Error::CurveError("invalid scalar length".to_owned()));
        }
        proof {
            lemma_mod_division_less_than_divisor(
                (self.val() + other.val()) as int,
                group_order(self.curve_type) as int,
            );
        }
        match self.curve_type {
            CurveType::Secp256k1 => secp256k1::Secp256k1::add_scalars(self, other),
            CurveType::P256 => p256::P256::add_scalars(self, other),
            CurveType::Edwards25519 => ed25519::Ed25519::add_scalars(self, other),
        }
    }

    /// Multiply two scalars modulo the group order.  Fails if the operands
    /// belong to different curves or are not 32 bytes long.
    pub fn mul(&self, other: &Scalar) -> (r: Result<Scalar>)
        ensures
            ({
                let good = self.curve_type == other.curve_type && self.value@.len() == 32
                    && other.value@.len() == 32;
                &&& good ==> (r matches Ok(s) && s.curve_type == self.curve_type && s.wf()
                    && s.val() == (self.val() * other.val()) % group_order(self.curve_type))
                &&& !good ==> (r matches Err(e) && e is CurveError)
            }),
    {
        if self.curve_type != other.curve_type {
            return Err(Error::CurveError(
                "cannot multiply scalars from different curves".to_owned(),
            ));
        }
        if self.value.len() != 32 || other.value.len() != 32 {
            return Err(Error::CurveError("invalid scalar length".to_owned()));
        }
        proof {
            lemma_mod_division_less_than_divisor(
                (self.val() * other.val()) as int,
                group_order(self.curve_type) as int,
            );
        }
        match self.curve_type {
            CurveType::Secp256k1 => secp256k1::Secp256k1::mul_scalars(self, other),
            CurveType::P256 => p256::P256::mul_scalars(self, other),
            CurveType::Edwards25519 => ed25519::Ed25519::mul_scalars(self, other),
        }
    }

    /// Invert a scalar modulo the group order; the inverse of zero is zero.
    /// Fails if the scalar is not 32 bytes long.
    pub fn invert(&self) -> (r: Result<Scalar>)
        ensures
            self.value@.len() == 32 ==> (r matches Ok(s) && s.curve_type == self.curve_type
                && s.wf() && s.val() == mod_inv(group_order(self.curve_type), self.val())),
            self.value@.len() != 32 ==> (r matches Err(e) && e is CurveError),
    {
        if self.value.len() != 32 {
            return Err(Error::CurveError("invalid scalar length".to_owned()));
        }
        let r = match self.curve_type {
            CurveType::Secp256k1 => secp256k1::Secp256k1::invert_scalar(self),
            CurveType::P256 => p256::P256::invert_scalar(self),
            CurveType::Edwards25519 => ed25519::Ed25519::invert_scalar(self),
        };
        match r {
            Ok(s) => {
                proof {
                    lemma_group_order_large(self.curve_type);
                    lemma_mod_inverse_unique(group_order(self.curve_type), self.val(), s.val());
                }
                Ok(s)
            },
            Err(e) => Err(e),
        }
    }
}

/// A point of an elliptic curve group, carried in compressed encoding.
#[derive(Debug, Clone, PartialEq, Eq)]
pub struct Point {
    pub curve_type: CurveType,
    pub bytes: Vec<u8>,
}

impl Point {
    /// A point is well formed when its bytes decode on its curve.
    pub open spec fn wf(self) -> bool {
        point_ok(self.curve_type, self.bytes@)
    }

    /// Create a new point from compressed bytes; nothing is checked here.
    pub fn new(curve_type: CurveType, bytes: Vec<u8>) -> (r: Point)
        ensures
            r.curve_type == curve_type,
            r.bytes == bytes,
    {
        Point { curve_type, bytes }
    }

    /// The compressed encoding of the point.  Fails if the stored bytes do
    /// not decode on the point's curve.
    pub fn to_compressed_bytes(&self) -> (r: Result<Vec<u8>>)
        ensures
            self.wf() ==> (r matches Ok(v) && v@ == self.bytes@),
            !self.wf() ==> (r matches Err(e) && e is CurveError),
    {
        let ok = match self.curve_type {
            CurveType::Secp256k1 => secp256k1::Secp256k1::check_point(self.bytes.as_slice()),
            CurveType::P256 => p256::P256::check_point(self.bytes.as_slice()),
            CurveType::Edwards25519 => ed25519::Ed25519::check_point(self.bytes.as_slice()),
        };
        if ok {
            Ok(self.bytes.clone())
        } else {
            Err(Error::CurveError("invalid point".to_owned()))
        }
    }

    /// Decode a compressed point.  Fails exactly when the bytes do not decode
    /// on the chosen curve.
    pub fn from_compressed_bytes(curve_type: CurveType, bytes: &[u8]) -> (r: Result<Point>)
        ensures
            point_ok(curve_type, bytes@) ==> (r matches Ok(p) && p.curve_type == curve_type
                && p.bytes@ == bytes@ && p.wf()),
            !point_ok(curve_type, bytes@) ==> (r matches Err(e) && e is CurveError),
    {
        let ok = match curve_type {
            CurveType::Secp256k1 => secp256k1::Secp256k1::check_point(bytes),
            CurveType::P256 => p256::P256::check_point(bytes),
            CurveType::Edwards25519 => ed25519::Ed25519::check_point(bytes),
        };
        if ok {
            Ok(Point { curve_type, bytes: crate::curve::bytes_to_vec(bytes) })
        } else {
            Err(Error::CurveError("invalid compressed point".to_owned()))
        }
    }

    /// Add two points of the same curve.  Fails on a curve mismatch or when
    /// either encoding does not decode.
    pub fn add(&self, other: &Point) -> (r: Result<Point>)
        ensures
            ({
                let good = self.curve_type == other.curve_type && self.wf() && other.wf();
                &&& good ==> (r matches Ok(p) && p.curve_type == self.curve_type && p.wf()
                    && p.bytes@ == point_add_val(self.curve_type, self.bytes@, other.bytes@))
                &&& !good ==> (r matches Err(e) && e is CurveError)
            }),
    {
        if self.curve_type != other.curve_type {
            return Err(Error::CurveError("cannot add points from different curves".to_owned()));
        }
        match self.curve_type {
            CurveType::Secp256k1 => secp256k1::Secp256k1::add_points(self, other),
            CurveType::P256 => p256::P256::add_points(self, other),
            CurveType::Edwards25519 => ed25519::Ed25519::add_points(self, other),
        }
    }

    /// Multiply a point by a scalar of the same curve.  Fails on a curve
    /// mismatch, a scalar that is not 32 bytes, or an encoding that does not
    /// decode.
    pub fn mul(&self, scalar: &Scalar) -> (r: Result<Point>)
        ensures
            ({
                let good = self.curve_type == scalar.curve_type && scalar.value@.len() == 32
                    && self.wf();
                &&& good ==> (r matches Ok(p) && p.curve_type == self.curve_type && p.wf()
                    && p.bytes@ == point_mul_val(self.curve_type, self.bytes@, scalar.value@))
                &&& !good ==> (r matches Err(e) && e is CurveError)
            }),
    {
        if self.curve_type != scalar.curve_type {
            return Err(Error::CurveError(
                "cannot multiply point by scalar from different curve".to_owned(),
            ));
        }
        if scalar.value.len() != 32 {
            return Err(Error::CurveError("invalid scalar length".to_owned()));
        }
        match self.curve_type {
            CurveType::Secp256k1 => secp256k1::Secp256k1::mul_point_scalar(self, scalar),
            CurveType::P256 => p256::P256::mul_point_scalar(self, scalar),
            CurveType::Edwards25519 => ed25519::Ed25519::mul_point_scalar(self, scalar),
        }
    }
}

/// Reduce 32 big-endian bytes into a canonical scalar of curve `c`.
pub(crate) fn reduce32(c: CurveType, bytes: &[u8]) -> (r: Scalar)
    requires
        bytes@.len() == 32,
    ensures
        r.curve_type == c,
        r.wf(),
        r.val() == be_val(bytes@) % group_order(c),
{
    proof {
        lemma_mod_division_less_than_divisor(be_val(bytes@) as int, group_order(c) as int);
    }
    match c {
        CurveType::Secp256k1 => secp256k1::Secp256k1::reduce_scalar(bytes),
        CurveType::P256 => p256::P256::reduce_scalar(bytes),
        CurveType::Edwards25519 => ed25519::Ed25519::reduce_scalar(bytes),
    }
}

/// The canonical scalar of curve `c` denoting `v`.
pub(crate) fn scalar_of_u64(c: CurveType, v: u64) -> (r: Scalar)
    ensures
        r.curve_type == c,
        r.wf(),
        r.val() == v,
{
    let b = crate::model::u64_to_be32(v);
    proof {
        lemma_group_order_large(c);
        vstd::arithmetic::div_mod::lemma_small_mod(v as nat, group_order(c));
    }
    reduce32(c, b.as_slice())
}

/// A fresh uniformly random canonical scalar of curve `c`.
pub(crate) fn sample_scalar_ct(c: CurveType) -> (r: Scalar)
    ensures
        r.curve_type == c,
        r.wf(),
{
    match c {
        CurveType::Secp256k1 => secp256k1::Secp256k1::sample_scalar(),
        CurveType::P256 => p256::P256::sample_scalar(),
        CurveType::Edwards25519 => ed25519::Ed25519::sample_scalar(),
    }
}

/// The canonical generator of curve `c`.
pub(crate) fn generator_ct(c: CurveType) -> (r: Point)
    ensures
        r.curve_type == c,
        r.wf(),
        r.bytes@ == generator_bytes(c),
{
    match c {
        CurveType::Secp256k1 => secp256k1::Secp256k1::generator_point(),
        CurveType::P256 => p256::P256::generator_point(),
        CurveType::Edwards25519 => ed25519::Ed25519::generator_point(),
    }
}

/// The scalar `q - 1`, the standard order constants minus one.
pub(crate) fn order_minus_one_ct(c: CurveType) -> (r: Scalar)
    ensures
        r.curve_type == c,
        r.wf(),
        r.val() == group_order(c) - 1,
{
    match c {
        CurveType::Secp256k1 => {
            let v = vec![0xffu8, 0xff, 0xff, 0xff, 0xff, 0xff, 0xff, 0xff, 0xff, 0xff, 0xff, 0xff, 0xff, 0xff, 0xff, 0xfe, 0xba, 0xae, 0xdc, 0xe6, 0xaf, 0x48, 0xa0, 0x3b, 0xbf, 0xd2, 0x5e, 0x8c, 0xd0, 0x36, 0x41, 0x40];
            proof {
                assert(be_val(v@) == group_order(c) - 1) by {
                    reveal_with_fuel(be_val, 33);
                }
            }
            Scalar { curve_type: c, value: v }
        },
        CurveType::P256 => {
            let v = vec![0xffu8, 0xff, 0xff, 0xff, 0x00, 0x00, 0x00, 0x00, 0xff, 0xff, 0xff, 0xff, 0xff, 0xff, 0xff, 0xff, 0xbc, 0xe6, 0xfa, 0xad, 0xa7, 0x17, 0x9e, 0x84, 0xf3, 0xb9, 0xca, 0xc2, 0xfc, 0x63, 0x25, 0x50];
            proof {
                assert(be_val(v@) == group_order(c) - 1) by {
                    reveal_with_fuel(be_val, 33);
                }
            }
            Scalar { curve_type: c, value: v }
        },
        CurveType::Edwards25519 => {
            let v = vec![0x10u8, 0x00, 0x00, 0x00, 0x00, 0x00, 0x00, 0x00, 0x00, 0x00, 0x00, 0x00, 0x00, 0x00, 0x00, 0x00, 0x14, 0xde, 0xf9, 0xde, 0xa2, 0xf7, 0x9c, 0xd6, 0x58, 0x12, 0x63, 0x1a, 0x5c, 0xf5, 0xd3, 0xec];
            proof {
                assert(be_val(v@) == group_order(c) - 1) by {
                    reveal_with_fuel(be_val, 33);
                }
            }
            Scalar { curve_type: c, value: v }
        },
    }
}

/// Uniform interface over the three supported curves.
pub trait Curve {
    /// The curve this implementation serves.
    spec fn ct(&self) -> CurveType;

    /// The curve's tag.
    fn curve_type(&self) -> (r: CurveType)
        ensures
            r == self.ct(),
    ;

    /// A fresh uniformly random scalar.
    fn random_scalar(&self) -> (r: Result<Scalar>)
        ensures
            r matches Ok(s) ==> s.curve_type == self.ct() && s.wf(),
            r is Ok,
    ;

    /// Reduce 32 big-endian bytes into a scalar; any other length is
    /// rejected.
    fn scalar_from_bytes(&self, bytes: &[u8]) -> (r: Result<Scalar>)
        ensures
            bytes@.len() == 32 ==> (r matches Ok(s) && s.curve_type == self.ct() && s.wf()
                && s.val() == be_val(bytes@) % group_order(self.ct())),
            bytes@.len() != 32 ==> (r matches Err(e) && e is CurveError),
    ;

    /// The scalar denoting `value`.
    fn scalar_from_u64(&self, value: u64) -> (r: Result<Scalar>)
        ensures
            r matches Ok(s) && s.curve_type == self.ct() && s.wf() && s.val() == value,
    ;

    /// The canonical generator.
    fn generator(&self) -> (r: Point)
        ensures
            r.curve_type == self.ct(),
            r.bytes@ == generator_bytes(self.ct()),
            r.wf(),
    ;

    /// Decode a compressed point of this curve.
    fn point_from_bytes(&self, bytes: &[u8]) -> (r: Result<Point>)
        ensures
            point_ok(self.ct(), bytes@) ==> (r matches Ok(p) && p.curve_type == self.ct()
                && p.bytes@ == bytes@ && p.wf()),
            !point_ok(self.ct(), bytes@) ==> (r matches Err(e) && e is CurveError),
    ;

    /// The group order as a 32-byte big-endian scalar string.
    fn order(&self) -> (r: Scalar)
        ensures
            r.curve_type == self.ct(),
            r.value@.len() == 32,
            be_val(r.value@) == group_order(self.ct()),
    ;

    /// The field modulus as a 32-byte big-endian string.
    fn field_modulus(&self) -> (r: Scalar)
        ensures
            r.curve_type == self.ct(),
            r.value@.len() == 32,
            be_val(r.value@) == field_modulus_val(self.ct()),
    ;
}

/// Create a curve instance by tag.
pub fn create_curve(curve_type: CurveType) -> Box<dyn Curve> {
    match curve_type {
        CurveType::Secp256k1 => Box::new(secp256k1::Secp256k1::new()),
        CurveType::P256 => Box::new(p256::P256::new()),
        CurveType::Edwards25519 => Box::new(ed25519::Ed25519::new()),
    }
}

/// Copies a byte slice into a fresh vector.
pub fn bytes_to_vec(b: &[u8]) -> (r: Vec<u8>)
    ensures
        r@ == b@,
{
    let mut out: Vec<u8> = Vec::new();
    let mut i: usize = 0;
    while i < b.len()
        invariant
            i <= b@.len(),
            out@ =~= b@.take(i as int),
        decreases b@.len() - i,
    {
        out.push(b[i]);
        i += 1;
    }
    proof {
        assert(out@ =~= b@);
    }
    out
}

} // verus!
