//! ES256 keys and their JSON Web Key form.
//!
//! A signing key is held as its private scalar (32 big-endian bytes) together
//! with the SEC1 uncompressed encoding of its public point; a verifying key as
//! that encoding alone. The curve arithmetic is p256's.

use vstd::prelude::*;

use crate::jwk::{es256, Ec, EcCurves, Jwk, Key, Parameters};
use generic_array::GenericArray;
use p256::ecdsa::{SigningKey, VerifyingKey};
use p256::EncodedPoint;

pub mod error;

use error::{ComposeError, ParseError};

verus! {

/// The integer `hi * 2^128 + lo`.
pub open spec fn from_halves(hi: int, lo: int) -> int {
    hi * 0x1_0000_0000_0000_0000 * 0x1_0000_0000_0000_0000 + lo
}

/// The order of the P-256 group.
pub open spec fn p256_order() -> int {
    from_halves(0xffffffff00000000ffffffffffffffff, 0xbce6faada7179e84f3b9cac2fc632551)
}

/// The prime of the P-256 base field.
pub open spec fn p256_modulus() -> int {
    from_halves(0xffffffff000000010000000000000000, 0x00000000ffffffffffffffffffffffff)
}

/// The constant `b` of the P-256 curve equation `y^2 = x^3 - 3x + b`.
pub open spec fn p256_b() -> int {
    from_halves(0x5ac635d8aa3a93e7b3ebbd55769886bc, 0x651d06b0cc53b0f63bce3c3e27d2604b)
}

/// The value of a big-endian byte string.
pub open spec fn be_value(s: Seq<u8>) -> nat
    decreases s.len(),
{
    if s.len() == 0 {
        0
    } else {
        be_value(s.drop_last()) * 256 + s.last() as nat
    }
}

/// A private scalar as p256 accepts it: 32 bytes, nonzero, below the group order.
pub open spec fn valid_scalar(d: Seq<u8>) -> bool {
    d.len() == 32 && 0 < be_value(d) && be_value(d) < p256_order()
}

/// Affine coordinates of a point of P-256: each 32 bytes, a canonical field
/// element, and together a solution of the curve equation.
pub open spec fn valid_affine(x: Seq<u8>, y: Seq<u8>) -> bool {
    let p = p256_modulus();
    let xv = be_value(x) as int;
    let yv = be_value(y) as int;
    &&& x.len() == 32
    &&& y.len() == 32
    &&& xv < p
    &&& yv < p
    &&& (yv * yv) % p == (xv * xv * xv - 3 * xv + p256_b()) % p
}

/// The SEC1 uncompressed encoding of the point with these coordinates.
pub open spec fn sec1_uncompressed(x: Seq<u8>, y: Seq<u8>) -> Seq<u8> {
    seq![4u8] + x + y
}

/// The x coordinate held in a SEC1 uncompressed encoding.
pub open spec fn sec1_x(p: Seq<u8>) -> Seq<u8> {
    p.subrange(1, 33)
}

/// The y coordinate held in a SEC1 uncompressed encoding.
pub open spec fn sec1_y(p: Seq<u8>) -> Seq<u8> {
    p.subrange(33, 65)
}

/// An uncompressed SEC1 encoding of a point of P-256 other than the identity.
pub open spec fn valid_sec1(p: Seq<u8>) -> bool {
    p.len() == 65 && p[0] == 4 && valid_affine(sec1_x(p), sec1_y(p))
}

/// The SEC1 uncompressed encoding of the public point `d * G` of a scalar.
pub uninterp spec fn public_point_of(d: Seq<u8>) -> Seq<u8>;

/// Relies on p256's `SigningKey::random` with the operating system's random
/// source: the key's scalar is nonzero and below the group order, and
/// `SigningKey::to_bytes` writes it as 32 big-endian bytes.
#[verifier::external_body]
fn random_scalar() -> (r: Vec<u8>)
    ensures
        valid_scalar(r@),
{
    let key = SigningKey::random(&mut rand::rngs::OsRng);
    key.to_bytes().to_vec()
}

/// Relies on p256's `SigningKey::from_bytes`: it accepts exactly the scalars
/// that are nonzero and below the group order; and on
/// `VerifyingKey::to_encoded_point(false)`, which writes the public point,
/// never the identity, as `04 || x || y`.
#[verifier::external_body]
fn signing_key_point(d: &Vec<u8>) -> (r: Option<Vec<u8>>)
    requires
        d@.len() == 32,
    ensures
        r.is_some() == valid_scalar(d@),
        r matches Some(p) ==> p@ == public_point_of(d@) && valid_sec1(p@),
{
    match SigningKey::from_bytes(GenericArray::from_slice(d.as_slice())) {
        Ok(key) => Some(key.verifying_key().to_encoded_point(false).as_bytes().to_vec()),
        Err(_) => None,
    }
}

/// Relies on p256's `VerifyingKey::from_encoded_point` on the uncompressed
/// encoding that `EncodedPoint::from_affine_coordinates` builds: it accepts
/// exactly canonical coordinates that satisfy the curve equation.
#[verifier::external_body]
fn verifying_key_accepts(x: &Vec<u8>, y: &Vec<u8>) -> (r: bool)
    requires
        x@.len() == 32,
        y@.len() == 32,
    ensures
        r == valid_affine(x@, y@),
{
    let point = EncodedPoint::from_affine_coordinates(
        GenericArray::from_slice(x.as_slice()),
        GenericArray::from_slice(y.as_slice()),
        false,
    );
    VerifyingKey::from_encoded_point(&point).is_ok()
}

/// What parsing a JWK as an ES256 signing key yields: its private scalar, or
/// the first check that fails, in this order: algorithm, key type and curve,
/// presence of `d`, validity of `d`.
pub open spec fn parse_signing(k: Jwk) -> Result<Seq<u8>, ParseError> {
    if k.prm.alg != es256() {
        Err(ParseError::InvalidKeyParameters)
    } else {
        match k.key {
            Key::Ec(ec) => if ec.crv != EcCurves::P256 {
                Err(ParseError::UnsupportedCurve)
            } else {
                match ec.d {
                    None => Err(ParseError::MissingField),
                    Some(d) => if valid_scalar(d@) {
                        Ok(d@)
                    } else {
                        Err(ParseError::InvalidKeyParameters)
                    },
                }
            },
            _ => Err(ParseError::UnsupportedCurve),
        }
    }
}

/// What parsing a JWK as an ES256 verifying key yields: the SEC1 uncompressed
/// encoding of its point, or the first check that fails, in this order:
/// algorithm, key type and curve, validity of the point. `d` is not read.
pub open spec fn parse_verifying(k: Jwk) -> Result<Seq<u8>, ParseError> {
    if k.prm.alg != es256() {
        Err(ParseError::InvalidKeyParameters)
    } else {
        match k.key {
            Key::Ec(ec) => if ec.crv != EcCurves::P256 {
                Err(ParseError::UnsupportedCurve)
            } else if valid_affine(ec.x@, ec.y@) {
                Ok(sec1_uncompressed(ec.x@, ec.y@))
            } else {
                Err(ParseError::InvalidKeyParameters)
            },
            _ => Err(ParseError::UnsupportedCurve),
        }
    }
}

/// The JWK of a key of P-256 with the given point, declaring ES256; `d` holds
/// the scalar of a private key and is absent for a public one.
pub open spec fn is_jwk_of(k: Jwk, d: Option<Seq<u8>>, point: Seq<u8>) -> bool {
    &&& k.prm.alg == es256()
    &&& k.key matches Key::Ec(ec)
    &&& ec.crv == EcCurves::P256
    &&& ec.x@ == sec1_x(point)
    &&& ec.y@ == sec1_y(point)
    &&& match ec.d {
        None => d is None,
        Some(v) => d == Some(v@),
    }
}

/// The bytes `v[lo..hi]`.
fn copy_range(v: &Vec<u8>, lo: usize, hi: usize) -> (r: Vec<u8>)
    requires
        lo <= hi <= v@.len(),
    ensures
        r@ == v@.subrange(lo as int, hi as int),
{
    let mut r: Vec<u8> = Vec::new();
    let mut i: usize = lo;
    while i < hi
        invariant
            lo <= i <= hi <= v@.len(),
            r@ == v@.subrange(lo as int, i as int),
        decreases hi - i,
    {
        r.push(v[i]);
        i = i + 1;
    }
    r
}

/// The SEC1 uncompressed encoding `04 || x || y`.
fn encode_uncompressed(x: &Vec<u8>, y: &Vec<u8>) -> (r: Vec<u8>)
    ensures
        r@ == sec1_uncompressed(x@, y@),
{
    let mut r: Vec<u8> = Vec::new();
    r.push(4u8);
    let mut i: usize = 0;
    while i < x.len()
        invariant
            i <= x@.len(),
            r@ == seq![4u8] + x@.subrange(0, i as int),
        decreases x@.len() - i,
    {
        r.push(x[i]);
        i = i + 1;
    }
    assert(x@.subrange(0, x@.len() as int) == x@);
    let mut j: usize = 0;
    while j < y.len()
        invariant
            j <= y@.len(),
            r@ == seq![4u8] + x@ + y@.subrange(0, j as int),
        decreases y@.len() - j,
    {
        r.push(y[j]);
        j = j + 1;
    }
    assert(y@.subrange(0, y@.len() as int) == y@);
    r
}

/// The coordinates held in an uncompressed SEC1 encoding, or `None` where the
/// encoding is of another form.
fn sec1_coordinates(p: &Vec<u8>) -> (r: Option<(Vec<u8>, Vec<u8>)>)
    ensures
        r.is_some() == (p@.len() == 65 && p@[0] == 4),
        r matches Some(c) ==> c.0@ == sec1_x(p@) && c.1@ == sec1_y(p@),
{
    if p.len() == 65 && p[0] == 4 {
        Some((copy_range(p, 1, 33), copy_range(p, 33, 65)))
    } else {
        None
    }
}

/// An ES256 signing key: a private scalar of P-256 and its public point.
#[derive(Debug, PartialEq, Eq)]
pub struct ES256 {
    d: Vec<u8>,
    point: Vec<u8>,
}

impl View for ES256 {
    type V = Seq<u8>;

    /// The private scalar, 32 big-endian bytes.
    closed spec fn view(&self) -> Seq<u8> {
        self.d@
    }
}

impl ES256 {
    #[verifier::type_invariant]
    spec fn well_formed(self) -> bool {
        &&& valid_scalar(self.d@)
        &&& self.point@ == public_point_of(self.d@)
        &&& valid_sec1(self.point@)
    }

    /// A fresh key drawn from the operating system's random source.
    pub fn new() -> (r: ES256)
        ensures
            valid_scalar(r@),
    {
        let d = random_scalar();
        let point = signing_key_point(&d).unwrap();
        ES256 { d, point }
    }

    /// Parses a JWK that holds an ES256 private key.
    pub fn from_jwk(k: &Jwk) -> (r: Result<ES256, ParseError>)
        ensures
            match r {
                Ok(key) => parse_signing(*k) == Ok::<Seq<u8>, ParseError>(key@),
                Err(e) => parse_signing(*k) == Err::<Seq<u8>, ParseError>(e),
            },
    {
        if !k.prm.is_es256() {
            return Err(ParseError::InvalidKeyParameters);
        }
        let ec = match &k.key {
            Key::Ec(ec) => ec,
            _ => return Err(ParseError::UnsupportedCurve),
        };
        if ec.crv != EcCurves::P256 {
            return Err(ParseError::UnsupportedCurve);
        }
        let d = match &ec.d {
            Some(d) => d,
            None => return Err(ParseError::MissingField),
        };
        if d.len() != 32 {
            return Err(ParseError::InvalidKeyParameters);
        }
        match signing_key_point(d) {
            Some(point) => Ok(ES256 { d: d.clone(), point }),
            None => Err(ParseError::InvalidKeyParameters),
        }
    }
    /// Writes this key as a JWK holding `d`, `x` and `y`, declaring ES256 on P-256.
    pub fn to_jwk(&self) -> (r: Result<Jwk, ComposeError>)
        ensures
            r matches Ok(k) && is_jwk_of(k, Some(self@), public_point_of(self@)),
    {
        proof {
            use_type_invariant(self);
        }
        let (x, y) = match sec1_coordinates(&self.point) {
            Some(c) => c,
            None => return Err(ComposeError::KeyConversionFailed),
        };
        let ec = Ec { crv: EcCurves::P256, x, y, d: Some(self.d.clone()) };
        Ok(Jwk { key: Key::Ec(ec), prm: Parameters::es256() })
    }

    /// The verifying key of this signing key.
    pub fn pubkey(&self) -> (r: ES256Pub)
        ensures
            r@ == public_point_of(self@),
            valid_sec1(r@),
    {
        proof {
            use_type_invariant(self);
        }
        ES256Pub { point: self.point.clone() }
    }
}

/// An ES256 verifying key: a point of P-256 other than the identity.
#[derive(Debug, PartialEq, Eq)]
pub struct ES256Pub {
    point: Vec<u8>,
}

impl View for ES256Pub {
    type V = Seq<u8>;

    /// The SEC1 uncompressed encoding of the point, `04 || x || y`.
    closed spec fn view(&self) -> Seq<u8> {
        self.point@
    }
}

/// The coordinates of `04 || x || y` are `x` and `y`.
proof fn lemma_sec1_parts(x: Seq<u8>, y: Seq<u8>)
    requires
        x.len() == 32,
        y.len() == 32,
    ensures
        sec1_uncompressed(x, y).len() == 65,
        sec1_uncompressed(x, y)[0] == 4,
        sec1_x(sec1_uncompressed(x, y)) == x,
        sec1_y(sec1_uncompressed(x, y)) == y,
{
    assert(sec1_x(sec1_uncompressed(x, y)) =~= x);
    assert(sec1_y(sec1_uncompressed(x, y)) =~= y);
}

impl ES256Pub {
    #[verifier::type_invariant]
    spec fn well_formed(self) -> bool {
        valid_sec1(self.point@)
    }

    /// Parses a JWK that holds an ES256 public key; a `d` member is ignored.
    pub fn from_jwk(k: &Jwk) -> (r: Result<ES256Pub, ParseError>)
        ensures
            match r {
                Ok(key) => parse_verifying(*k) == Ok::<Seq<u8>, ParseError>(key@),
                Err(e) => parse_verifying(*k) == Err::<Seq<u8>, ParseError>(e),
            },
    {
        if !k.prm.is_es256() {
            return Err(ParseError::InvalidKeyParameters);
        }
        let ec = match &k.key {
            Key::Ec(ec) => ec,
            _ => return Err(ParseError::UnsupportedCurve),
        };
        if ec.crv != EcCurves::P256 {
            return Err(ParseError::UnsupportedCurve);
        }
        if ec.x.len() != 32 || ec.y.len() != 32 {
            return Err(ParseError::InvalidKeyParameters);
        }
        if !verifying_key_accepts(&ec.x, &ec.y) {
            return Err(ParseError::InvalidKeyParameters);
        }
        let point = encode_uncompressed(&ec.x, &ec.y);
        proof {
            lemma_sec1_parts(ec.x@, ec.y@);
        }
        Ok(ES256Pub { point })
    }

    /// Writes this key as a JWK holding `x` and `y`, declaring ES256 on P-256.
    pub fn to_jwk(&self) -> (r: Result<Jwk, ComposeError>)
        ensures
            r matches Ok(k) && is_jwk_of(k, None, self@),
    {
        proof {
            use_type_invariant(self);
        }
        let (x, y) = match sec1_coordinates(&self.point) {
            Some(c) => c,
            None => return Err(ComposeError::KeyConversionFailed),
        };
        let ec = Ec { crv: EcCurves::P256, x, y, d: None };
        Ok(Jwk { key: Key::Ec(ec), prm: Parameters::es256() })
    }
}

/// A signing key written as a JWK parses back to the same private scalar.
pub proof fn lemma_signing_round_trip(d: Seq<u8>, k: Jwk)
    requires
        valid_scalar(d),
        is_jwk_of(k, Some(d), public_point_of(d)),
    ensures
        parse_signing(k) == Ok::<Seq<u8>, ParseError>(d),
{
}

/// A verifying key written as a JWK parses back to the same point.
pub proof fn lemma_verifying_round_trip(p: Seq<u8>, k: Jwk)
    requires
        valid_sec1(p),
        is_jwk_of(k, None, p),
    ensures
        parse_verifying(k) == Ok::<Seq<u8>, ParseError>(p),
{
    assert(sec1_uncompressed(sec1_x(p), sec1_y(p)) =~= p);
}

/// A JWK that does not declare ES256 is refused by both parsers as invalid.
pub proof fn lemma_rejects_other_algorithm(k: Jwk)
    requires
        k.prm.alg != es256(),
    ensures
        parse_signing(k) == Err::<Seq<u8>, ParseError>(ParseError::InvalidKeyParameters),
        parse_verifying(k) == Err::<Seq<u8>, ParseError>(ParseError::InvalidKeyParameters),
{
}

/// A JWK that declares ES256 but is not an `EC` key on P-256 is refused by
/// both parsers as of an unsupported curve.
pub proof fn lemma_rejects_other_curve(k: Jwk)
    requires
        k.prm.alg == es256(),
        !(k.key matches Key::Ec(ec) && ec.crv == EcCurves::P256),
    ensures
        parse_signing(k) == Err::<Seq<u8>, ParseError>(ParseError::UnsupportedCurve),
        parse_verifying(k) == Err::<Seq<u8>, ParseError>(ParseError::UnsupportedCurve),
{
}

/// An ES256 JWK on P-256 without `d` is refused as a signing key for the
/// missing field, and accepted as a verifying key when its point is valid.
pub proof fn lemma_public_jwk_without_d(k: Jwk)
    requires
        k.prm.alg == es256(),
        k.key matches Key::Ec(ec) && ec.crv == EcCurves::P256 && ec.d is None
            && valid_affine(ec.x@, ec.y@),
    ensures
        parse_signing(k) == Err::<Seq<u8>, ParseError>(ParseError::MissingField),
        parse_verifying(k) is Ok,
{
}

} // verus!
