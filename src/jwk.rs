//! The parts of a JSON Web Key that the key codec reads and writes.
//!
//! Byte fields hold the decoded bytes of the base64url members.

use vstd::prelude::*;

verus! {

/// A JOSE signing algorithm identifier (`alg`).
#[derive(Clone, Copy, Debug, PartialEq, Eq, Structural)]
pub enum Signing {
    EdDsa,
    Es256,
    Es256K,
    Es384,
    Es512,
    Hs256,
    Hs384,
    Hs512,
    Ps256,
    Ps384,
    Ps512,
    Rs256,
    Rs384,
    Rs512,
    Null,
}

/// A JOSE algorithm.
#[derive(Clone, Copy, Debug, PartialEq, Eq, Structural)]
pub enum Algorithm {
    Signing(Signing),
}

/// The curves that an `EC` key may name (`crv`).
#[derive(Clone, Copy, Debug, PartialEq, Eq, Structural)]
pub enum EcCurves {
    P256,
    P384,
    P521,
    P256K,
}

/// An elliptic-curve key: affine coordinates and, for a private key, the scalar.
#[derive(Clone, Debug, PartialEq, Eq)]
pub struct Ec {
    pub crv: EcCurves,
    pub x: Vec<u8>,
    pub y: Vec<u8>,
    pub d: Option<Vec<u8>>,
}

/// The key material of a JWK, by key type (`kty`). Only `EC` keys carry
/// fields that the codec reads.
#[derive(Clone, Debug, PartialEq, Eq)]
pub enum Key {
    Ec(Ec),
    Rsa,
    Oct,
    Okp,
}

/// The key parameters of a JWK that the codec reads and writes.
#[derive(Clone, Copy, Debug, PartialEq, Eq, Structural)]
pub struct Parameters {
    pub alg: Option<Algorithm>,
}

/// A JSON Web Key.
#[derive(Clone, Debug, PartialEq, Eq)]
pub struct Jwk {
    pub key: Key,
    pub prm: Parameters,
}

/// The `alg` of every key this codec reads or writes.
pub open spec fn es256() -> Option<Algorithm> {
    Some(Algorithm::Signing(Signing::Es256))
}

impl Parameters {
    /// Parameters that declare the ES256 algorithm and nothing else.
    pub fn es256() -> (r: Parameters)
        ensures
            r.alg == es256(),
    {
        Parameters { alg: Some(Algorithm::Signing(Signing::Es256)) }
    }

    /// Whether these parameters declare ES256.
    pub fn is_es256(&self) -> (r: bool)
        ensures
            r == (self.alg == es256()),
    {
        match self.alg {
            Some(Algorithm::Signing(Signing::Es256)) => true,
            _ => false,
        }
    }
}

} // verus!
