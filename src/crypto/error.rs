use vstd::prelude::*;

verus! {

/// Why a JWK was not accepted as an ES256 key.
#[derive(Clone, Copy, Debug, PartialEq, Eq, Structural)]
pub enum ParseError {
    UnsupportedCurve,
    MissingField,
    InvalidKeyParameters,
    UnsupportedAlgorithm,
}

/// Why a key could not be written as a JWK.
#[derive(Clone, Copy, Debug, PartialEq, Eq, Structural)]
pub enum ComposeError {
    KeyConversionFailed,
}

impl ParseError {
    /// A short description of the error.
    pub fn message(&self) -> (r: &'static str) {
        match self {
            ParseError::UnsupportedCurve => "unsupported curve",
            ParseError::MissingField => "missing required field",
            ParseError::InvalidKeyParameters => "invalid key parameters",
            ParseError::UnsupportedAlgorithm => "unsupported algorithm",
        }
    }
}

impl ComposeError {
    /// A short description of the error.
    pub fn message(&self) -> (r: &'static str) {
        match self {
            ComposeError::KeyConversionFailed => "key conversion failed",
        }
    }
}

} // verus!
