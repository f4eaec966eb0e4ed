//! Cryptographic errors.
//!
//! Each kind of failure has a variant of its own, so that a caller can tell a
//! file that could not be read, which may be worth another try, from data
//! that is malformed, which is not.

use base64::DecodeError;
use ed25519_dalek::SignatureError;
use hex::FromHexError;
use pem::PemError;
use vstd::prelude::*;
use vstd::std_specs::convert::FromSpecImpl;
use vstd::string::to_string_from_display_ensures;

verus! {

/// base64's `DecodeError`. Nothing is read from it here: it is carried as it
/// came.
#[verifier::external_type_specification]
#[verifier::external_body]
pub struct ExDecodeError(DecodeError);

/// ed25519-dalek's `SignatureError`. Nothing is read from it here but its text,
/// through `to_string`.
#[verifier::external_type_specification]
#[verifier::external_body]
pub struct ExSignatureError(SignatureError);

/// hex's `FromHexError`. Nothing is read from it here: it is carried as it
/// came.
#[verifier::external_type_specification]
#[verifier::external_body]
pub struct ExFromHexError(FromHexError);

/// pem's `PemError`. Nothing is read from it here but its text, through
/// `to_string`.
#[verifier::external_type_specification]
#[verifier::external_body]
pub struct ExPemError(PemError);

/// A file that could not be read.
#[derive(Debug, Clone, PartialEq, Eq)]
pub struct ReadFileError {
    /// The path of the file.
    pub path: String,
    /// Why it could not be read.
    pub reason: String,
}

/// Cryptographic errors.
#[derive(Debug)]
pub enum Error {
    /// An asymmetric key could not be made or used; the text says why.
    AsymmetricKey(String),
    /// A hex-encoded value could not be decoded.
    FromHex(FromHexError),
    /// A private key could not be read from its file.
    PrivateKeyLoad(ReadFileError),
    /// A base64-encoded value could not be decoded.
    FromBase64(DecodeError),
    /// A PEM document could not be parsed; the text says why.
    FromPem(String),
}

impl From<FromHexError> for Error {
    fn from(error: FromHexError) -> (converted: Self) {
        Error::FromHex(error)
    }
}

impl FromSpecImpl<FromHexError> for Error {
    open spec fn obeys_from_spec() -> bool {
        true
    }

    open spec fn from_spec(error: FromHexError) -> Self {
        Error::FromHex(error)
    }
}

impl From<DecodeError> for Error {
    fn from(error: DecodeError) -> (converted: Self) {
        Error::FromBase64(error)
    }
}

impl FromSpecImpl<DecodeError> for Error {
    open spec fn obeys_from_spec() -> bool {
        true
    }

    open spec fn from_spec(error: DecodeError) -> Self {
        Error::FromBase64(error)
    }
}

impl From<SignatureError> for Error {
    /// A signature error becomes an asymmetric-key error that carries the
    /// signature error's own text.
    fn from(signature_error: SignatureError) -> (converted: Self)
        ensures
            converted matches Error::AsymmetricKey(text) && to_string_from_display_ensures::<
                SignatureError,
            >(&signature_error, text),
    {
        Error::AsymmetricKey(signature_error.to_string())
    }
}

impl FromSpecImpl<SignatureError> for Error {
    /// The text of a signature error is whatever its `Display` writes, so the
    /// result is stated by `from` itself and not as a function of the error.
    open spec fn obeys_from_spec() -> bool {
        false
    }

    open spec fn from_spec(signature_error: SignatureError) -> Self {
        arbitrary()
    }
}

impl From<PemError> for Error {
    /// A PEM error becomes the error's own text.
    fn from(error: PemError) -> (converted: Self)
        ensures
            converted matches Error::FromPem(text) && to_string_from_display_ensures::<PemError>(
                &error,
                text,
            ),
    {
        Error::FromPem(error.to_string())
    }
}

impl FromSpecImpl<PemError> for Error {
    /// The text of a PEM error is whatever its `Display` writes, so the result
    /// is stated by `from` itself and not as a function of the error.
    open spec fn obeys_from_spec() -> bool {
        false
    }

    open spec fn from_spec(error: PemError) -> Self {
        arbitrary()
    }
}

} // verus!
