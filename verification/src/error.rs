use vstd::prelude::*;

verus! {

/// The error taxonomy of the text cryptography subsystem.
///
/// Every fallible operation of the library reports exactly one of these
/// kinds; none of the verified functions panic.
#[derive(Clone, Copy, Debug, PartialEq, Eq, Structural)]
pub enum CryptoError {
    /// An input stream or file could not be read.
    IoError,
    /// The key material is shorter than the scheme requires.
    InvalidKeyLength,
    /// The key bytes do not decode to a valid key of the scheme.
    InvalidKeyEncoding,
    /// The signature is not exactly the scheme's fixed length.
    InvalidSignatureLength,
    /// The authentication tag of a ciphertext did not verify.
    AuthenticationError,
    /// Malformed base64 (or malformed UTF-8) at a transport boundary.
    EncodingError,
    /// The requested format tag is not one of the known schemes.
    InvalidFormat,
}

impl CryptoError {
    /// A human-readable description of the error kind.
    pub fn message(&self) -> (r: &'static str)
        ensures
            r@ == self.message_spec(),
    {
        match self {
            CryptoError::IoError => "could not read input",
            CryptoError::InvalidKeyLength => "key is shorter than the scheme requires",
            CryptoError::InvalidKeyEncoding => "key bytes do not form a valid key",
            CryptoError::InvalidSignatureLength => "signature does not have the scheme's length",
            CryptoError::AuthenticationError => "ciphertext authentication failed",
            CryptoError::EncodingError => "malformed base64 or UTF-8 input",
            CryptoError::InvalidFormat => "unknown format tag",
        }
    }

    pub open spec fn message_spec(&self) -> Seq<char> {
        match self {
            CryptoError::IoError => "could not read input"@,
            CryptoError::InvalidKeyLength => "key is shorter than the scheme requires"@,
            CryptoError::InvalidKeyEncoding => "key bytes do not form a valid key"@,
            CryptoError::InvalidSignatureLength => "signature does not have the scheme's length"@,
            CryptoError::AuthenticationError => "ciphertext authentication failed"@,
            CryptoError::EncodingError => "malformed base64 or UTF-8 input"@,
            CryptoError::InvalidFormat => "unknown format tag"@,
        }
    }
}

} // verus!
