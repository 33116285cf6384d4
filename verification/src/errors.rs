//! Error taxonomy for the two fallible decoders: one variant per record
//! field that can fail its own reconstruction, plus the two byte-level
//! failures of the canonical decoder (truncated input, trailing bytes).

use vstd::prelude::*;

verus! {

/// The ways an identity record can fail to decode.
///
/// Every fallible operation of this crate reports exactly one of these,
/// naming the field or the byte-level layer that failed; no partial record
/// is ever produced alongside an error.
#[derive(Clone, Copy, Debug, PartialEq, Eq, Structural)]
pub enum ValidatorKeysError {
    /// The account-address field did not reconstruct (wrong length).
    MalformedAddress,
    /// The consensus public-key field did not reconstruct.
    MalformedConsensusKey,
    /// The network signing public-key field did not reconstruct.
    MalformedNetworkSigningKey,
    /// The network identity public-key field did not reconstruct.
    MalformedNetworkIdentityKey,
    /// The canonical input ended before all four fields were read.
    Truncated,
    /// Bytes remained after the fourth field of a canonical encoding.
    TrailingBytes,
}

impl ValidatorKeysError {
    /// The diagnostic text `message` returns for each variant.
    pub open spec fn message_spec(self) -> Seq<char> {
        match self {
            ValidatorKeysError::MalformedAddress => "malformed account address"@,
            ValidatorKeysError::MalformedConsensusKey => "malformed consensus public key"@,
            ValidatorKeysError::MalformedNetworkSigningKey => "malformed network signing public key"@,
            ValidatorKeysError::MalformedNetworkIdentityKey => "malformed network identity public key"@,
            ValidatorKeysError::Truncated => "canonical input truncated"@,
            ValidatorKeysError::TrailingBytes => "trailing bytes after canonical record"@,
        }
    }

    /// A short description naming the field or layer that failed.
    pub fn message(&self) -> (s: &'static str)
        ensures
            s@ == self.message_spec(),
    {
        match self {
            ValidatorKeysError::MalformedAddress => "malformed account address",
            ValidatorKeysError::MalformedConsensusKey => "malformed consensus public key",
            ValidatorKeysError::MalformedNetworkSigningKey => "malformed network signing public key",
            ValidatorKeysError::MalformedNetworkIdentityKey => "malformed network identity public key",
            ValidatorKeysError::Truncated => "canonical input truncated",
            ValidatorKeysError::TrailingBytes => "trailing bytes after canonical record",
        }
    }
}

} // verus!
