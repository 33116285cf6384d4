//! The mathematical model of an identity record and of its canonical
//! binary format.
//!
//! A record is modelled as four byte sequences. The canonical format
//! writes the four fields in a fixed order — address, consensus key,
//! network signing key, network identity key — each as a nested structure:
//! a four-byte little-endian length prefix followed by the field's raw
//! bytes. `canonical_decode_spec` is the exact mathematical description of
//! the decoder: the executable codec's contracts are stated against these
//! functions, and the round-trip and rejection laws are proved of them.

use vstd::prelude::*;
use crate::errors::ValidatorKeysError;
use crate::account_address::ADDRESS_LENGTH;
use crate::keys::ED25519_PUBLIC_KEY_LENGTH;
use crate::keys::X25519_PUBLIC_KEY_LENGTH;

verus! {

/// The abstract content of an identity record: the raw bytes of its four
/// fields, in the fixed wire order.
#[verifier::ext_equal]
pub ghost struct RecordFields {
    pub account_address: Seq<u8>,
    pub consensus_public_key: Seq<u8>,
    pub network_signing_public_key: Seq<u8>,
    pub network_identity_public_key: Seq<u8>,
}

/// Whether four field byte strings have the lengths their types mandate.
/// Every constructed record satisfies this.
pub open spec fn valid_record(m: RecordFields) -> bool {
    &&& m.account_address.len() == ADDRESS_LENGTH
    &&& m.consensus_public_key.len() == ED25519_PUBLIC_KEY_LENGTH
    &&& m.network_signing_public_key.len() == ED25519_PUBLIC_KEY_LENGTH
    &&& m.network_identity_public_key.len() == X25519_PUBLIC_KEY_LENGTH
}

/// The four-byte little-endian encoding of a length.
pub open spec fn le_bytes_of_u32(n: nat) -> Seq<u8>
    recommends
        n < 0x1_0000_0000,
{
    seq![
        (n % 256) as u8,
        ((n / 256) % 256) as u8,
        ((n / 65536) % 256) as u8,
        ((n / 16777216) % 256) as u8,
    ]
}

/// The length read back from four little-endian bytes at `pos`.
pub open spec fn le_u32_at(bytes: Seq<u8>, pos: int) -> nat
    recommends
        0 <= pos,
        pos + 4 <= bytes.len(),
{
    bytes[pos] as nat + 256 * (bytes[pos + 1] as nat) + 65536 * (bytes[pos + 2] as nat)
        + 16777216 * (bytes[pos + 3] as nat)
}

/// One nested structure of the canonical format: a little-endian length
/// prefix followed by the payload bytes.
pub open spec fn length_prefixed(payload: Seq<u8>) -> Seq<u8>
    recommends
        payload.len() < 0x1_0000_0000,
{
    le_bytes_of_u32(payload.len()) + payload
}

/// The canonical binary encoding of a record: its four fields in the
/// fixed wire order, each as a length-prefixed nested structure, with no
/// tags, padding or version byte.
pub open spec fn canonical_encoding(m: RecordFields) -> Seq<u8> {
    length_prefixed(m.account_address) + length_prefixed(m.consensus_public_key)
        + length_prefixed(m.network_signing_public_key) + length_prefixed(
        m.network_identity_public_key,
    )
}

/// Whether reading one nested structure at `pos` runs off the end of the
/// input: either the length prefix itself or the payload it promises is
/// not fully present.
pub open spec fn step_truncated(bytes: Seq<u8>, pos: int) -> bool {
    bytes.len() < pos + 4 || bytes.len() < pos + 4 + le_u32_at(bytes, pos)
}

/// The payload length the nested structure at `pos` promises.
pub open spec fn step_len(bytes: Seq<u8>, pos: int) -> nat {
    le_u32_at(bytes, pos)
}

/// The payload bytes of the nested structure at `pos`.
pub open spec fn step_payload(bytes: Seq<u8>, pos: int) -> Seq<u8> {
    bytes.subrange(pos + 4, pos + 4 + le_u32_at(bytes, pos) as int)
}

/// The position just past the nested structure at `pos`.
pub open spec fn step_next(bytes: Seq<u8>, pos: int) -> int {
    pos + 4 + le_u32_at(bytes, pos)
}

/// The exact behaviour of the canonical decoder on any input: four nested
/// structures are read in the fixed field order, each field's length is
/// validated against its type, and the input must be consumed exactly.
/// The first failure, in reading order, decides the error.
pub open spec fn canonical_decode_spec(bytes: Seq<u8>) -> Result<RecordFields, ValidatorKeysError> {
    if step_truncated(bytes, 0) {
        Err(ValidatorKeysError::Truncated)
    } else if step_len(bytes, 0) != ADDRESS_LENGTH {
        Err(ValidatorKeysError::MalformedAddress)
    } else {
        let p1 = step_next(bytes, 0);
        if step_truncated(bytes, p1) {
            Err(ValidatorKeysError::Truncated)
        } else if step_len(bytes, p1) != ED25519_PUBLIC_KEY_LENGTH {
            Err(ValidatorKeysError::MalformedConsensusKey)
        } else {
            let p2 = step_next(bytes, p1);
            if step_truncated(bytes, p2) {
                Err(ValidatorKeysError::Truncated)
            } else if step_len(bytes, p2) != ED25519_PUBLIC_KEY_LENGTH {
                Err(ValidatorKeysError::MalformedNetworkSigningKey)
            } else {
                let p3 = step_next(bytes, p2);
                if step_truncated(bytes, p3) {
                    Err(ValidatorKeysError::Truncated)
                } else if step_len(bytes, p3) != X25519_PUBLIC_KEY_LENGTH {
                    Err(ValidatorKeysError::MalformedNetworkIdentityKey)
                } else if step_next(bytes, p3) != bytes.len() {
                    Err(ValidatorKeysError::TrailingBytes)
                } else {
                    Ok(
                        RecordFields {
                            account_address: step_payload(bytes, 0),
                            consensus_public_key: step_payload(bytes, p1),
                            network_signing_public_key: step_payload(bytes, p2),
                            network_identity_public_key: step_payload(bytes, p3),
                        },
                    )
                }
            }
        }
    }
}

/// The exact behaviour of the interchange decoder on any four byte
/// arrays: each field is reconstructed through its own type, in the fixed
/// field order, and the first field that fails its length check names the
/// error. No partial record is ever described.
pub open spec fn interchange_decode_spec(m: RecordFields) -> Result<
    RecordFields,
    ValidatorKeysError,
> {
    if m.account_address.len() != ADDRESS_LENGTH {
        Err(ValidatorKeysError::MalformedAddress)
    } else if m.consensus_public_key.len() != ED25519_PUBLIC_KEY_LENGTH {
        Err(ValidatorKeysError::MalformedConsensusKey)
    } else if m.network_signing_public_key.len() != ED25519_PUBLIC_KEY_LENGTH {
        Err(ValidatorKeysError::MalformedNetworkSigningKey)
    } else if m.network_identity_public_key.len() != X25519_PUBLIC_KEY_LENGTH {
        Err(ValidatorKeysError::MalformedNetworkIdentityKey)
    } else {
        Ok(m)
    }
}

} // verus!
