//! The identity record of one validator and its two codecs.
//!
//! After the transaction that fixes the validators of the next epoch,
//! consensus and networking each receive the new list of records: the
//! consensus key validates signed consensus messages, the network
//! signing key validates signed messages at the network layer, and the
//! network identity key establishes the holder's eligibility to join the
//! peer-to-peer network.

use vstd::prelude::*;
use vstd::string::StringExecFns;
use crate::account_address::ADDRESS_LENGTH;
use crate::account_address::AccountAddress;
use crate::account_address::SHORT_STR_BYTES;
use crate::canonical::FieldReadError;
use crate::canonical::append_length_prefixed;
use crate::canonical::read_field;
use crate::errors::ValidatorKeysError;
use crate::hex::hex_of;
use crate::keys::ED25519_PUBLIC_KEY_LENGTH;
use crate::keys::Ed25519PublicKey;
use crate::keys::X25519_PUBLIC_KEY_LENGTH;
use crate::keys::X25519StaticPublicKey;
use crate::model::RecordFields;
use crate::model::canonical_decode_spec;
use crate::model::canonical_encoding;
use crate::model::interchange_decode_spec;
use crate::model::valid_record;
use crate::util::copy_bytes;

verus! {

/// An immutable identity record for one validator: its account address
/// and its three public keys. All four fields are present in every
/// record; none is ever mutated after construction.
#[derive(Debug)]
pub struct ValidatorPublicKeys {
    account_address: AccountAddress,
    consensus_public_key: Ed25519PublicKey,
    network_signing_public_key: Ed25519PublicKey,
    network_identity_public_key: X25519StaticPublicKey,
}

impl View for ValidatorPublicKeys {
    type V = RecordFields;

    closed spec fn view(&self) -> RecordFields {
        RecordFields {
            account_address: self.account_address@,
            consensus_public_key: self.consensus_public_key@,
            network_signing_public_key: self.network_signing_public_key@,
            network_identity_public_key: self.network_identity_public_key@,
        }
    }
}

/// The interchange message: the external structured representation used
/// to move a record between processes. Each field carries the raw bytes
/// of the corresponding record field; nothing constrains them until
/// `from_interchange` validates each in turn.
#[derive(Debug)]
pub struct ValidatorPublicKeysMessage {
    pub account_address: Vec<u8>,
    pub consensus_public_key: Vec<u8>,
    pub network_signing_public_key: Vec<u8>,
    pub network_identity_public_key: Vec<u8>,
}

impl View for ValidatorPublicKeysMessage {
    type V = RecordFields;

    open spec fn view(&self) -> RecordFields {
        RecordFields {
            account_address: self.account_address@,
            consensus_public_key: self.consensus_public_key@,
            network_signing_public_key: self.network_signing_public_key@,
            network_identity_public_key: self.network_identity_public_key@,
        }
    }
}

impl ValidatorPublicKeys {
    /// Aggregates four already-validated components into a record. Pure
    /// aggregation: no further validation is performed and the call
    /// always succeeds.
    pub fn new(
        account_address: AccountAddress,
        consensus_public_key: Ed25519PublicKey,
        network_signing_public_key: Ed25519PublicKey,
        network_identity_public_key: X25519StaticPublicKey,
    ) -> (r: ValidatorPublicKeys)
        ensures
            r@ == (RecordFields {
                account_address: account_address@,
                consensus_public_key: consensus_public_key@,
                network_signing_public_key: network_signing_public_key@,
                network_identity_public_key: network_identity_public_key@,
            }),
    {
        ValidatorPublicKeys {
            account_address,
            consensus_public_key,
            network_signing_public_key,
            network_identity_public_key,
        }
    }

    /// The address identifying which participant this record describes.
    pub fn account_address(&self) -> (a: &AccountAddress)
        ensures
            a@ == self@.account_address,
    {
        &self.account_address
    }

    /// The key that validates signed consensus messages from this
    /// validator.
    pub fn consensus_public_key(&self) -> (k: &Ed25519PublicKey)
        ensures
            k@ == self@.consensus_public_key,
    {
        &self.consensus_public_key
    }

    /// The key that validates signed messages at the network layer.
    pub fn network_signing_public_key(&self) -> (k: &Ed25519PublicKey)
        ensures
            k@ == self@.network_signing_public_key,
    {
        &self.network_signing_public_key
    }

    /// The key that establishes this validator's identity in the
    /// peer-to-peer network.
    pub fn network_identity_public_key(&self) -> (k: &X25519StaticPublicKey)
        ensures
            k@ == self@.network_identity_public_key,
    {
        &self.network_identity_public_key
    }

    /// Encodes the record in the canonical binary format: the four
    /// fields in the fixed wire order, each as a length-prefixed nested
    /// structure. The output is a pure function of the record's bytes.
    pub fn encode_canonical(&self) -> (out: Vec<u8>)
        ensures
            out@ == canonical_encoding(self@),
            valid_record(self@),
    {
        let mut out: Vec<u8> = Vec::new();
        append_length_prefixed(&mut out, self.account_address.as_bytes());
        append_length_prefixed(&mut out, self.consensus_public_key.as_bytes());
        append_length_prefixed(&mut out, self.network_signing_public_key.as_bytes());
        append_length_prefixed(&mut out, self.network_identity_public_key.as_bytes());
        proof {
            assert(out@ =~= canonical_encoding(self@));
        }
        out
    }

    /// Decodes a record from the canonical binary format: reads exactly
    /// four nested structures in the fixed field order, validates each
    /// field's length through its own type, and rejects truncated input
    /// and trailing bytes. All-or-nothing: on any failure an error names
    /// the field or layer at fault and no record is produced. The exact
    /// behaviour on every input is `canonical_decode_spec`.
    pub fn decode_canonical(bytes: &[u8]) -> (r: Result<ValidatorPublicKeys, ValidatorKeysError>)
        ensures
            match r {
                Ok(rec) => canonical_decode_spec(bytes@) == Ok::<
                    RecordFields,
                    ValidatorKeysError,
                >(rec@),
                Err(e) => canonical_decode_spec(bytes@) == Err::<
                    RecordFields,
                    ValidatorKeysError,
                >(e),
            },
            r matches Ok(rec) ==> valid_record(rec@) && canonical_encoding(rec@) == bytes@,
    {
        let (addr_bytes, p1) = match read_field(bytes, 0, ADDRESS_LENGTH) {
            Ok(p) => p,
            Err(FieldReadError::Truncated) => {
                return Err(ValidatorKeysError::Truncated);
            },
            Err(FieldReadError::WrongLength) => {
                return Err(ValidatorKeysError::MalformedAddress);
            },
        };
        let (consensus_bytes, p2) = match read_field(bytes, p1, ED25519_PUBLIC_KEY_LENGTH) {
            Ok(p) => p,
            Err(FieldReadError::Truncated) => {
                return Err(ValidatorKeysError::Truncated);
            },
            Err(FieldReadError::WrongLength) => {
                return Err(ValidatorKeysError::MalformedConsensusKey);
            },
        };
        let (signing_bytes, p3) = match read_field(bytes, p2, ED25519_PUBLIC_KEY_LENGTH) {
            Ok(p) => p,
            Err(FieldReadError::Truncated) => {
                return Err(ValidatorKeysError::Truncated);
            },
            Err(FieldReadError::WrongLength) => {
                return Err(ValidatorKeysError::MalformedNetworkSigningKey);
            },
        };
        let (identity_bytes, p4) = match read_field(bytes, p3, X25519_PUBLIC_KEY_LENGTH) {
            Ok(p) => p,
            Err(FieldReadError::Truncated) => {
                return Err(ValidatorKeysError::Truncated);
            },
            Err(FieldReadError::WrongLength) => {
                return Err(ValidatorKeysError::MalformedNetworkIdentityKey);
            },
        };
        if p4 != bytes.len() {
            return Err(ValidatorKeysError::TrailingBytes);
        }
        let account_address = match AccountAddress::from_bytes(addr_bytes) {
            Some(a) => a,
            None => {
                return Err(ValidatorKeysError::MalformedAddress);
            },
        };
        let consensus_public_key = match Ed25519PublicKey::from_bytes(consensus_bytes) {
            Some(k) => k,
            None => {
                return Err(ValidatorKeysError::MalformedConsensusKey);
            },
        };
        let network_signing_public_key = match Ed25519PublicKey::from_bytes(signing_bytes) {
            Some(k) => k,
            None => {
                return Err(ValidatorKeysError::MalformedNetworkSigningKey);
            },
        };
        let network_identity_public_key = match X25519StaticPublicKey::from_bytes(identity_bytes) {
            Some(k) => k,
            None => {
                return Err(ValidatorKeysError::MalformedNetworkIdentityKey);
            },
        };
        let rec = ValidatorPublicKeys::new(
            account_address,
            consensus_public_key,
            network_signing_public_key,
            network_identity_public_key,
        );
        proof {
            assert(canonical_decode_spec(bytes@) == Ok::<RecordFields, ValidatorKeysError>(rec@))
                by {
                assert(rec@ =~= canonical_decode_spec(bytes@)->Ok_0);
            }
            crate::laws::lemma_decode_sound(bytes@);
        }
        Ok(rec)
    }

    /// Projects the record into the interchange message by copying each
    /// field's raw bytes. Total: it always succeeds, because it only
    /// copies already-valid in-memory data.
    pub fn to_interchange(&self) -> (msg: ValidatorPublicKeysMessage)
        ensures
            msg@ == self@,
            valid_record(self@),
    {
        let msg = ValidatorPublicKeysMessage {
            account_address: self.account_address.to_bytes(),
            consensus_public_key: self.consensus_public_key.to_bytes(),
            network_signing_public_key: self.network_signing_public_key.to_bytes(),
            network_identity_public_key: self.network_identity_public_key.to_bytes(),
        };
        proof {
            assert(msg@ =~= self@);
        }
        msg
    }

    /// Reconstructs a record from an interchange message, validating
    /// each of the four byte arrays through its own type, in the fixed
    /// field order. Partial: the first field that fails its
    /// reconstruction names the error, and no partial record is ever
    /// produced. The exact behaviour on every input is
    /// `interchange_decode_spec`.
    pub fn from_interchange(msg: &ValidatorPublicKeysMessage) -> (r: Result<
        ValidatorPublicKeys,
        ValidatorKeysError,
    >)
        ensures
            match r {
                Ok(rec) => interchange_decode_spec(msg@) == Ok::<
                    RecordFields,
                    ValidatorKeysError,
                >(rec@),
                Err(e) => interchange_decode_spec(msg@) == Err::<
                    RecordFields,
                    ValidatorKeysError,
                >(e),
            },
    {
        let account_address = match AccountAddress::from_bytes(
            copy_bytes(msg.account_address.as_slice()),
        ) {
            Some(a) => a,
            None => {
                return Err(ValidatorKeysError::MalformedAddress);
            },
        };
        let consensus_public_key = match Ed25519PublicKey::from_bytes(
            copy_bytes(msg.consensus_public_key.as_slice()),
        ) {
            Some(k) => k,
            None => {
                return Err(ValidatorKeysError::MalformedConsensusKey);
            },
        };
        let network_signing_public_key = match Ed25519PublicKey::from_bytes(
            copy_bytes(msg.network_signing_public_key.as_slice()),
        ) {
            Some(k) => k,
            None => {
                return Err(ValidatorKeysError::MalformedNetworkSigningKey);
            },
        };
        let network_identity_public_key = match X25519StaticPublicKey::from_bytes(
            copy_bytes(msg.network_identity_public_key.as_slice()),
        ) {
            Some(k) => k,
            None => {
                return Err(ValidatorKeysError::MalformedNetworkIdentityKey);
            },
        };
        let rec = ValidatorPublicKeys::new(
            account_address,
            consensus_public_key,
            network_signing_public_key,
            network_identity_public_key,
        );
        proof {
            assert(rec@ =~= msg@);
        }
        Ok(rec)
    }

    /// The diagnostic rendering: names only the shortened address, never
    /// any key material — key bytes mean nothing to a human reader and
    /// printing them would bloat logs and leak secrets-adjacent data.
    pub fn display_string(&self) -> (s: String)
        ensures
            s@ == "account_address: "@ + hex_of(
                self@.account_address.subrange(0, SHORT_STR_BYTES as int),
            ),
    {
        let mut s = String::from_str("account_address: ");
        let tail = self.account_address.short_str();
        s.append(tail.as_str());
        s
    }
}

impl Clone for ValidatorPublicKeys {
    /// The clone carries the same four fields as the original.
    fn clone(&self) -> (r: Self)
        ensures
            r@ == self@,
    {
        let r = ValidatorPublicKeys {
            account_address: self.account_address.clone(),
            consensus_public_key: self.consensus_public_key.clone(),
            network_signing_public_key: self.network_signing_public_key.clone(),
            network_identity_public_key: self.network_identity_public_key.clone(),
        };
        proof {
            assert(r@ =~= self@);
        }
        r
    }
}

impl PartialEq for ValidatorPublicKeys {
    /// Structural equality: two records are equal iff every field is
    /// byte-equal.
    fn eq(&self, other: &Self) -> (r: bool) {
        let r = self.account_address == other.account_address && self.consensus_public_key
            == other.consensus_public_key && self.network_signing_public_key
            == other.network_signing_public_key && self.network_identity_public_key
            == other.network_identity_public_key;
        proof {
            if r {
                assert(self@ =~= other@);
            } else {
                if self@ == other@ {
                    assert(self@.account_address == other@.account_address);
                    assert(self@.consensus_public_key == other@.consensus_public_key);
                    assert(self@.network_signing_public_key == other@.network_signing_public_key);
                    assert(self@.network_identity_public_key
                        == other@.network_identity_public_key);
                }
            }
        }
        r
    }
}

impl vstd::std_specs::cmp::PartialEqSpecImpl for ValidatorPublicKeys {
    open spec fn obeys_eq_spec() -> bool {
        true
    }

    open spec fn eq_spec(&self, other: &Self) -> bool {
        self@ == other@
    }
}

} // verus!
