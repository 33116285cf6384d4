//! The laws of the two codecs, proved of the mathematical model: the
//! round trips, determinism, injectivity, and the rejection behaviour on
//! truncated, reordered or wrong-length input.

use vstd::prelude::*;
use crate::errors::ValidatorKeysError;
use crate::account_address::ADDRESS_LENGTH;
use crate::keys::ED25519_PUBLIC_KEY_LENGTH;
use crate::keys::X25519_PUBLIC_KEY_LENGTH;
use crate::model::RecordFields;
use crate::model::canonical_decode_spec;
use crate::model::canonical_encoding;
use crate::model::interchange_decode_spec;
use crate::model::le_bytes_of_u32;
use crate::model::le_u32_at;
use crate::model::length_prefixed;
use crate::model::step_len;
use crate::model::step_next;
use crate::model::step_payload;
use crate::model::step_truncated;
use crate::model::valid_record;

verus! {

/// Offsets and prefix values of a valid record's canonical encoding: the
/// four nested structures sit at fixed positions because every field has
/// a fixed length.
proof fn lemma_encoding_shape(m: RecordFields)
    requires
        valid_record(m),
    ensures
        canonical_encoding(m).len() == 128,
        le_u32_at(canonical_encoding(m), 0) == 16,
        le_u32_at(canonical_encoding(m), 20) == 32,
        le_u32_at(canonical_encoding(m), 56) == 32,
        le_u32_at(canonical_encoding(m), 92) == 32,
        canonical_encoding(m).subrange(4, 20) == m.account_address,
        canonical_encoding(m).subrange(24, 56) == m.consensus_public_key,
        canonical_encoding(m).subrange(60, 92) == m.network_signing_public_key,
        canonical_encoding(m).subrange(96, 128) == m.network_identity_public_key,
{
    let enc = canonical_encoding(m);
    let lpa = length_prefixed(m.account_address);
    let lpc = length_prefixed(m.consensus_public_key);
    let lps = length_prefixed(m.network_signing_public_key);
    let lpi = length_prefixed(m.network_identity_public_key);
    assert(le_bytes_of_u32(16) =~= seq![16u8, 0u8, 0u8, 0u8]);
    assert(le_bytes_of_u32(32) =~= seq![32u8, 0u8, 0u8, 0u8]);
    assert(lpa.len() == 20);
    assert(lpc.len() == 36);
    assert(lps.len() == 36);
    assert(lpi.len() == 36);
    assert(enc.len() == 128);
    assert(enc[0] == 16u8 && enc[1] == 0u8 && enc[2] == 0u8 && enc[3] == 0u8);
    assert(enc[20] == 32u8 && enc[21] == 0u8 && enc[22] == 0u8 && enc[23] == 0u8);
    assert(enc[56] == 32u8 && enc[57] == 0u8 && enc[58] == 0u8 && enc[59] == 0u8);
    assert(enc[92] == 32u8 && enc[93] == 0u8 && enc[94] == 0u8 && enc[95] == 0u8);
    assert(le_u32_at(enc, 0) == 16);
    assert(le_u32_at(enc, 20) == 32);
    assert(le_u32_at(enc, 56) == 32);
    assert(le_u32_at(enc, 92) == 32);
    assert(enc.subrange(4, 20) =~= m.account_address);
    assert(enc.subrange(24, 56) =~= m.consensus_public_key);
    assert(enc.subrange(60, 92) =~= m.network_signing_public_key);
    assert(enc.subrange(96, 128) =~= m.network_identity_public_key);
}

/// Round trip of the canonical codec: decoding the canonical encoding of
/// any valid record yields exactly that record.
pub proof fn lemma_canonical_round_trip(m: RecordFields)
    requires
        valid_record(m),
    ensures
        canonical_decode_spec(canonical_encoding(m)) == Ok::<
            RecordFields,
            ValidatorKeysError,
        >(m),
{
    let enc = canonical_encoding(m);
    lemma_encoding_shape(m);
    assert(!step_truncated(enc, 0));
    assert(step_len(enc, 0) == ADDRESS_LENGTH);
    assert(step_next(enc, 0) == 20);
    assert(!step_truncated(enc, 20));
    assert(step_len(enc, 20) == ED25519_PUBLIC_KEY_LENGTH);
    assert(step_next(enc, 20) == 56);
    assert(!step_truncated(enc, 56));
    assert(step_len(enc, 56) == ED25519_PUBLIC_KEY_LENGTH);
    assert(step_next(enc, 56) == 92);
    assert(!step_truncated(enc, 92));
    assert(step_len(enc, 92) == X25519_PUBLIC_KEY_LENGTH);
    assert(step_next(enc, 92) == 128);
    assert(step_payload(enc, 0) == enc.subrange(4, 20));
    assert(step_payload(enc, 20) == enc.subrange(24, 56));
    assert(step_payload(enc, 56) == enc.subrange(60, 92));
    assert(step_payload(enc, 92) == enc.subrange(96, 128));
    assert(RecordFields {
        account_address: step_payload(enc, 0),
        consensus_public_key: step_payload(enc, 20),
        network_signing_public_key: step_payload(enc, 56),
        network_identity_public_key: step_payload(enc, 92),
    } =~= m);
}

/// Round trip of the interchange codec: a message carrying the fields of
/// a valid record reconstructs exactly that record.
pub proof fn lemma_interchange_round_trip(m: RecordFields)
    requires
        valid_record(m),
    ensures
        interchange_decode_spec(m) == Ok::<RecordFields, ValidatorKeysError>(m),
{
}

/// Determinism: the canonical encoding is a function of the record's
/// fields alone, so equal records encode to byte-identical output.
pub proof fn lemma_encode_deterministic(m1: RecordFields, m2: RecordFields)
    requires
        m1 == m2,
    ensures
        canonical_encoding(m1) == canonical_encoding(m2),
{
}

/// Injectivity: two valid records with the same canonical encoding are
/// the same record.
pub proof fn lemma_encoding_injective(m1: RecordFields, m2: RecordFields)
    requires
        valid_record(m1),
        valid_record(m2),
        canonical_encoding(m1) == canonical_encoding(m2),
    ensures
        m1 == m2,
{
    lemma_canonical_round_trip(m1);
    lemma_canonical_round_trip(m2);
}

/// Soundness of the canonical decoder: whenever it accepts, the record it
/// returns is valid and re-encodes to exactly the input bytes. So no
/// input that is not itself a canonical encoding — truncated, padded,
/// reordered or otherwise corrupted — can decode to a record.
#[verifier::rlimit(50)]
pub proof fn lemma_decode_sound(bytes: Seq<u8>)
    ensures
        canonical_decode_spec(bytes) matches Ok(m) ==> valid_record(m) && canonical_encoding(m)
            == bytes && bytes.len() == 128,
{
    match canonical_decode_spec(bytes) {
        Ok(m) => {
            assert(!step_truncated(bytes, 0) && step_len(bytes, 0) == 16);
            assert(step_next(bytes, 0) == 20);
            assert(!step_truncated(bytes, 20) && step_len(bytes, 20) == 32);
            assert(step_next(bytes, 20) == 56);
            assert(!step_truncated(bytes, 56) && step_len(bytes, 56) == 32);
            assert(step_next(bytes, 56) == 92);
            assert(!step_truncated(bytes, 92) && step_len(bytes, 92) == 32);
            assert(step_next(bytes, 92) == 128);
            assert(bytes.len() == 128);
            assert(valid_record(m));
            // A little-endian prefix determines its bytes uniquely: each
            // later byte weighs at least 256, so a small value forces it
            // to zero.
            assert(bytes[0] == 16u8 && bytes[1] == 0u8 && bytes[2] == 0u8 && bytes[3] == 0u8);
            assert(bytes[20] == 32u8 && bytes[21] == 0u8 && bytes[22] == 0u8 && bytes[23] == 0u8);
            assert(bytes[56] == 32u8 && bytes[57] == 0u8 && bytes[58] == 0u8 && bytes[59] == 0u8);
            assert(bytes[92] == 32u8 && bytes[93] == 0u8 && bytes[94] == 0u8 && bytes[95] == 0u8);
            assert(le_bytes_of_u32(16) =~= seq![16u8, 0u8, 0u8, 0u8]);
            assert(le_bytes_of_u32(32) =~= seq![32u8, 0u8, 0u8, 0u8]);
            assert(length_prefixed(m.account_address) =~= bytes.subrange(0, 20));
            assert(length_prefixed(m.consensus_public_key) =~= bytes.subrange(20, 56));
            assert(length_prefixed(m.network_signing_public_key) =~= bytes.subrange(56, 92));
            assert(length_prefixed(m.network_identity_public_key) =~= bytes.subrange(92, 128));
            assert(canonical_encoding(m) =~= bytes.subrange(0, 20) + bytes.subrange(20, 56)
                + bytes.subrange(56, 92) + bytes.subrange(92, 128));
            assert(bytes.subrange(0, 20) + bytes.subrange(20, 56) + bytes.subrange(56, 92)
                + bytes.subrange(92, 128) =~= bytes);
        },
        Err(_) => {},
    }
}

/// Rejection of truncation: cutting any number of bytes off the end of a
/// valid canonical encoding makes the decoder fail with a truncation
/// error; it never returns a record.
pub proof fn lemma_truncation_rejected(m: RecordFields, k: int)
    requires
        valid_record(m),
        0 <= k < canonical_encoding(m).len(),
    ensures
        canonical_decode_spec(canonical_encoding(m).subrange(0, k)) == Err::<
            RecordFields,
            ValidatorKeysError,
        >(ValidatorKeysError::Truncated),
{
    let enc = canonical_encoding(m);
    lemma_encoding_shape(m);
    let t = enc.subrange(0, k);
    assert(t.len() == k);
    if k < 4 {
        assert(step_truncated(t, 0));
    } else {
        assert(le_u32_at(t, 0) == 16);
        if k < 20 {
            assert(step_truncated(t, 0));
        } else {
            assert(!step_truncated(t, 0));
            assert(step_next(t, 0) == 20);
            if k < 24 {
                assert(step_truncated(t, 20));
            } else {
                assert(le_u32_at(t, 20) == 32);
                if k < 56 {
                    assert(step_truncated(t, 20));
                } else {
                    assert(!step_truncated(t, 20));
                    assert(step_next(t, 20) == 56);
                    if k < 60 {
                        assert(step_truncated(t, 56));
                    } else {
                        assert(le_u32_at(t, 56) == 32);
                        if k < 92 {
                            assert(step_truncated(t, 56));
                        } else {
                            assert(!step_truncated(t, 56));
                            assert(step_next(t, 56) == 92);
                            if k < 96 {
                                assert(step_truncated(t, 92));
                            } else {
                                assert(le_u32_at(t, 92) == 32);
                                assert(step_truncated(t, 92));
                            }
                        }
                    }
                }
            }
        }
    }
}

/// Field-order sensitivity of the interchange decoder, and which field an
/// error names: once the fields before it reconstruct, a key field of the
/// wrong length for its scheme decides the error by itself — the fields
/// after it are irrelevant to the failure.
pub proof fn lemma_interchange_names_failing_field(m: RecordFields)
    ensures
        m.account_address.len() == ADDRESS_LENGTH && m.consensus_public_key.len()
            != ED25519_PUBLIC_KEY_LENGTH ==> interchange_decode_spec(m) == Err::<
            RecordFields,
            ValidatorKeysError,
        >(ValidatorKeysError::MalformedConsensusKey),
        m.account_address.len() == ADDRESS_LENGTH && m.consensus_public_key.len()
            == ED25519_PUBLIC_KEY_LENGTH && m.network_signing_public_key.len()
            != ED25519_PUBLIC_KEY_LENGTH ==> interchange_decode_spec(m) == Err::<
            RecordFields,
            ValidatorKeysError,
        >(ValidatorKeysError::MalformedNetworkSigningKey),
        m.account_address.len() == ADDRESS_LENGTH && m.consensus_public_key.len()
            == ED25519_PUBLIC_KEY_LENGTH && m.network_signing_public_key.len()
            == ED25519_PUBLIC_KEY_LENGTH && m.network_identity_public_key.len()
            != X25519_PUBLIC_KEY_LENGTH ==> interchange_decode_spec(m) == Err::<
            RecordFields,
            ValidatorKeysError,
        >(ValidatorKeysError::MalformedNetworkIdentityKey),
        m.account_address.len() != ADDRESS_LENGTH ==> interchange_decode_spec(m) == Err::<
            RecordFields,
            ValidatorKeysError,
        >(ValidatorKeysError::MalformedAddress),
{
}

/// Field-order sensitivity of the canonical decoder: writing the
/// consensus-key structure where the address structure belongs is
/// rejected, because the swapped bytes do not satisfy the address
/// field's own length check.
pub proof fn lemma_swapped_address_region_rejected(m: RecordFields)
    requires
        valid_record(m),
    ensures
        canonical_decode_spec(
            length_prefixed(m.consensus_public_key) + length_prefixed(m.account_address)
                + length_prefixed(m.network_signing_public_key) + length_prefixed(
                m.network_identity_public_key,
            ),
        ) == Err::<RecordFields, ValidatorKeysError>(ValidatorKeysError::MalformedAddress),
{
    let swapped = length_prefixed(m.consensus_public_key) + length_prefixed(m.account_address)
        + length_prefixed(m.network_signing_public_key) + length_prefixed(
        m.network_identity_public_key,
    );
    assert(le_bytes_of_u32(32) =~= seq![32u8, 0u8, 0u8, 0u8]);
    assert(swapped.len() == 128);
    assert(swapped[0] == 32u8 && swapped[1] == 0u8 && swapped[2] == 0u8 && swapped[3] == 0u8);
    assert(le_u32_at(swapped, 0) == 32);
    assert(!step_truncated(swapped, 0));
    assert(step_len(swapped, 0) != ADDRESS_LENGTH);
}

/// The accepted edge case of field-order sensitivity: the two
/// signature-scheme key fields have the same mandated length, so swapping
/// their byte regions yields another well-formed encoding — the decoder
/// returns the record with those two keys exchanged, which differs from
/// the original whenever the keys differ. Reordering is thus caught
/// exactly when the swapped bytes fail the receiving field's own
/// validity check, and not otherwise.
pub proof fn lemma_swapped_key_regions_decode_to_swapped_record(m: RecordFields)
    requires
        valid_record(m),
    ensures
        ({
            let swapped = RecordFields {
                account_address: m.account_address,
                consensus_public_key: m.network_signing_public_key,
                network_signing_public_key: m.consensus_public_key,
                network_identity_public_key: m.network_identity_public_key,
            };
            canonical_decode_spec(canonical_encoding(swapped)) == Ok::<
                RecordFields,
                ValidatorKeysError,
            >(swapped) && (m.consensus_public_key != m.network_signing_public_key ==> swapped != m)
        }),
{
    let swapped = RecordFields {
        account_address: m.account_address,
        consensus_public_key: m.network_signing_public_key,
        network_signing_public_key: m.consensus_public_key,
        network_identity_public_key: m.network_identity_public_key,
    };
    lemma_canonical_round_trip(swapped);
}

} // verus!
