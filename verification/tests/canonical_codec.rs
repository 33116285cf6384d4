use validator_keys::account_address::AccountAddress;
use validator_keys::errors::ValidatorKeysError;
use validator_keys::keys::Ed25519PublicKey;
use validator_keys::keys::X25519StaticPublicKey;
use validator_keys::validator_public_keys::ValidatorPublicKeys;

fn sample_record() -> ValidatorPublicKeys {
    let address = AccountAddress::from_bytes(vec![0xAA; 16]).unwrap();
    let consensus = Ed25519PublicKey::from_bytes(vec![0xBB; 32]).unwrap();
    let signing = Ed25519PublicKey::from_bytes(vec![0xCC; 32]).unwrap();
    let identity = X25519StaticPublicKey::from_bytes(vec![0xDD; 32]).unwrap();
    ValidatorPublicKeys::new(address, consensus, signing, identity)
}

fn varied_record() -> ValidatorPublicKeys {
    let address = AccountAddress::from_bytes((0u8..16).collect()).unwrap();
    let consensus = Ed25519PublicKey::from_bytes((0u8..32).collect()).unwrap();
    let signing = Ed25519PublicKey::from_bytes((100u8..132).collect()).unwrap();
    let identity = X25519StaticPublicKey::from_bytes((200u8..232).collect()).unwrap();
    ValidatorPublicKeys::new(address, consensus, signing, identity)
}

#[test]
fn canonical_round_trip() {
    let r = sample_record();
    let enc = r.encode_canonical();
    let decoded = ValidatorPublicKeys::decode_canonical(&enc).unwrap();
    assert_eq!(decoded, r);

    let r2 = varied_record();
    let enc2 = r2.encode_canonical();
    let decoded2 = ValidatorPublicKeys::decode_canonical(&enc2).unwrap();
    assert_eq!(decoded2, r2);
}

#[test]
fn canonical_encoding_layout() {
    // Each field is one nested structure: a four-byte little-endian
    // length prefix, then the payload. The whole encoding is exactly the
    // sum of the four nested encodings, with no extra bytes.
    let r = sample_record();
    let enc = r.encode_canonical();
    assert_eq!(enc.len(), (4 + 16) + (4 + 32) + (4 + 32) + (4 + 32));
    assert_eq!(&enc[0..4], &[16, 0, 0, 0]);
    assert_eq!(&enc[4..20], &[0xAA; 16][..]);
    assert_eq!(&enc[20..24], &[32, 0, 0, 0]);
    assert_eq!(&enc[24..56], &[0xBB; 32][..]);
    assert_eq!(&enc[56..60], &[32, 0, 0, 0]);
    assert_eq!(&enc[60..92], &[0xCC; 32][..]);
    assert_eq!(&enc[92..96], &[32, 0, 0, 0]);
    assert_eq!(&enc[96..128], &[0xDD; 32][..]);
}

#[test]
fn canonical_encoding_deterministic() {
    let r = sample_record();
    let first = r.encode_canonical();
    let second = r.encode_canonical();
    assert_eq!(first, second);

    // A second record with the same field bytes encodes identically too.
    let again = sample_record().encode_canonical();
    assert_eq!(first, again);
}

#[test]
fn truncation_always_rejected() {
    let r = sample_record();
    let enc = r.encode_canonical();
    for k in 0..enc.len() {
        let cut = &enc[0..k];
        match ValidatorPublicKeys::decode_canonical(cut) {
            Err(e) => assert_eq!(e, ValidatorKeysError::Truncated),
            Ok(_) => panic!("a strict prefix of length {} decoded to a record", k),
        }
    }
}

#[test]
fn trailing_bytes_rejected() {
    let r = sample_record();
    let mut enc = r.encode_canonical();
    enc.push(0);
    assert_eq!(
        ValidatorPublicKeys::decode_canonical(&enc),
        Err(ValidatorKeysError::TrailingBytes)
    );
}

#[test]
fn empty_and_tiny_inputs_rejected() {
    assert_eq!(
        ValidatorPublicKeys::decode_canonical(&[]),
        Err(ValidatorKeysError::Truncated)
    );
    assert_eq!(
        ValidatorPublicKeys::decode_canonical(&[16, 0, 0]),
        Err(ValidatorKeysError::Truncated)
    );
}

#[test]
fn corrupt_consensus_length_names_consensus_field() {
    // Corrupting the consensus key's length prefix so the structure is
    // complete but of the wrong length for the scheme names that field,
    // whatever the later fields hold.
    let r = sample_record();
    let mut enc = r.encode_canonical();
    enc[20] = 31;
    enc.pop();
    assert_eq!(
        ValidatorPublicKeys::decode_canonical(&enc),
        Err(ValidatorKeysError::MalformedConsensusKey)
    );
}

#[test]
fn corrupt_length_prefix_overrunning_input_is_truncation() {
    // A corrupted length prefix that promises more bytes than remain is
    // reported by the byte layer, before the field's own check.
    let r = sample_record();
    let mut enc = r.encode_canonical();
    enc[21] = 1; // consensus length becomes 32 + 256
    assert_eq!(
        ValidatorPublicKeys::decode_canonical(&enc),
        Err(ValidatorKeysError::Truncated)
    );
}

#[test]
fn corrupt_key_payload_byte_changes_the_record() {
    // A key is validated by length alone here: flipping a payload byte
    // inside the consensus key region still decodes, but to a different
    // record — it never silently yields the original.
    let r = sample_record();
    let mut enc = r.encode_canonical();
    enc[30] ^= 0xFF;
    let decoded = ValidatorPublicKeys::decode_canonical(&enc).unwrap();
    assert_ne!(decoded, r);
    assert_ne!(
        decoded.consensus_public_key().as_bytes(),
        r.consensus_public_key().as_bytes()
    );
    // The other three fields are untouched.
    assert_eq!(
        decoded.account_address().as_bytes(),
        r.account_address().as_bytes()
    );
    assert_eq!(
        decoded.network_signing_public_key().as_bytes(),
        r.network_signing_public_key().as_bytes()
    );
    assert_eq!(
        decoded.network_identity_public_key().as_bytes(),
        r.network_identity_public_key().as_bytes()
    );
}

#[test]
fn swapped_address_and_key_regions_rejected() {
    // Writing the consensus-key structure where the address belongs
    // fails the address field's own length check.
    let r = sample_record();
    let enc = r.encode_canonical();
    let mut swapped = Vec::new();
    swapped.extend_from_slice(&enc[20..56]);
    swapped.extend_from_slice(&enc[0..20]);
    swapped.extend_from_slice(&enc[56..]);
    assert_eq!(swapped.len(), enc.len());
    assert_eq!(
        ValidatorPublicKeys::decode_canonical(&swapped),
        Err(ValidatorKeysError::MalformedAddress)
    );
}

#[test]
fn swapped_same_length_key_regions_decode_to_swapped_record() {
    // The accepted edge case: the two signature-key fields have the same
    // mandated length, so swapping their regions still satisfies each
    // field's validity check. The decoder returns the record with the
    // keys exchanged — visibly different, never the original.
    let r = varied_record();
    let enc = r.encode_canonical();
    let mut swapped = Vec::new();
    swapped.extend_from_slice(&enc[0..20]);
    swapped.extend_from_slice(&enc[56..92]);
    swapped.extend_from_slice(&enc[20..56]);
    swapped.extend_from_slice(&enc[92..128]);
    let decoded = ValidatorPublicKeys::decode_canonical(&swapped).unwrap();
    assert_ne!(decoded, r);
    assert_eq!(
        decoded.consensus_public_key().as_bytes(),
        r.network_signing_public_key().as_bytes()
    );
    assert_eq!(
        decoded.network_signing_public_key().as_bytes(),
        r.consensus_public_key().as_bytes()
    );
}
