use validator_keys::account_address::AccountAddress;
use validator_keys::errors::ValidatorKeysError;
use validator_keys::keys::Ed25519PublicKey;
use validator_keys::keys::X25519StaticPublicKey;
use validator_keys::validator_public_keys::ValidatorPublicKeys;
use validator_keys::validator_public_keys::ValidatorPublicKeysMessage;

fn sample_record() -> ValidatorPublicKeys {
    let address = AccountAddress::from_bytes(vec![0xAA; 16]).unwrap();
    let consensus = Ed25519PublicKey::from_bytes(vec![0xBB; 32]).unwrap();
    let signing = Ed25519PublicKey::from_bytes(vec![0xCC; 32]).unwrap();
    let identity = X25519StaticPublicKey::from_bytes(vec![0xDD; 32]).unwrap();
    ValidatorPublicKeys::new(address, consensus, signing, identity)
}

#[test]
fn interchange_round_trip() {
    let r = sample_record();
    let msg = r.to_interchange();
    assert_eq!(msg.account_address, vec![0xAA; 16]);
    assert_eq!(msg.consensus_public_key, vec![0xBB; 32]);
    assert_eq!(msg.network_signing_public_key, vec![0xCC; 32]);
    assert_eq!(msg.network_identity_public_key, vec![0xDD; 32]);
    let back = ValidatorPublicKeys::from_interchange(&msg).unwrap();
    assert_eq!(back, r);
}

#[test]
fn interchange_wrong_length_consensus_key_names_the_field() {
    // A consensus key byte array of the wrong length for the scheme
    // fails, the error identifies the consensus-key field, and no record
    // is returned.
    let mut msg = sample_record().to_interchange();
    msg.consensus_public_key = vec![0xBB; 31];
    let r = ValidatorPublicKeys::from_interchange(&msg);
    assert_eq!(r, Err(ValidatorKeysError::MalformedConsensusKey));
    assert_eq!(
        ValidatorKeysError::MalformedConsensusKey.message(),
        "malformed consensus public key"
    );
}

#[test]
fn interchange_later_fields_irrelevant_to_the_failure() {
    // Once the address reconstructs, a wrong-length consensus key decides
    // the error by itself, whatever the later fields hold.
    let msg = ValidatorPublicKeysMessage {
        account_address: vec![1; 16],
        consensus_public_key: vec![2; 33],
        network_signing_public_key: vec![],
        network_identity_public_key: vec![3; 1000],
    };
    assert_eq!(
        ValidatorPublicKeys::from_interchange(&msg),
        Err(ValidatorKeysError::MalformedConsensusKey)
    );
}

#[test]
fn interchange_each_field_error() {
    let good = sample_record().to_interchange();

    let mut bad = sample_record().to_interchange();
    bad.account_address = vec![0xAA; 15];
    assert_eq!(
        ValidatorPublicKeys::from_interchange(&bad),
        Err(ValidatorKeysError::MalformedAddress)
    );

    let mut bad = sample_record().to_interchange();
    bad.network_signing_public_key = vec![0xCC; 33];
    assert_eq!(
        ValidatorPublicKeys::from_interchange(&bad),
        Err(ValidatorKeysError::MalformedNetworkSigningKey)
    );

    let mut bad = sample_record().to_interchange();
    bad.network_identity_public_key = vec![0xDD; 0];
    assert_eq!(
        ValidatorPublicKeys::from_interchange(&bad),
        Err(ValidatorKeysError::MalformedNetworkIdentityKey)
    );

    // The untouched message still reconstructs.
    assert!(ValidatorPublicKeys::from_interchange(&good).is_ok());
}

#[test]
fn accessors_return_constructor_arguments() {
    let r = sample_record();
    assert_eq!(r.account_address().as_bytes(), &[0xAA; 16][..]);
    assert_eq!(r.consensus_public_key().as_bytes(), &[0xBB; 32][..]);
    assert_eq!(r.network_signing_public_key().as_bytes(), &[0xCC; 32][..]);
    assert_eq!(r.network_identity_public_key().as_bytes(), &[0xDD; 32][..]);
}

#[test]
fn component_from_bytes_validates_length() {
    assert!(AccountAddress::from_bytes(vec![0; 15]).is_none());
    assert!(AccountAddress::from_bytes(vec![0; 17]).is_none());
    assert!(AccountAddress::from_bytes(vec![0; 16]).is_some());
    assert!(Ed25519PublicKey::from_bytes(vec![0; 31]).is_none());
    assert!(Ed25519PublicKey::from_bytes(vec![0; 32]).is_some());
    assert!(X25519StaticPublicKey::from_bytes(vec![0; 33]).is_none());
    assert!(X25519StaticPublicKey::from_bytes(vec![0; 32]).is_some());
    assert!(Ed25519PublicKey::from_bytes(Vec::new()).is_none());
}

#[test]
fn record_equality_is_structural() {
    let r1 = sample_record();
    let r2 = sample_record();
    assert_eq!(r1, r2);
    let different = ValidatorPublicKeys::new(
        AccountAddress::from_bytes(vec![0xAA; 16]).unwrap(),
        Ed25519PublicKey::from_bytes(vec![0xBE; 32]).unwrap(),
        Ed25519PublicKey::from_bytes(vec![0xCC; 32]).unwrap(),
        X25519StaticPublicKey::from_bytes(vec![0xDD; 32]).unwrap(),
    );
    assert_ne!(r1, different);
}

#[test]
fn record_clone_is_equal() {
    let r = sample_record();
    let c = r.clone();
    assert_eq!(c, r);
    assert_eq!(c.encode_canonical(), r.encode_canonical());
}

#[test]
fn display_names_only_the_shortened_address() {
    let r = sample_record();
    let shown = r.display_string();
    assert_eq!(shown, "account_address: aaaaaaaa");
    // No key material appears in the rendering.
    assert!(!shown.contains("bbbb"));
    assert!(!shown.contains("cccc"));
    assert!(!shown.contains("dddd"));
}

#[test]
fn address_short_str_is_hex_of_first_four_bytes() {
    let address = AccountAddress::from_bytes((16u8..32).collect()).unwrap();
    assert_eq!(address.short_str(), "10111213");
    let other = AccountAddress::from_bytes(vec![0x01; 16]).unwrap();
    assert_eq!(other.short_str(), "01010101");
}

#[test]
fn error_messages_name_field_or_layer() {
    assert_eq!(
        ValidatorKeysError::MalformedAddress.message(),
        "malformed account address"
    );
    assert_eq!(
        ValidatorKeysError::MalformedNetworkSigningKey.message(),
        "malformed network signing public key"
    );
    assert_eq!(
        ValidatorKeysError::MalformedNetworkIdentityKey.message(),
        "malformed network identity public key"
    );
    assert_eq!(
        ValidatorKeysError::Truncated.message(),
        "canonical input truncated"
    );
    assert_eq!(
        ValidatorKeysError::TrailingBytes.message(),
        "trailing bytes after canonical record"
    );
}

#[test]
fn component_to_bytes_round_trips() {
    let address = AccountAddress::from_bytes((0u8..16).collect()).unwrap();
    let back = AccountAddress::from_bytes(address.to_bytes()).unwrap();
    assert_eq!(back.as_bytes(), address.as_bytes());
    let key = Ed25519PublicKey::from_bytes((0u8..32).collect()).unwrap();
    let back = Ed25519PublicKey::from_bytes(key.to_bytes()).unwrap();
    assert_eq!(back.as_bytes(), key.as_bytes());
    let key = X25519StaticPublicKey::from_bytes((0u8..32).collect()).unwrap();
    let back = X25519StaticPublicKey::from_bytes(key.to_bytes()).unwrap();
    assert_eq!(back.as_bytes(), key.as_bytes());
}
