use stellar_core::crypto::{ed25519_public, ed25519_sign, sha256};
use stellar_core::encode::{base64_encode, hex_encode};
use stellar_core::operations::{
    is_valid_status_transition, TrustlineOperationStatus, TrustlineOperationType,
};
use stellar_core::strkey::{decode_strkey, VERSION_ACCOUNT, VERSION_SEED};

#[test]
fn test_base64_known_vectors() {
    assert_eq!(base64_encode(&b"Man".to_vec()), "TWFu");
    assert_eq!(base64_encode(&b"Ma".to_vec()), "TWE=");
    assert_eq!(base64_encode(&b"M".to_vec()), "TQ==");
    assert_eq!(base64_encode(&Vec::new()), "");
    assert_eq!(base64_encode(&b"light work.".to_vec()), "bGlnaHQgd29yay4=");
    assert_eq!(base64_encode(&vec![0xFB, 0xFF, 0xFE]), "+//+");
}

#[test]
fn test_hex_known_vectors() {
    assert_eq!(hex_encode(&vec![0xBE, 0xEF]), "beef");
    assert_eq!(hex_encode(&vec![0x00, 0x01, 0x7F]), "00017f");
    assert_eq!(hex_encode(&Vec::new()), "");
}

#[test]
fn test_sha256_known_vectors() {
    assert_eq!(
        hex_encode(&sha256(&Vec::new())),
        "e3b0c44298fc1c149afbf4c8996fb92427ae41e4649b934ca495991b7852b855"
    );
    assert_eq!(
        hex_encode(&sha256(&b"abc".to_vec())),
        "ba7816bf8f01cfea414140de5dae2223b00361a396177a9cb410ff61f20015ad"
    );
}

#[test]
fn test_ed25519_rfc8032_vector() {
    // RFC 8032, test vector 1: empty message
    let seed = vec![
        0x9d, 0x61, 0xb1, 0x9d, 0xef, 0xfd, 0x5a, 0x60, 0xba, 0x84, 0x4a, 0xf4, 0x92, 0xec,
        0x2c, 0xc4, 0x44, 0x49, 0xc5, 0x69, 0x7b, 0x32, 0x69, 0x19, 0x70, 0x3b, 0xac, 0x03,
        0x1c, 0xae, 0x7f, 0x60,
    ];
    let public = ed25519_public(&seed);
    assert_eq!(
        hex_encode(&public),
        "d75a980182b10ab7d54bfed3c964073a0ee172f3daa62325af021a68f707511a"
    );
    let signature = ed25519_sign(&seed, &Vec::new());
    assert_eq!(
        hex_encode(&signature),
        "e5564300c360ac729086e2cc806e828a84877f1eb8e5d974d873e065224901555fb8821590a33bacc61e39701cf9b46bd25bf5f0595bbe24655141438e7a100b"
    );
}

#[test]
fn test_strkey_decode_account() {
    let addr = "GCJRI5CIWK5IU67Q6DGA7QW52JDKRO7JEAHQKFNDUJUPEZGURDBX3LDX";
    let payload = decode_strkey(addr, VERSION_ACCOUNT).expect("well-formed account key");
    assert_eq!(
        payload,
        vec![
            147u8, 20, 116, 72, 178, 186, 138, 123, 240, 240, 204, 15, 194, 221, 210, 70, 168,
            187, 233, 32, 15, 5, 21, 163, 162, 104, 242, 100, 212, 136, 195, 125,
        ]
    );

    // a seed version byte does not decode as an account
    assert!(decode_strkey(addr, VERSION_SEED).is_none());
    // a corrupted character breaks the checksum
    let corrupted = "GCJRI5CIWK5IU67Q6DGA7QW52JDKRO7JEAHQKFNDUJUPEZGURDBX3LDA";
    assert!(decode_strkey(corrupted, VERSION_ACCOUNT).is_none());
    // characters outside the base-32 alphabet are rejected outright
    let bad_alphabet = "G1JRI5CIWK5IU67Q6DGA7QW52JDKRO7JEAHQKFNDUJUPEZGURDBX3LDX";
    assert!(decode_strkey(bad_alphabet, VERSION_ACCOUNT).is_none());
}

#[test]
fn test_operation_names() {
    assert_eq!(TrustlineOperationType::Create.as_str(), "create");
    assert_eq!(TrustlineOperationType::Update.as_str(), "update");
    assert_eq!(TrustlineOperationType::Remove.as_str(), "remove");
    assert_eq!(TrustlineOperationStatus::Pending.as_str(), "pending");
    assert_eq!(TrustlineOperationStatus::Completed.as_str(), "completed");
    assert_eq!(TrustlineOperationStatus::Failed.as_str(), "failed");
}

#[test]
fn test_status_lifecycle_is_one_shot() {
    let pending = TrustlineOperationStatus::Pending;
    let completed = TrustlineOperationStatus::Completed;
    let failed = TrustlineOperationStatus::Failed;
    assert!(is_valid_status_transition(pending, completed));
    assert!(is_valid_status_transition(pending, failed));
    assert!(!is_valid_status_transition(pending, pending));
    assert!(!is_valid_status_transition(completed, failed));
    assert!(!is_valid_status_transition(completed, pending));
    assert!(!is_valid_status_transition(failed, completed));
}
