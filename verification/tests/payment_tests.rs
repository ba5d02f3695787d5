use stellar_core::client::StellarClient;
use stellar_core::config::{StellarConfig, StellarNetwork};
use stellar_core::errors::StellarError;
use stellar_core::payment::{AfriPaymentBuilder, PaymentMemo, PaymentOperation};

const SOURCE: &str = "GASNL3KM5CDHHGOTS5F7NAUR4YGVSU2J5VREP7SDLLTSIHHYHTTHGI3P";
const DESTINATION: &str = "GABNELMIVIE2AO32BSTUI4Z3NR2JYPZCUAM7VPQWPOULVZ5ARNH6REW3";
const ISSUER: &str = "GCKYSYN2YHE4C6YM53OFUWYVM34B4YZJEZZVML5T7XSCLSNADLSMQNBX";
const SEED: &str = "SASZ26IARCLD2N3HE4FN5JRODHVZDEJQW6T2HPDVA7FADQ7CNZLYRUUQ";

fn builder() -> AfriPaymentBuilder {
    let config = StellarConfig {
        network: StellarNetwork::Testnet,
        request_timeout_secs: 15,
        max_retries: 3,
        health_check_interval_secs: 30,
    };
    AfriPaymentBuilder::new(StellarClient::new(config).expect("client"))
}

fn operation(amount: &str) -> PaymentOperation {
    PaymentOperation {
        source: SOURCE.to_string(),
        destination: DESTINATION.to_string(),
        amount: amount.to_string(),
        asset_code: "AFRI".to_string(),
        asset_issuer: ISSUER.to_string(),
    }
}

#[test]
fn test_build_payment_rejects_zero_amount() {
    let r = builder().build_payment(operation("0"), PaymentMemo::Empty, None, 7);
    assert!(matches!(r, Err(StellarError::ValidationError { .. })));
}

#[test]
fn test_build_payment_rejects_negative_amount() {
    let r = builder().build_payment(operation("-5"), PaymentMemo::Empty, None, 7);
    assert!(matches!(r, Err(StellarError::ValidationError { .. })));
}

#[test]
fn test_build_payment_carries_amount_unmodified() {
    let draft = builder()
        .build_payment(operation("100.5000000"), PaymentMemo::Empty, None, 7)
        .expect("draft expected");
    assert_eq!(draft.amount, "100.5000000");
    assert_eq!(draft.sequence, 8);
    assert_eq!(draft.fee, 100);
    assert_eq!(draft.source, SOURCE);
    assert_eq!(draft.destination, DESTINATION);
}

#[test]
fn test_build_payment_fee_override() {
    let draft = builder()
        .build_payment(operation("1"), PaymentMemo::Empty, Some(250), 7)
        .expect("draft expected");
    assert_eq!(draft.fee, 250);
}

#[test]
fn test_build_payment_rejects_bad_addresses() {
    let mut op = operation("1");
    op.source = "INVALID_ADDRESS".to_string();
    let r = builder().build_payment(op, PaymentMemo::Empty, None, 7);
    assert!(matches!(r, Err(StellarError::InvalidAddress { .. })));

    let mut op = operation("1");
    op.destination = "short".to_string();
    let r = builder().build_payment(op, PaymentMemo::Empty, None, 7);
    assert!(matches!(r, Err(StellarError::InvalidAddress { .. })));
}

#[test]
fn test_build_payment_rejects_long_text_memo() {
    let memo = PaymentMemo::Text("this memo is much longer than twenty-eight bytes".to_string());
    let r = builder().build_payment(operation("1"), memo, None, 7);
    assert!(matches!(r, Err(StellarError::ValidationError { .. })));
}

#[test]
fn test_signing_is_deterministic() {
    // one draft, one seed: identical envelope bytes and hash both times
    let b = builder();
    let draft = b
        .build_payment(operation("100.5000000"), PaymentMemo::Text("invoice 7".to_string()),
            None, 41)
        .expect("draft expected");
    let first = b.sign_transaction(draft.clone(), SEED).expect("signed");
    let second = b.sign_transaction(draft, SEED).expect("signed");
    assert_eq!(first.envelope_xdr, second.envelope_xdr);
    assert_eq!(first.transaction_hash, second.transaction_hash);
    assert!(!first.envelope_xdr.is_empty());
    assert_eq!(first.transaction_hash.len(), 64);
}

#[test]
fn test_tampered_draft_changes_hash() {
    // mutating a draft field after build and before sign moves the hash:
    // the hash commits to every draft field
    let b = builder();
    let draft = b
        .build_payment(operation("100.5000000"), PaymentMemo::Empty, None, 41)
        .expect("draft expected");
    let honest = b.sign_transaction(draft.clone(), SEED).expect("signed");

    let mut tampered_amount = draft.clone();
    tampered_amount.amount = "200.5000000".to_string();
    let signed = b.sign_transaction(tampered_amount, SEED).expect("signed");
    assert_ne!(signed.transaction_hash, honest.transaction_hash);

    let mut tampered_destination = draft.clone();
    tampered_destination.destination = ISSUER.to_string();
    let signed = b.sign_transaction(tampered_destination, SEED).expect("signed");
    assert_ne!(signed.transaction_hash, honest.transaction_hash);

    let mut tampered_sequence = draft;
    tampered_sequence.sequence += 1;
    let signed = b.sign_transaction(tampered_sequence, SEED).expect("signed");
    assert_ne!(signed.transaction_hash, honest.transaction_hash);
}

#[test]
fn test_network_passphrase_binds_signature() {
    // the same draft signed for the other network has a different hash
    let testnet = builder();
    let mainnet_config = StellarConfig {
        network: StellarNetwork::Mainnet,
        request_timeout_secs: 15,
        max_retries: 3,
        health_check_interval_secs: 30,
    };
    let mainnet = AfriPaymentBuilder::new(StellarClient::new(mainnet_config).expect("client"));
    let draft = testnet
        .build_payment(operation("1"), PaymentMemo::Empty, None, 41)
        .expect("draft expected");
    let on_testnet = testnet.sign_transaction(draft.clone(), SEED).expect("signed");
    let on_mainnet = mainnet.sign_transaction(draft, SEED).expect("signed");
    assert_ne!(on_testnet.transaction_hash, on_mainnet.transaction_hash);
    assert_ne!(on_testnet.envelope_xdr, on_mainnet.envelope_xdr);
}

#[test]
fn test_signed_envelope_golden() {
    // envelope and hash computed independently for this exact draft
    let b = builder();
    let draft = b
        .build_payment(operation("100.5000000"), PaymentMemo::Empty, None, 41)
        .expect("draft expected");
    assert_eq!(draft.sequence, 42);
    assert_eq!(draft.fee, 100);
    let signed = b.sign_transaction(draft, SEED).expect("signed");
    assert_eq!(
        signed.transaction_hash,
        "46a184e55f0f39a5bbad187f73b68c8e7f28b58b9c242b320bfec8a340c7a58f"
    );
    assert_eq!(
        signed.envelope_xdr,
        "AAAAACTV7UzohnOZ05dL9oKR5g1ZU0ntYkf+Q1rnJBz4POZzAAAAZAAAAAAAAAAqAAAAAAAAAAAAAAAB\
         AAAAAAAAAAEAAAAAAtItiKoJoDt6DKdEcztsdJw/IqAZ+r4We6i656CLT+gAAAABQUZSSQAAAACViWG6\
         wcnBewzu3FpbFWb4HmMpJnNWL7P95CXJoBrkyAAAAAA75xVAAAAAAAAAAAGUGifzAAAAQO5YeNHlgyDg\
         d0dS5pwc0avA1teWJ5SSHGEvYV/D01oAE/pGvE2sqQ9+1IHKZ8rVV0yRCmwr0mvUkQzV0nAvKQw="
    );
}

#[test]
fn test_sign_rejects_malformed_seed() {
    let b = builder();
    let draft = b
        .build_payment(operation("1"), PaymentMemo::Empty, None, 41)
        .expect("draft expected");

    // wrong prefix: an account key is not a seed
    let r = b.sign_transaction(draft.clone(), SOURCE);
    assert!(matches!(r, Err(StellarError::SigningError { .. })));

    // corrupted checksum: last character changed
    let mut corrupted = SEED.to_string();
    corrupted.pop();
    corrupted.push('A');
    let r = b.sign_transaction(draft.clone(), &corrupted);
    assert!(matches!(r, Err(StellarError::SigningError { .. })));

    let r = b.sign_transaction(draft, "not a seed");
    assert!(matches!(r, Err(StellarError::SigningError { .. })));
}

#[test]
fn test_sign_rejects_unencodable_draft() {
    let b = builder();
    let mut draft = b
        .build_payment(operation("1"), PaymentMemo::Empty, None, 41)
        .expect("draft expected");
    // a syntactically plausible address whose checksum does not check out
    draft.destination = "GAAAAAAAACGC6AAAAAAAAAAAAAAAAAAAAAAAAAAAAAAAAAAAAAAAAAA".to_string();
    let r = b.sign_transaction(draft, SEED);
    assert!(matches!(r, Err(StellarError::ValidationError { .. })));
}

#[test]
fn test_memo_variants_sign() {
    let b = builder();
    for memo in [
        PaymentMemo::Empty,
        PaymentMemo::Text("ok".to_string()),
        PaymentMemo::Id(77),
        PaymentMemo::Hash(vec![7u8; 32]),
    ] {
        let draft = b
            .build_payment(operation("2.25"), memo, None, 41)
            .expect("draft expected");
        let signed = b.sign_transaction(draft, SEED).expect("signed");
        assert!(!signed.envelope_xdr.is_empty());
    }
}

#[test]
fn test_validate_payment_operation() {
    let b = builder();
    assert!(b.validate_payment_operation(&operation("3.5")).is_ok());

    let mut bad_issuer = operation("3.5");
    bad_issuer.asset_issuer = "nope".to_string();
    assert!(matches!(
        b.validate_payment_operation(&bad_issuer),
        Err(StellarError::InvalidAddress { .. })
    ));

    let mut bad_code = operation("3.5");
    bad_code.asset_code = "".to_string();
    assert!(matches!(
        b.validate_payment_operation(&bad_code),
        Err(StellarError::ValidationError { .. })
    ));

    let mut too_precise = operation("1.00000001");
    too_precise.amount = "1.00000001".to_string();
    assert!(matches!(
        b.validate_payment_operation(&too_precise),
        Err(StellarError::ValidationError { .. })
    ));
}
