use faucet_client::helpers::{
    create_unsigned_txn, create_unsigned_txn_at, create_user_txn, create_user_txn_at, KeyPair,
    SigningError, SigningKey, TransactionSigner,
};
use faucet_client::transaction::{
    AccountAddress, ChainId, Ed25519PublicKey, Ed25519Signature, RawTransaction,
    SignedTransaction, TransactionPayload,
};

fn address() -> AccountAddress {
    let mut bytes = [0u8; 32];
    bytes[31] = 0xa5;
    AccountAddress::new(bytes)
}

fn payload() -> TransactionPayload {
    TransactionPayload::new(vec![3, 1, 4, 1, 5, 9, 2, 6])
}

/// A private key that signs with the sequence number of the message in every
/// byte, so that a test can tell which message reached it.
struct MarkingKey;

impl SigningKey for MarkingKey {
    fn sign(&self, message: &RawTransaction) -> Ed25519Signature {
        Ed25519Signature::new([message.sequence_number() as u8; 64])
    }
}

/// A signer that always fails.
struct BrokenSigner;

impl TransactionSigner for BrokenSigner {
    fn sign_txn(&self, _raw_txn: RawTransaction) -> Result<SignedTransaction, SigningError> {
        Err(SigningError::new("key is locked".to_string()))
    }
}

fn key_pair() -> KeyPair<MarkingKey> {
    KeyPair { private_key: MarkingKey, public_key: Ed25519PublicKey::new([7u8; 32]) }
}

#[test]
fn unsigned_txn_at_keeps_every_field() {
    let txn = create_unsigned_txn_at(
        1_650_000_000,
        payload(),
        address(),
        42,
        1_000_000,
        3,
        "XUS".to_string(),
        600,
        ChainId::new(4),
    );
    assert_eq!(txn.sender(), address());
    assert_eq!(txn.sequence_number(), 42);
    assert_eq!(txn.payload(), &payload());
    assert_eq!(txn.max_gas_amount(), 1_000_000);
    assert_eq!(txn.gas_unit_price(), 3);
    assert_eq!(txn.gas_currency_code(), "XUS");
    assert_eq!(txn.expiration_timestamp_secs(), 1_650_000_600);
    assert_eq!(txn.chain_id(), ChainId::new(4));
    assert_eq!(txn.chain_id().id(), 4);
}

#[test]
fn unsigned_txn_at_equals_raw_transaction_new() {
    let built = create_unsigned_txn_at(
        100,
        payload(),
        address(),
        0,
        10,
        1,
        String::new(),
        20,
        ChainId::new(1),
    );
    let direct =
        RawTransaction::new(address(), 0, payload(), 10, 1, String::new(), 120, ChainId::new(1));
    assert_eq!(built, direct);
}

#[test]
fn expiration_with_zero_duration_is_now() {
    let txn = create_unsigned_txn_at(
        1_700_000_000,
        payload(),
        address(),
        0,
        0,
        0,
        "XUS".to_string(),
        0,
        ChainId::new(1),
    );
    assert_eq!(txn.expiration_timestamp_secs(), 1_700_000_000);
}

#[test]
fn expiration_with_negative_duration_lies_in_the_past() {
    let txn = create_unsigned_txn_at(
        1_700_000_000,
        payload(),
        address(),
        0,
        0,
        0,
        "XUS".to_string(),
        -100,
        ChainId::new(1),
    );
    assert_eq!(txn.expiration_timestamp_secs(), 1_699_999_900);
}

#[test]
fn expiration_of_a_sum_before_the_epoch_is_the_epoch() {
    let txn = create_unsigned_txn_at(
        10,
        payload(),
        address(),
        0,
        0,
        0,
        "XUS".to_string(),
        -11,
        ChainId::new(1),
    );
    assert_eq!(txn.expiration_timestamp_secs(), 0);
    let txn = create_unsigned_txn_at(
        i64::MIN,
        payload(),
        address(),
        0,
        0,
        0,
        "XUS".to_string(),
        0,
        ChainId::new(1),
    );
    assert_eq!(txn.expiration_timestamp_secs(), 0);
    let txn = create_unsigned_txn_at(
        -1,
        payload(),
        address(),
        0,
        0,
        0,
        "XUS".to_string(),
        1,
        ChainId::new(1),
    );
    assert_eq!(txn.expiration_timestamp_secs(), 0);
    let txn = create_unsigned_txn_at(
        -5,
        payload(),
        address(),
        0,
        0,
        0,
        "XUS".to_string(),
        7,
        ChainId::new(1),
    );
    assert_eq!(txn.expiration_timestamp_secs(), 2);
}

#[test]
fn a_duration_further_back_than_the_epoch_never_expires_after_the_call() {
    for duration in [i64::MIN, -i64::MAX, -4_000_000_000_000] {
        let txn = create_unsigned_txn(
            payload(),
            address(),
            0,
            0,
            0,
            "XUS".to_string(),
            duration,
            ChainId::new(1),
        );
        let call_end = chrono::Utc::now().timestamp();
        assert_eq!(txn.expiration_timestamp_secs(), 0);
        assert!(txn.expiration_timestamp_secs() <= call_end as u64);
    }
}

#[test]
fn expiration_of_a_sum_beyond_i64_is_the_sum() {
    let txn = create_unsigned_txn_at(
        i64::MAX,
        payload(),
        address(),
        0,
        0,
        0,
        "XUS".to_string(),
        1,
        ChainId::new(1),
    );
    assert_eq!(txn.expiration_timestamp_secs(), 1u64 << 63);
    let txn = create_unsigned_txn_at(
        i64::MAX,
        payload(),
        address(),
        0,
        0,
        0,
        "XUS".to_string(),
        i64::MAX,
        ChainId::new(1),
    );
    assert_eq!(txn.expiration_timestamp_secs(), u64::MAX - 1);
    let txn = create_unsigned_txn_at(
        i64::MIN,
        payload(),
        address(),
        0,
        0,
        0,
        "XUS".to_string(),
        i64::MIN,
        ChainId::new(1),
    );
    assert_eq!(txn.expiration_timestamp_secs(), 0);
}

#[test]
fn expiration_less_duration_lies_within_the_call() {
    let duration: i64 = 600;
    let call_start = chrono::Utc::now().timestamp();
    let txn = create_unsigned_txn(
        payload(),
        address(),
        7,
        1_000_000,
        1,
        "XUS".to_string(),
        duration,
        ChainId::new(4),
    );
    let call_end = chrono::Utc::now().timestamp();
    let read = txn.expiration_timestamp_secs() as i64 - duration;
    assert!(call_start <= read && read <= call_end);
    assert_eq!(txn.sender(), address());
    assert_eq!(txn.sequence_number(), 7);
    assert_eq!(txn.payload(), &payload());
    assert_eq!(txn.max_gas_amount(), 1_000_000);
    assert_eq!(txn.gas_unit_price(), 1);
    assert_eq!(txn.gas_currency_code(), "XUS");
    assert_eq!(txn.chain_id().id(), 4);
}

#[test]
fn key_pair_binds_the_raw_transaction_unchanged() {
    let raw = create_unsigned_txn_at(
        1_000,
        payload(),
        address(),
        9,
        500,
        2,
        "XUS".to_string(),
        30,
        ChainId::new(4),
    );
    let signed = key_pair().sign_txn(raw.clone()).unwrap();
    assert_eq!(signed.raw_txn(), &raw);
    assert_eq!(signed.public_key(), Ed25519PublicKey::new([7u8; 32]));
    assert_eq!(signed.signature(), Ed25519Signature::new([9u8; 64]));
    assert_eq!(signed.clone().into_raw_transaction(), raw);
}

#[test]
fn signed_transaction_holds_what_it_was_made_of() {
    let raw =
        RawTransaction::new(address(), 1, payload(), 2, 3, "XUS".to_string(), 4, ChainId::new(5));
    let key = Ed25519PublicKey::new([1u8; 32]);
    let signature = Ed25519Signature::new([2u8; 64]);
    let signed = SignedTransaction::new(raw.clone(), key, signature);
    assert_eq!(signed.raw_txn(), &raw);
    assert_eq!(signed.public_key().to_bytes(), [1u8; 32]);
    assert_eq!(signed.signature().to_bytes(), [2u8; 64]);
    assert_eq!(signed.raw_txn().sender().to_bytes(), address().to_bytes());
    assert_eq!(signed.raw_txn().payload().as_bytes(), &vec![3, 1, 4, 1, 5, 9, 2, 6]);
    assert_eq!(payload().into_bytes(), vec![3, 1, 4, 1, 5, 9, 2, 6]);
}

#[test]
fn user_txn_at_is_the_unsigned_txn_signed() {
    let signed = create_user_txn_at(
        &key_pair(),
        1_650_000_000,
        payload(),
        address(),
        42,
        1_000_000,
        3,
        "XUS".to_string(),
        600,
        ChainId::new(4),
    )
    .unwrap();
    let raw = create_unsigned_txn_at(
        1_650_000_000,
        payload(),
        address(),
        42,
        1_000_000,
        3,
        "XUS".to_string(),
        600,
        ChainId::new(4),
    );
    assert_eq!(signed.raw_txn(), &raw);
    assert_eq!(signed.public_key(), Ed25519PublicKey::new([7u8; 32]));
    assert_eq!(signed.signature(), Ed25519Signature::new([42u8; 64]));
}

#[test]
fn user_txn_expires_after_the_call() {
    let duration: i64 = 30;
    let call_start = chrono::Utc::now().timestamp();
    let signed = create_user_txn(
        &key_pair(),
        payload(),
        address(),
        5,
        100,
        1,
        "XUS".to_string(),
        duration,
        ChainId::new(4),
    )
    .unwrap();
    let call_end = chrono::Utc::now().timestamp();
    let read = signed.raw_txn().expiration_timestamp_secs() as i64 - duration;
    assert!(call_start <= read && read <= call_end);
    assert_eq!(signed.raw_txn().sequence_number(), 5);
    assert_eq!(signed.signature(), Ed25519Signature::new([5u8; 64]));
}

#[test]
fn user_txn_hands_on_the_signers_failure() {
    let failed = create_user_txn(
        &BrokenSigner,
        payload(),
        address(),
        5,
        100,
        1,
        "XUS".to_string(),
        30,
        ChainId::new(4),
    );
    assert_eq!(failed, Err(SigningError::new("key is locked".to_string())));
    assert_eq!(failed.unwrap_err().reason(), "key is locked");
}

#[test]
fn user_txn_takes_a_signer_of_unknown_size() {
    let pair = key_pair();
    let signer: &dyn TransactionSigner = &pair;
    let signed = create_user_txn_at(
        signer,
        50,
        payload(),
        address(),
        1,
        100,
        1,
        "XUS".to_string(),
        10,
        ChainId::new(4),
    )
    .unwrap();
    assert_eq!(signed.raw_txn().expiration_timestamp_secs(), 60);
    let broken: &dyn TransactionSigner = &BrokenSigner;
    let failed = create_user_txn(
        broken,
        payload(),
        address(),
        1,
        100,
        1,
        "XUS".to_string(),
        10,
        ChainId::new(4),
    );
    assert!(failed.is_err());
}
