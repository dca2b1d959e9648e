use pqcrypto_dilithium::dilithium5::{PublicKey, SecretKey};
use pqcrypto_traits::sign::PublicKey as _;
use quantum_blockchain::transaction::{generate_keys, NonceRegistry, Transaction};
use quantum_blockchain::transaction_error::TransactionError;

fn now_s() -> i64 {
    std::time::SystemTime::now()
        .duration_since(std::time::UNIX_EPOCH)
        .unwrap()
        .as_secs() as i64
}

fn create_valid_transaction() -> Result<(Transaction, SecretKey, PublicKey), TransactionError> {
    let (secret_key, public_key) = generate_keys()?;

    let mut transaction = Transaction::new(
        "a".repeat(32),
        "b".repeat(32),
        100,
        public_key.as_bytes().to_vec(),
    )?;

    transaction.sign(&secret_key)?;

    Ok((transaction, secret_key, public_key))
}

#[test]
fn test_transaction_validation() -> Result<(), TransactionError> {
    let (transaction, _, public_key) = create_valid_transaction()?;
    let mut nonce_registry = NonceRegistry::new();

    transaction.validate(&mut nonce_registry, now_s())?;
    transaction.verify(&public_key)?;

    Ok(())
}

#[test]
fn test_invalid_amount() -> Result<(), TransactionError> {
    let (mut transaction, secret_key, _) = create_valid_transaction()?;
    let mut nonce_registry = NonceRegistry::new();

    transaction.amount = 1_000_000_000 + 1;
    transaction.sign(&secret_key)?;

    assert!(matches!(
        transaction.validate(&mut nonce_registry, now_s()),
        Err(TransactionError::InvalidData(_))
    ));

    Ok(())
}

#[test]
fn test_replay_attack() -> Result<(), TransactionError> {
    let mut nonce_registry = NonceRegistry::new();
    let (transaction1, _secret_key, _) = create_valid_transaction()?;
    transaction1.validate(&mut nonce_registry, now_s())?;

    let transaction2 = transaction1.clone();
    assert!(matches!(
        transaction2.validate(&mut nonce_registry, now_s()),
        Err(TransactionError::NonceOverflow)
    ));
    Ok(())
}

#[test]
fn test_timestamp_validation() -> Result<(), TransactionError> {
    let (mut transaction, secret_key, _) = create_valid_transaction()?;

    transaction.timestamp = 0;
    transaction.sign(&secret_key)?;

    assert!(matches!(
        transaction.validate_timestamp(now_s()),
        Err(TransactionError::TimestampInvalid)
    ));

    Ok(())
}

#[test]
fn test_address_validation() -> Result<(), TransactionError> {
    let result = Transaction::new(
        "short".to_string(),
        "b".repeat(32),
        100,
        vec![0; 32],
    );

    assert!(matches!(
        result,
        Err(TransactionError::AddressFormatInvalid)
    ));

    Ok(())
}

#[test]
fn test_signature_size() -> Result<(), TransactionError> {
    let (transaction, _, public_key) = create_valid_transaction()?;

    assert_eq!(
        transaction.signature.len(),
        Transaction::get_expected_signature_size(),
        "Signature size mismatch"
    );

    transaction.verify(&public_key)?;

    Ok(())
}

#[test]
fn test_transaction_serialization() -> Result<(), TransactionError> {
    let (transaction, _, _) = create_valid_transaction()?;
    let data = transaction.serialize_for_signing()?;
    assert!(!data.is_empty());
    assert!(data.len() <= 131072);
    Ok(())
}

#[test]
fn test_signature_generation_and_size() -> Result<(), TransactionError> {
    let (mut transaction, secret_key, public_key) = create_valid_transaction()?;

    transaction.signature.clear();
    transaction.sign(&secret_key)?;

    assert_eq!(
        transaction.signature.len(),
        Transaction::get_expected_signature_size(),
        "Signature size mismatch"
    );

    transaction.verify(&public_key)?;
    Ok(())
}

#[test]
fn tampered_signature_fails_verification() {
    let (mut transaction, _, public_key) = create_valid_transaction().unwrap();
    transaction.signature[0] ^= 0xff;
    assert!(matches!(
        transaction.verify(&public_key),
        Err(TransactionError::InvalidSignature(_))
    ));
}

#[test]
fn wrong_key_fails_verification() {
    let (transaction, _, _) = create_valid_transaction().unwrap();
    let (_, other_public) = generate_keys().unwrap();
    assert!(matches!(
        transaction.verify(&other_public),
        Err(TransactionError::InvalidSignature(_))
    ));
}

#[test]
fn signing_frame_has_expected_text() {
    let (public_key, _secret) = {
        let (s, p) = generate_keys().map(|(s, p)| (s, p)).unwrap();
        (p, s)
    };
    let pk_bytes = public_key.as_bytes().to_vec();
    let transaction = Transaction::new("a".repeat(32), "b".repeat(32), 77, pk_bytes.clone()).unwrap();
    let frame = transaction.serialize_for_signing().unwrap();
    let expected_prefix = format!(
        "0:{}:{}:77:{}:1:",
        "a".repeat(32),
        "b".repeat(32),
        transaction.timestamp
    );
    assert!(frame.starts_with(expected_prefix.as_bytes()));
    assert!(frame.ends_with(&pk_bytes[..]));
}

#[test]
fn nonce_registry_requires_strict_progress() {
    let mut registry = NonceRegistry::new();
    registry.validate_nonce("addr-1", 5).unwrap();
    assert!(matches!(
        registry.validate_nonce("addr-1", 5),
        Err(TransactionError::NonceOverflow)
    ));
    registry.validate_nonce("addr-1", 6).unwrap();
    registry.validate_nonce("addr-2", 1).unwrap();
    assert!(matches!(
        registry.validate_nonce("addr-2", 0),
        Err(TransactionError::NonceOverflow)
    ));
}

#[test]
fn example_rejects_its_short_addresses() {
    assert!(matches!(
        quantum_blockchain::transaction::example(),
        Err(TransactionError::AddressFormatInvalid)
    ));
}
