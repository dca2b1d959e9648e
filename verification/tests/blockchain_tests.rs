use pqcrypto_dilithium::dilithium5;
use pqcrypto_traits::sign::{DetachedSignature as _, PublicKey as _};
use quantum_blockchain::block::Block;
use quantum_blockchain::blockchain::Blockchain;
use quantum_blockchain::secure_transaction::SecureTransaction;
use quantum_blockchain::smart_contract::SmartContract;
use quantum_blockchain::strutil::{i64_to_string, str_eq, u64_to_string};
use quantum_blockchain::transaction::Transaction;
use quantum_blockchain::validacao::{validar_formato_endereco, validar_transacao, TransacaoErro};
use quantum_blockchain::transaction_error::TransactionError;

fn hex_address(fill: char) -> String {
    let mut s = String::from("0x");
    for _ in 0..40 {
        s.push(fill);
    }
    s
}

fn plain_transaction(from: &str, to: &str, amount: u64, nonce: u64) -> Transaction {
    Transaction {
        token_id: 0,
        from: from.to_string(),
        to: to.to_string(),
        amount,
        timestamp: std::time::SystemTime::now()
            .duration_since(std::time::UNIX_EPOCH)
            .unwrap()
            .as_secs() as i64,
        nonce,
        public_key: Vec::new(),
        signature: Vec::new(),
        transaction_hash: Vec::new(),
    }
}

#[test]
fn new_chain_holds_the_quantum_secure_token() {
    let chain = Blockchain::new();
    let token = chain.get_token("0").unwrap();
    assert_eq!(token.name, "Quantum Secure Token");
    assert_eq!(token.symbol, "QST");
    assert_eq!(token.total_supply, 1_000_000);
    assert_eq!(token.creator, "system");
    assert_eq!(token.balance_of("system"), 1_000_000);
    assert_eq!(token.balance_of("nobody"), 0);
    assert_eq!(chain.next_token_id, 1);
    assert!(chain.get_token("1").is_none());
}

#[test]
fn create_token_hands_back_decimal_ids() {
    let mut chain = Blockchain::new();
    let id = chain
        .create_token("MyToken".to_string(), "MTK".to_string(), 500, "alice".to_string())
        .unwrap();
    assert_eq!(id, "1");
    let token = chain.get_token("1").unwrap();
    assert_eq!(token.symbol, "MTK");
    assert_eq!(token.balance_of("alice"), 500);
    let id = chain
        .create_token("Other".to_string(), "OTR".to_string(), 7, "bob".to_string())
        .unwrap();
    assert_eq!(id, "2");
    assert_eq!(chain.next_token_id, 3);
}

#[test]
fn add_staker_accumulates() {
    let mut chain = Blockchain::new();
    chain.add_staker("staker-1".to_string(), 40);
    chain.add_staker("staker-1".to_string(), 2);
    chain.add_staker("staker-2".to_string(), 9);
    assert_eq!(chain.stakers.len(), 2);
    let s1 = chain.stakers.iter().find(|s| s.address == "staker-1").unwrap();
    assert_eq!(s1.amount, 42);
}

#[test]
fn address_format_follows_the_hex_rule() {
    assert!(validar_formato_endereco(&hex_address('a')));
    assert!(validar_formato_endereco(&hex_address('F')));
    assert!(!validar_formato_endereco(&hex_address('g')));
    assert!(!validar_formato_endereco("0x1234"));
    assert!(!validar_formato_endereco(&("1x".to_string() + &"a".repeat(40))));
}

#[test]
fn validar_transacao_walks_the_error_ladder() {
    let mut chain = Blockchain::new();
    let from = hex_address('a');
    let to = hex_address('b');

    let bad_addr = plain_transaction("nope", &to, 10, 1);
    assert!(matches!(
        validar_transacao(&bad_addr, &chain, 0),
        Err(TransacaoErro::EnderecoInvalido)
    ));

    let mut no_token = plain_transaction(&from, &to, 10, 1);
    no_token.token_id = 9;
    assert!(matches!(
        validar_transacao(&no_token, &chain, 0),
        Err(TransacaoErro::TokenNaoEncontrado)
    ));

    // the sender holds nothing of token 0
    let broke = plain_transaction(&from, &to, 10, 1);
    assert!(matches!(
        validar_transacao(&broke, &chain, 0),
        Err(TransacaoErro::SaldoInsuficiente)
    ));

    // give the sender a balance through a token the sender created
    let id = chain
        .create_token("T".to_string(), "T".to_string(), 100, from.clone())
        .unwrap();
    assert_eq!(id, "1");
    let mut wrong_nonce = plain_transaction(&from, &to, 10, 5);
    wrong_nonce.token_id = 1;
    assert!(matches!(
        validar_transacao(&wrong_nonce, &chain, 0),
        Err(TransacaoErro::NonceInvalido)
    ));

    let mut zero = plain_transaction(&from, &to, 0, 1);
    zero.token_id = 1;
    assert!(matches!(
        validar_transacao(&zero, &chain, 0),
        Err(TransacaoErro::ValorInvalido)
    ));

    let mut stale = plain_transaction(&from, &to, 10, 1);
    stale.token_id = 1;
    stale.timestamp = 0;
    assert!(matches!(
        validar_transacao(&stale, &chain, 0),
        Err(TransacaoErro::TimestampInvalido)
    ));

    let mut good = plain_transaction(&from, &to, 10, 1);
    good.token_id = 1;
    assert!(validar_transacao(&good, &chain, 0).is_ok());
}

#[test]
fn adicionar_transacao_advances_nonce_and_queues() {
    let mut chain = Blockchain::new();
    let from = hex_address('c');
    let to = hex_address('d');
    chain
        .create_token("T".to_string(), "T".to_string(), 100, from.clone())
        .unwrap();
    let mut t = plain_transaction(&from, &to, 10, 1);
    t.token_id = 1;
    chain.adicionar_transacao(t).unwrap();
    assert_eq!(chain.pending_transactions.len(), 1);
    // the same nonce again is now stale
    let mut again = plain_transaction(&from, &to, 10, 1);
    again.token_id = 1;
    assert!(matches!(
        chain.adicionar_transacao(again),
        Err(TransacaoErro::NonceInvalido)
    ));
    let mut next = plain_transaction(&from, &to, 10, 2);
    next.token_id = 1;
    chain.adicionar_transacao(next).unwrap();
    assert_eq!(chain.pending_transactions.len(), 2);
}

#[test]
fn validar_timestamp_bounds() {
    let now = std::time::SystemTime::now()
        .duration_since(std::time::UNIX_EPOCH)
        .unwrap()
        .as_secs() as i64;
    assert!(Blockchain::validar_timestamp(now).is_ok());
    assert!(matches!(
        Blockchain::validar_timestamp(0),
        Err(TransactionError::TimestampInvalid)
    ));
    assert!(matches!(
        Blockchain::validar_timestamp(now + 4000),
        Err(TransactionError::TimestampInvalid)
    ));
    assert!(Blockchain::validar_timestamp_at(100, 86_500).is_ok());
    assert!(Blockchain::validar_timestamp_at(99, 86_500).is_err());
}

#[test]
fn add_block_links_the_chain() {
    let mut chain = Blockchain::new();
    let t = plain_transaction(&hex_address('a'), &hex_address('b'), 10, 1);
    chain
        .add_block(vec![t], Vec::new(), "hash-one".to_string())
        .unwrap();
    assert_eq!(chain.chain.len(), 1);
    assert_eq!(chain.chain[0].index, 0);
    assert_eq!(chain.chain[0].previous_hash, "0");
    assert_eq!(chain.chain[0].hash, "hash-one");
    assert_eq!(chain.chain[0].transactions.len(), 1);
    chain
        .add_block(Vec::new(), Vec::new(), "hash-two".to_string())
        .unwrap();
    assert_eq!(chain.chain.len(), 2);
    assert_eq!(chain.chain[1].index, 1);
    assert_eq!(chain.chain[1].previous_hash, "hash-one");
}

#[test]
fn transacao_existe_finds_sealed_duplicates() {
    let mut chain = Blockchain::new();
    let t = plain_transaction(&hex_address('a'), &hex_address('b'), 10, 1);
    let duplicate = t.clone();
    assert!(!chain.transacao_existe(&duplicate));
    chain
        .add_block(vec![t], Vec::new(), "h".to_string())
        .unwrap();
    assert!(chain.transacao_existe(&duplicate));
    let other = plain_transaction(&hex_address('a'), &hex_address('b'), 10, 2);
    assert!(!chain.transacao_existe(&other));
}

#[test]
fn add_transaction_builds_and_queues() {
    let mut chain = Blockchain::new();
    chain
        .add_transaction("sender".to_string(), "receiver".to_string(), 25)
        .unwrap();
    assert_eq!(chain.pending_transactions.len(), 1);
    let t = &chain.pending_transactions[0];
    assert_eq!(t.from, "sender");
    assert_eq!(t.to, "receiver");
    assert_eq!(t.amount, 25);
    assert_eq!(t.nonce, 1);
    chain
        .add_transaction("sender".to_string(), "receiver".to_string(), 30)
        .unwrap();
    assert_eq!(chain.pending_transactions[1].nonce, 2);
}

#[test]
fn secure_transaction_round_trip() {
    let st = SecureTransaction::new("alice".to_string(), "bob".to_string(), 5, 1000, 1).unwrap();
    assert_eq!(st.verify().unwrap(), true);
    assert_eq!(st.signature.len(), 4627);
    assert_eq!(st.iv.len(), 24);
    assert_eq!(st.cipher_key.len(), 32);
}

#[test]
fn tampered_envelope_fails_verification() {
    let mut st =
        SecureTransaction::new("alice".to_string(), "bob".to_string(), 5, 1000, 1).unwrap();
    st.encrypted_data[3] ^= 0x01;
    assert!(matches!(
        st.verify(),
        Err(TransactionError::InvalidData(_))
    ));
}

#[test]
fn serialize_data_is_the_colon_frame() {
    let st = SecureTransaction::new("alice".to_string(), "bob".to_string(), 5, -7, 9).unwrap();
    let data = st.serialize_data().unwrap();
    assert_eq!(data, b"alice:bob:5:-7:9".to_vec());
}

#[test]
fn validar_assinatura_accepts_a_real_signature() {
    let (pk, sk) = dilithium5::keypair();
    let t = plain_transaction("sender-x", "receiver-y", 12, 1);
    let data = format!("{}:{}:{}:{}", t.from, t.to, t.amount, t.timestamp);
    let sig = dilithium5::detached_sign(data.as_bytes(), &sk);
    assert!(Blockchain::validar_assinatura(
        &t,
        pk.as_bytes(),
        sig.as_bytes()
    ));
    let other = plain_transaction("sender-x", "receiver-y", 13, 1);
    assert!(!Blockchain::validar_assinatura(
        &other,
        pk.as_bytes(),
        sig.as_bytes()
    ));
}

#[test]
fn block_constructor_carries_fields() {
    let b = Block::new(3, Vec::new(), vec![SmartContract::new(vec![0], "addr".to_string(), true)],
        "prev".to_string(), "this".to_string());
    assert_eq!(b.index, 3);
    assert_eq!(b.previous_hash, "prev");
    assert_eq!(b.hash, "this");
    assert!(b.validator_signature.is_none());
    assert_eq!(b.contracts[0].address, "addr");
    assert!(b.contracts[0].quantum_secure);
}

#[test]
fn string_helpers_behave() {
    assert!(str_eq("same", "same"));
    assert!(!str_eq("same", "sane"));
    assert!(!str_eq("same", "samee"));
    assert_eq!(u64_to_string(0), "0");
    assert_eq!(u64_to_string(90210), "90210");
    assert_eq!(i64_to_string(-42), "-42");
}

#[test]
fn sensitive_data_round_trip_holds() {
    let r = quantum_blockchain::funcoes_sensiveis::validar_dados_sensiveis(b"sensitive payload");
    assert_eq!(r.unwrap(), true);
    let r = quantum_blockchain::funcoes_sensiveis::validar_dados_sensiveis(b"");
    assert_eq!(r.unwrap(), true);
}
