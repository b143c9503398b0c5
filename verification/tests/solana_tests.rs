use pollution_tracker::crypto::reading_hash;
use pollution_tracker::db::{Measurement, SensorReading};
use pollution_tracker::solana::{
    contains_bytes, logs_contain, memo_for, memo_instruction, public_key_of, AnchorError,
    SignedMemo, SolanaClient, MEMO_PROGRAM_ID,
};
use solana_sdk::pubkey::Pubkey;
use pollution_tracker::time::Timestamp;
use solana_sdk::signature::{Keypair, Signature, Signer};
use solana_sdk::transaction::Transaction;
use std::str::FromStr;

fn reading() -> SensorReading {
    SensorReading {
        sensor_id: 7,
        timestamp: Timestamp { secs: 1_700_000_000, nanos: 0 },
        co2: Measurement::from_hundredths(500),
        temperature: Measurement::from_hundredths(2130),
    }
}

fn keypair_json(seed: u8) -> String {
    let bytes = Keypair::new_from_array([seed; 32]).to_bytes();
    let items: Vec<String> = bytes.iter().map(|b| b.to_string()).collect();
    format!("[{}]", items.join(","))
}

fn client(seed: u8) -> SolanaClient {
    SolanaClient::new(&keypair_json(seed)).unwrap()
}

#[test]
fn client_holds_the_bytes_of_its_keypair() {
    let c = client(1);
    assert_eq!(c.keypair, Keypair::new_from_array([1; 32]).to_bytes().to_vec());
    assert_eq!(c.keypair.len(), 64);
}

#[test]
fn client_rejects_text_that_is_no_byte_array() {
    assert_eq!(SolanaClient::new("").err(), Some(AnchorError::InvalidKeypair));
    assert_eq!(SolanaClient::new("not json").err(), Some(AnchorError::InvalidKeypair));
    assert_eq!(SolanaClient::new("{\"a\":1}").err(), Some(AnchorError::InvalidKeypair));
    assert_eq!(SolanaClient::new("[1,2,256]").err(), Some(AnchorError::InvalidKeypair));
    assert_eq!(SolanaClient::new("[1,-2]").err(), Some(AnchorError::InvalidKeypair));
}

#[test]
fn client_rejects_bytes_of_the_wrong_length() {
    assert_eq!(SolanaClient::new("[]").err(), Some(AnchorError::InvalidKeypair));
    assert_eq!(SolanaClient::new("[1,2,3]").err(), Some(AnchorError::InvalidKeypair));
    let mut bytes = Keypair::new_from_array([1; 32]).to_bytes().to_vec();
    bytes.push(0);
    let items: Vec<String> = bytes.iter().map(|b| b.to_string()).collect();
    let text = format!("[{}]", items.join(","));
    assert_eq!(SolanaClient::new(&text).err(), Some(AnchorError::InvalidKeypair));
}

#[test]
fn client_rejects_a_public_key_that_does_not_belong_to_the_seed() {
    let mut bytes = Keypair::new_from_array([1; 32]).to_bytes().to_vec();
    bytes[63] ^= 1;
    let items: Vec<String> = bytes.iter().map(|b| b.to_string()).collect();
    let text = format!("[{}]", items.join(","));
    assert_eq!(SolanaClient::new(&text).err(), Some(AnchorError::InvalidKeypair));
}

#[test]
fn with_keypair_by_cases() {
    assert_eq!(SolanaClient::with_keypair(Some(vec![1, 2]), true).unwrap().keypair, vec![1, 2]);
    assert_eq!(
        SolanaClient::with_keypair(Some(vec![1, 2]), false).err(),
        Some(AnchorError::InvalidKeypair)
    );
    assert_eq!(SolanaClient::with_keypair(None, true).err(), Some(AnchorError::InvalidKeypair));
    assert_eq!(SolanaClient::with_keypair(None, false).err(), Some(AnchorError::InvalidKeypair));
}

#[test]
fn balance_must_exceed_the_minimum() {
    let c = client(1);
    assert!(!c.enough_balance(0));
    assert!(!c.enough_balance(999_999));
    assert!(!c.enough_balance(1_000_000));
    assert!(c.enough_balance(1_000_001));
    assert!(c.enough_balance(u64::MAX));
}

#[test]
fn funds_are_checked_at_startup() {
    let c = client(1);
    assert_eq!(c.check_funds(Ok(1_000_001)), Ok(()));
    assert_eq!(c.check_funds(Ok(1_000_000)), Err(AnchorError::InsufficientBalance));
    assert_eq!(c.check_funds(Err(AnchorError::Rpc)), Err(AnchorError::Rpc));
}

#[test]
fn memo_is_tagged_with_protocol_and_version() {
    assert_eq!(memo_for("abc"), "pollution:v1:abc");
    assert_eq!(memo_for(""), "pollution:v1:");
    let digest = reading_hash(reading());
    assert_eq!(memo_for(&digest), format!("pollution:v1:{}", digest));
}

#[test]
fn memo_program_is_known_by_its_address() {
    assert_eq!(
        Pubkey::new_from_array(MEMO_PROGRAM_ID).to_string(),
        "MemoSq4gqABAXKb96qnH8TysNcWxMyWCqXgDLGmfcHr"
    );
    assert_eq!(
        Pubkey::from_str("MemoSq4gqABAXKb96qnH8TysNcWxMyWCqXgDLGmfcHr").unwrap().to_bytes(),
        MEMO_PROGRAM_ID
    );
}

#[test]
fn public_key_is_the_second_half_of_the_keypair() {
    let pair = Keypair::new_from_array([3; 32]);
    assert_eq!(public_key_of(&pair.to_bytes().to_vec()), pair.pubkey().to_bytes());
    let mut bytes = vec![0u8; 64];
    for (i, b) in bytes.iter_mut().enumerate() {
        *b = i as u8;
    }
    let key = public_key_of(&bytes);
    assert_eq!(key[0], 32);
    assert_eq!(key[31], 63);
}

#[test]
fn memo_instruction_names_program_signer_and_data() {
    let ix = memo_instruction([7u8; 32], "pollution:v1:abc");
    assert_eq!(ix.program_id, MEMO_PROGRAM_ID);
    assert_eq!(ix.accounts.len(), 1);
    assert_eq!(ix.accounts[0].pubkey, [7u8; 32]);
    assert!(ix.accounts[0].is_signer);
    assert!(!ix.accounts[0].is_writable);
    assert_eq!(ix.data, b"pollution:v1:abc");
    assert_eq!(memo_instruction([7u8; 32], "żółw").data, "żółw".as_bytes());
}

#[test]
fn submitted_transaction_names_the_wallet_as_read_only_signer() {
    let signed = client(3).submit(reading(), &[9u8; 32]).unwrap();
    let tx: Transaction = bincode::deserialize(&signed.transaction).unwrap();
    let ix = &tx.message.instructions[0];
    assert_eq!(ix.accounts, vec![0]);
    assert_eq!(tx.message.account_keys.len(), 2);
    assert_eq!(tx.message.account_keys[1].to_bytes(), MEMO_PROGRAM_ID);
    assert!(tx.message.is_signer(0));
    assert!(!tx.message.is_signer(1));
}

#[test]
fn submitted_transaction_carries_the_memo_of_the_reading() {
    let c = client(3);
    let blockhash = [9u8; 32];
    let signed = c.submit(reading(), &blockhash).unwrap();
    let tx: Transaction = bincode::deserialize(&signed.transaction).unwrap();
    let payer = Keypair::new_from_array([3; 32]).pubkey();
    assert_eq!(tx.message.instructions.len(), 1);
    let expected = format!("pollution:v1:{}", reading_hash(reading()));
    assert_eq!(tx.message.instructions[0].data, expected.as_bytes());
    assert_eq!(tx.message.account_keys[0], payer);
    let program = tx.message.account_keys[tx.message.instructions[0].program_id_index as usize];
    assert_eq!(program.to_string(), "MemoSq4gqABAXKb96qnH8TysNcWxMyWCqXgDLGmfcHr");
    assert_eq!(tx.message.recent_blockhash.to_bytes(), blockhash);
    assert_eq!(tx.message.header.num_required_signatures, 1);
}

#[test]
fn submitted_transaction_is_signed_by_the_wallet() {
    let c = client(3);
    let signed = c.submit(reading(), &[9u8; 32]).unwrap();
    let tx: Transaction = bincode::deserialize(&signed.transaction).unwrap();
    assert!(tx.verify().is_ok());
    assert_eq!(tx.signatures.len(), 1);
    assert_eq!(signed.signature, tx.signatures[0].to_string());
    let payer = Keypair::new_from_array([3; 32]);
    assert_eq!(tx.signatures[0], payer.sign_message(&tx.message_data()));
}

#[test]
fn signing_depends_on_reading_wallet_and_blockhash() {
    let first = client(3).submit(reading(), &[9u8; 32]).unwrap();
    let again = client(3).submit(reading(), &[9u8; 32]).unwrap();
    assert_eq!(first.signature, again.signature);
    assert_eq!(first.transaction, again.transaction);
    let mut other = reading();
    other.co2 = Measurement::from_hundredths(501);
    assert_ne!(client(3).submit(other, &[9u8; 32]).unwrap().signature, first.signature);
    assert_ne!(client(4).submit(reading(), &[9u8; 32]).unwrap().signature, first.signature);
    assert_ne!(client(3).submit(reading(), &[8u8; 32]).unwrap().signature, first.signature);
}

#[test]
fn submit_fails_without_a_valid_keypair() {
    let broken = SolanaClient { keypair: vec![1, 2, 3] };
    assert_eq!(broken.submit(reading(), &[0u8; 32]).err(), Some(AnchorError::Signing));
    let mut bytes = Keypair::new_from_array([3; 32]).to_bytes().to_vec();
    bytes[40] ^= 1;
    let mismatched = SolanaClient { keypair: bytes };
    assert_eq!(mismatched.submit(reading(), &[0u8; 32]).err(), Some(AnchorError::Signing));
    let empty = SolanaClient { keypair: Vec::new() };
    assert_eq!(empty.submit(reading(), &[0u8; 32]).err(), Some(AnchorError::Signing));
}

#[test]
fn a_wallet_that_was_accepted_always_signs() {
    for seed in 0..8u8 {
        let c = client(seed);
        assert!(c.submit(reading(), &[seed; 32]).is_ok());
    }
}

#[test]
fn package_by_cases() {
    let packed = SolanaClient::package(Some(("sig".to_string(), vec![1, 2]))).unwrap();
    assert_eq!(packed.signature, "sig");
    assert_eq!(packed.transaction, vec![1, 2]);
    assert_eq!(SolanaClient::package(None).err(), Some(AnchorError::Signing));
}

#[test]
fn conclude_by_cases() {
    let signed = SignedMemo { signature: "sig".to_string(), transaction: vec![] };
    assert_eq!(SolanaClient::conclude(signed, Ok(())), Ok("sig".to_string()));
    let signed = SignedMemo { signature: "sig".to_string(), transaction: vec![] };
    assert_eq!(SolanaClient::conclude(signed, Err(AnchorError::Rpc)), Err(AnchorError::Rpc));
}

#[test]
fn reference_must_be_a_signature() {
    let signed = client(3).submit(reading(), &[9u8; 32]).unwrap();
    assert_eq!(SolanaClient::check_reference(&signed.signature), Ok(()));
    assert!(Signature::from_str(&signed.signature).is_ok());
    assert_eq!(SolanaClient::check_reference(""), Err(AnchorError::InvalidSignature));
    assert_eq!(SolanaClient::check_reference("not-a-signature"), Err(AnchorError::InvalidSignature));
    assert_eq!(SolanaClient::check_reference("0OIl"), Err(AnchorError::InvalidSignature));
    let long = "1".repeat(89);
    assert_eq!(SolanaClient::check_reference(&long), Err(AnchorError::InvalidSignature));
}

#[test]
fn bytes_are_found_where_they_stand() {
    assert!(contains_bytes(b"", b""));
    assert!(contains_bytes(b"", b"abc"));
    assert!(contains_bytes(b"abc", b"abc"));
    assert!(contains_bytes(b"ab", b"abc"));
    assert!(contains_bytes(b"bc", b"abc"));
    assert!(contains_bytes(b"b", b"abc"));
    assert!(contains_bytes(b"aab", b"aaab"));
}

#[test]
fn bytes_are_not_found_where_they_do_not_stand() {
    assert!(!contains_bytes(b"a", b""));
    assert!(!contains_bytes(b"abcd", b"abc"));
    assert!(!contains_bytes(b"ac", b"abc"));
    assert!(!contains_bytes(b"ca", b"abc"));
    assert!(!contains_bytes(b"aab", b"abab"));
}

#[test]
fn logs_are_searched_line_by_line() {
    let logs = vec![
        "Program MemoSq4gqABAXKb96qnH8TysNcWxMyWCqXgDLGmfcHr invoke [1]".to_string(),
        "Program log: Memo (len 77): \"pollution:v1:abc\"".to_string(),
        "Program MemoSq4gqABAXKb96qnH8TysNcWxMyWCqXgDLGmfcHr success".to_string(),
    ];
    assert!(logs_contain(&logs, "pollution:v1:abc"));
    assert!(logs_contain(&logs, "success"));
    assert!(!logs_contain(&logs, "pollution:v1:abd"));
    assert!(!logs_contain(&logs, "invoke [1]Program log"));
    assert!(!logs_contain(&Vec::new(), "x"));
    assert!(!logs_contain(&Vec::new(), ""));
}

#[test]
fn verify_finds_the_memo_of_the_reading_in_the_log() {
    let c = client(3);
    let memo = format!("pollution:v1:{}", reading_hash(reading()));
    let logs = vec![
        "Program MemoSq4gqABAXKb96qnH8TysNcWxMyWCqXgDLGmfcHr invoke [1]".to_string(),
        format!("Program log: Memo (len {}): \"{}\"", memo.len(), memo),
    ];
    assert!(c.verify(reading(), Some(&logs)));
    let mut other = reading();
    other.temperature = Measurement::from_hundredths(2131);
    assert!(!c.verify(other, Some(&logs)));
}

#[test]
fn verify_finds_nothing_without_a_log() {
    let c = client(3);
    assert!(!c.verify(reading(), None));
    assert!(!c.verify(reading(), Some(&Vec::new())));
    let unrelated = vec!["Program log: hello".to_string()];
    assert!(!c.verify(reading(), Some(&unrelated)));
}

#[test]
fn verify_needs_the_whole_memo() {
    let c = client(3);
    let memo = format!("pollution:v1:{}", reading_hash(reading()));
    let cut = vec![memo[..memo.len() - 1].to_string()];
    assert!(!c.verify(reading(), Some(&cut)));
    let whole = vec![memo];
    assert!(c.verify(reading(), Some(&whole)));
}
