//! Anchoring of reading fingerprints on the ledger: the memo that
//! carries a fingerprint, the signed transaction that embeds it, and the
//! search for it in the log of an executed transaction.

use solana_sdk::instruction::{AccountMeta, Instruction};
use solana_sdk::pubkey::Pubkey;
use solana_sdk::signature::Keypair;
use solana_sdk::signer::Signer;
use solana_sdk::transaction::Transaction;
use vstd::prelude::*;
use vstd::string::*;
use crate::crypto::{fingerprint, is_hex_digest, is_lower_hex, reading_hash};
use crate::db::SensorReading;

verus! {

/// Smallest balance, in lamports, that the signing wallet must exceed
/// before any submission is attempted (0.001 SOL).
pub const MIN_BALANCE_LAMPORTS: u64 = 1_000_000;

/// Number of bytes of a keypair: the secret seed, then the public key.
pub const KEYPAIR_LENGTH: usize = 64;

/// Number of bytes of a public key, and of the seed before it in a keypair.
pub const KEY_LENGTH: usize = 32;

/// Most bytes of data that an instruction can carry: its length is
/// written in 16 bits.
pub const MAX_INSTRUCTION_DATA: usize = 65_535;

/// Most accounts that an instruction may name here; with payer and
/// program they stay far below the 256 keys of a message.
pub const MAX_INSTRUCTION_ACCOUNTS: usize = 16;

/// Address of the memo program, `MemoSq4gqABAXKb96qnH8TysNcWxMyWCqXgDLGmfcHr`,
/// as the 32 bytes that the base 58 text stands for.
pub const MEMO_PROGRAM_ID: [u8; 32] = [
    5, 74, 83, 90, 153, 41, 33, 6, 77, 36, 232, 113, 96, 218, 56, 124,
    124, 53, 181, 221, 188, 146, 187, 129, 228, 31, 168, 64, 65, 5, 68, 141,
];

/// Why anchoring did not go through.
#[derive(Clone, Copy, Debug, PartialEq, Eq, Structural)]
pub enum AnchorError {
    /// The keypair text is no JSON array of bytes, or the bytes are no keypair.
    InvalidKeypair,
    /// The wallet does not hold the minimum balance.
    InsufficientBalance,
    /// The transaction could not be built and signed.
    Signing,
    /// The transaction reference is no signature.
    InvalidSignature,
    /// The ledger endpoint failed.
    Rpc,
}

/// An account that an instruction names, with what it may do.
#[derive(Clone, Copy, Debug)]
pub struct AccountRef {
    pub pubkey: [u8; 32],
    pub is_signer: bool,
    pub is_writable: bool,
}

/// An instruction for a program on the ledger, in plain values.
#[derive(Debug)]
pub struct LedgerInstruction {
    pub program_id: [u8; 32],
    pub accounts: Vec<AccountRef>,
    pub data: Vec<u8>,
}

/// A memo transaction, signed and ready to be sent.
///
/// The transaction crosses the boundary of the library as bytes, in the
/// `bincode` encoding that the ledger's endpoint takes; whoever sends it
/// decodes it with the same crate. This is the one use of `bincode`.
#[derive(Debug)]
pub struct SignedMemo {
    /// The transaction's first signature in base 58: its reference on the ledger.
    pub signature: String,
    /// The transaction in its binary encoding.
    pub transaction: Vec<u8>,
}

/// The service's wallet: the bytes of its long-lived keypair.
#[derive(Debug)]
pub struct SolanaClient {
    pub keypair: Vec<u8>,
}

/// The bytes that a JSON text lists, when it is an array of bytes.
pub uninterp spec fn json_byte_array(text: Seq<char>) -> Option<Seq<u8>>;

/// Whether bytes are an Ed25519 keypair: a seed followed by its public key.
pub uninterp spec fn ed25519_keypair(bytes: Seq<u8>) -> bool;

/// Signature and binary encoding of the transaction that carries one
/// instruction (program, accounts with their signer and writable marks,
/// data), paid for and signed by `keypair`, valid from `blockhash`;
/// `None` when the bytes are no keypair.
pub uninterp spec fn signed_transaction(
    keypair: Seq<u8>,
    program: Seq<u8>,
    accounts: Seq<(Seq<u8>, bool, bool)>,
    data: Seq<u8>,
    blockhash: Seq<u8>,
) -> Option<(Seq<char>, Seq<u8>)>;

/// Whether a text is a transaction signature in base 58.
pub uninterp spec fn base58_signature(text: Seq<char>) -> bool;

impl AccountRef {
    /// Key and marks as plain values.
    pub open spec fn content(self) -> (Seq<u8>, bool, bool) {
        (self.pubkey@, self.is_signer, self.is_writable)
    }
}

impl LedgerInstruction {
    /// The accounts as plain values, in order.
    pub open spec fn account_contents(self) -> Seq<(Seq<u8>, bool, bool)> {
        self.accounts@.map_values(|a: AccountRef| a.content())
    }

    /// Whether a keypair alone can sign a transaction with this
    /// instruction: the data fits, the accounts are few, and every
    /// account that must sign is the keypair's own public key.
    pub open spec fn signable_by(self, keypair: Seq<u8>) -> bool {
        &&& keypair.len() == KEYPAIR_LENGTH
        &&& self.data@.len() <= MAX_INSTRUCTION_DATA
        &&& self.accounts@.len() <= MAX_INSTRUCTION_ACCOUNTS
        &&& forall|i: int|
            0 <= i < self.accounts@.len() && (#[trigger] self.accounts@[i]).is_signer
                ==> self.accounts@[i].pubkey@ == keypair.subrange(
                KEY_LENGTH as int,
                KEYPAIR_LENGTH as int,
            )
    }

    /// The memo instruction of a wallet: for the memo program, with the
    /// wallet's public key as its one account, a signer that is not
    /// written to, and the memo's UTF-8 bytes as data.
    pub open spec fn is_memo_of(self, owner: Seq<u8>, memo: Seq<char>) -> bool {
        &&& self.program_id == MEMO_PROGRAM_ID
        &&& self.account_contents() == seq![(owner, true, false)]
        &&& self.data@ == vstd::utf8::encode_utf8(memo)
    }
}

/// The memo that anchors a digest: protocol name, version, digest.
pub open spec fn memo_text(digest: Seq<char>) -> Seq<char> {
    "pollution:v1:"@ + digest
}

/// The memo that anchors a reading.
pub open spec fn reading_memo(reading: SensorReading) -> Seq<char> {
    memo_text(fingerprint(reading))
}

/// Whether a wallet balance is enough to pay for submissions.
pub open spec fn balance_is_enough(balance: u64) -> bool {
    balance > MIN_BALANCE_LAMPORTS
}

/// Whether `needle` stands in `hay` at position `at`.
pub open spec fn occurs_at(needle: Seq<u8>, hay: Seq<u8>, at: int) -> bool {
    &&& 0 <= at
    &&& at + needle.len() <= hay.len()
    &&& hay.subrange(at, at + needle.len()) == needle
}

/// Whether `needle` stands somewhere in `hay`, byte for byte.
pub open spec fn occurs_in(needle: Seq<u8>, hay: Seq<u8>) -> bool {
    exists|at: int| occurs_at(needle, hay, at)
}

/// Whether one of the log lines holds the memo.
pub open spec fn logs_hold(logs: Seq<String>, memo: Seq<char>) -> bool {
    exists|k: int|
        0 <= k < logs.len() && occurs_in(
            vstd::utf8::encode_utf8(memo),
            vstd::utf8::encode_utf8(#[trigger] logs[k]@),
        )
}

/// Reads a JSON array of bytes with `serde_json::from_str`.
///
/// Trusted: the answer depends on the text alone.
#[verifier::external_body]
fn parse_byte_array(text: &str) -> (bytes: Option<Vec<u8>>)
    ensures
        match bytes {
            Some(b) => json_byte_array(text@) == Some(b@),
            None => json_byte_array(text@) is None,
        },
{
    serde_json::from_str::<Vec<u8>>(text).ok()
}

/// Asks `Keypair::try_from` whether bytes are a keypair.
///
/// Trusted: the answer depends on the bytes alone, and only 64 bytes
/// are accepted.
#[verifier::external_body]
fn keypair_is_valid(bytes: &[u8]) -> (ok: bool)
    ensures
        ok == ed25519_keypair(bytes@),
        ok ==> bytes@.len() == KEYPAIR_LENGTH,
{
    Keypair::try_from(bytes).is_ok()
}

/// Hands an instruction, value for value, to
/// `Transaction::new_signed_with_payer`, with the keypair as payer and
/// only signer, and encodes the transaction with `bincode::serialize`.
///
/// Trusted: the answer depends on the arguments alone, and there is one
/// exactly when `Keypair::try_from` takes the bytes. The `requires` leaves
/// out what makes the outside call unwind: data longer than its 16-bit
/// length, more keys than a message holds, a signer other than the payer.
#[verifier::external_body]
fn sign_instruction(keypair: &[u8], instruction: &LedgerInstruction, blockhash: &[u8; 32]) -> (signed:
    Option<(String, Vec<u8>)>)
    requires
        instruction.signable_by(keypair@),
    ensures
        match signed {
            Some(pair) => signed_transaction(
                keypair@,
                instruction.program_id@,
                instruction.account_contents(),
                instruction.data@,
                blockhash@,
            ) == Some((pair.0@, pair.1@)),
            None => signed_transaction(
                keypair@,
                instruction.program_id@,
                instruction.account_contents(),
                instruction.data@,
                blockhash@,
            ) is None,
        },
        signed is Some <==> ed25519_keypair(keypair@),
{
    let payer = Keypair::try_from(keypair).ok()?;
    let accounts = instruction.accounts.iter().map(|a| AccountMeta {
        pubkey: Pubkey::new_from_array(a.pubkey),
        is_signer: a.is_signer,
        is_writable: a.is_writable,
    }).collect();
    let program_id = Pubkey::new_from_array(instruction.program_id);
    let ix = Instruction { program_id, accounts, data: instruction.data.clone() };
    let recent = solana_sdk::hash::Hash::new_from_array(*blockhash);
    let tx = Transaction::new_signed_with_payer(&[ix], Some(&payer.pubkey()), &[&payer], recent);
    Some((tx.signatures[0].to_string(), bincode::serialize(&tx).ok()?))
}

/// Asks `Signature::from_str` whether a text is a signature.
///
/// Trusted: the answer depends on the text alone.
#[verifier::external_body]
fn signature_is_valid(text: &str) -> (ok: bool)
    ensures
        ok == base58_signature(text@),
{
    text.parse::<solana_sdk::signature::Signature>().is_ok()
}

/// The memo that anchors a digest.
pub fn memo_for(digest: &str) -> (memo: String)
    ensures
        memo@ == memo_text(digest@),
{
    let mut memo = String::from_str("pollution:v1:");
    memo.append(digest);
    memo
}

/// The public key inside the bytes of a keypair: its second half.
pub fn public_key_of(keypair: &Vec<u8>) -> (key: [u8; 32])
    requires
        keypair@.len() == KEYPAIR_LENGTH,
    ensures
        key@ == keypair@.subrange(KEY_LENGTH as int, KEYPAIR_LENGTH as int),
{
    let mut key = [0u8; 32];
    let mut i: usize = 0;
    while i < KEY_LENGTH
        invariant
            i <= KEY_LENGTH,
            keypair@.len() == KEYPAIR_LENGTH,
            forall|j: int| 0 <= j < i ==> key@[j] == keypair@[KEY_LENGTH + j],
        decreases KEY_LENGTH - i,
    {
        key[i] = keypair[KEY_LENGTH + i];
        i += 1;
    }
    assert(key@ =~= keypair@.subrange(KEY_LENGTH as int, KEYPAIR_LENGTH as int));
    key
}

/// Builds the memo instruction of a wallet.
pub fn memo_instruction(owner: [u8; 32], memo: &str) -> (instruction: LedgerInstruction)
    ensures
        instruction.is_memo_of(owner@, memo@),
        instruction.accounts@.len() == 1,
        instruction.accounts@[0].pubkey == owner,
        instruction.accounts@[0].is_signer,
        !instruction.accounts@[0].is_writable,
{
    let mut accounts: Vec<AccountRef> = Vec::new();
    accounts.push(AccountRef { pubkey: owner, is_signer: true, is_writable: false });
    let instruction = LedgerInstruction {
        program_id: MEMO_PROGRAM_ID,
        accounts,
        data: memo.as_bytes_vec(),
    };
    assert(instruction.account_contents() =~= seq![(owner@, true, false)]);
    instruction
}

/// A memo is written in ASCII, one byte to the character: 13 for the
/// tag and 64 for the digest.
pub proof fn lemma_memo_length(digest: Seq<char>)
    requires
        is_hex_digest(digest),
    ensures
        vstd::utf8::encode_utf8(memo_text(digest)).len() == 77,
{
    reveal_strlit("pollution:v1:");
    let memo = memo_text(digest);
    assert(memo.len() == 77);
    assert forall|i: int| 0 <= i < memo.len() implies '\0' <= #[trigger] memo[i] <= '\u{7f}' by {
        if i >= 13 {
            assert(memo[i] == digest[i - 13]);
            assert(is_lower_hex(digest[i - 13]));
        }
    }
    vstd::utf8::is_ascii_chars_encode_utf8(memo);
}

/// Whether `needle` stands in `hay` at position `at`.
fn matches_at(needle: &[u8], hay: &[u8], at: usize) -> (found: bool)
    requires
        at + needle@.len() <= hay@.len(),
    ensures
        found == occurs_at(needle@, hay@, at as int),
{
    let size: usize = hay.len();
    let mut k: usize = 0;
    while k < needle.len()
        invariant
            k <= needle@.len(),
            at + needle@.len() <= hay@.len(),
            hay@.len() == size,
            forall|j: int| 0 <= j < k ==> hay@[at + j] == needle@[j],
        decreases needle@.len() - k,
    {
        if hay[at + k] != needle[k] {
            proof {
                let window = hay@.subrange(at as int, at + needle@.len());
                assert(window[k as int] == hay@[at + k]);
            }
            return false;
        }
        k += 1;
    }
    proof {
        assert(hay@.subrange(at as int, at + needle@.len()) =~= needle@);
    }
    true
}

/// Searches `hay` for `needle`, byte for byte.
pub fn contains_bytes(needle: &[u8], hay: &[u8]) -> (found: bool)
    ensures
        found == occurs_in(needle@, hay@),
{
    if needle.len() > hay.len() {
        return false;
    }
    let last: usize = hay.len() - needle.len();
    let mut at: usize = 0;
    while at < last
        invariant
            last == hay@.len() - needle@.len(),
            at <= last,
            forall|j: int| 0 <= j < at ==> !occurs_at(needle@, hay@, j),
        decreases last - at,
    {
        if matches_at(needle, hay, at) {
            return true;
        }
        at += 1;
    }
    matches_at(needle, hay, last)
}

/// Searches the log lines of an executed transaction for a memo.
pub fn logs_contain(logs: &Vec<String>, memo: &str) -> (found: bool)
    ensures
        found == logs_hold(logs@, memo@),
{
    let needle = memo.as_bytes();
    let mut k: usize = 0;
    while k < logs.len()
        invariant
            k <= logs@.len(),
            needle@ == vstd::utf8::encode_utf8(memo@),
            forall|j: int|
                0 <= j < k ==> !occurs_in(needle@, vstd::utf8::encode_utf8(#[trigger] logs@[j]@)),
        decreases logs@.len() - k,
    {
        if contains_bytes(needle, logs[k].as_str().as_bytes()) {
            return true;
        }
        k += 1;
    }
    false
}

impl SolanaClient {
    /// What building the wallet from a keypair text gives: the bytes
    /// that the text lists, when they are a keypair.
    pub open spec fn keypair_of(text: Seq<char>) -> Option<Seq<u8>> {
        match json_byte_array(text) {
            Some(bytes) => if ed25519_keypair(bytes) {
                Some(bytes)
            } else {
                None
            },
            None => None,
        }
    }

    /// What signing the memo of a reading gives for this wallet: the
    /// transaction with the wallet's memo instruction, when the wallet
    /// holds a keypair.
    pub open spec fn signed(self, reading: SensorReading, blockhash: Seq<u8>) -> Option<
        (Seq<char>, Seq<u8>),
    > {
        if ed25519_keypair(self.keypair@) && self.keypair@.len() == KEYPAIR_LENGTH {
            signed_transaction(
                self.keypair@,
                MEMO_PROGRAM_ID@,
                seq![
                    (self.keypair@.subrange(KEY_LENGTH as int, KEYPAIR_LENGTH as int), true, false),
                ],
                vstd::utf8::encode_utf8(reading_memo(reading)),
                blockhash,
            )
        } else {
            None
        }
    }

    /// Holds the bytes as the wallet's keypair when `valid` says that
    /// they are one.
    pub fn with_keypair(bytes: Option<Vec<u8>>, valid: bool) -> (r: Result<Self, AnchorError>)
        ensures
            match r {
                Ok(client) => valid && bytes == Some(client.keypair),
                Err(e) => e == AnchorError::InvalidKeypair && (bytes is None || !valid),
            },
    {
        match bytes {
            Some(keypair) => {
                if valid {
                    Ok(SolanaClient { keypair })
                } else {
                    Err(AnchorError::InvalidKeypair)
                }
            },
            None => Err(AnchorError::InvalidKeypair),
        }
    }

    /// Builds the wallet from the JSON text of its keypair.
    pub fn new(keypair: &str) -> (r: Result<Self, AnchorError>)
        ensures
            match r {
                Ok(client) => Self::keypair_of(keypair@) == Some(client.keypair@)
                    && ed25519_keypair(client.keypair@) && client.keypair@.len()
                    == KEYPAIR_LENGTH,
                Err(e) => e == AnchorError::InvalidKeypair && Self::keypair_of(keypair@) is None,
            },
    {
        let bytes = parse_byte_array(keypair);
        let valid = match &bytes {
            Some(b) => keypair_is_valid(b.as_slice()),
            None => false,
        };
        Self::with_keypair(bytes, valid)
    }

    /// Decides whether the wallet's balance allows it to issue transactions.
    pub fn enough_balance(&self, balance: u64) -> (ok: bool)
        ensures
            ok == balance_is_enough(balance),
    {
        balance > MIN_BALANCE_LAMPORTS
    }

    /// Decides at startup whether the service may run, from what the
    /// ledger said about the wallet's balance.
    pub fn check_funds(&self, balance: Result<u64, AnchorError>) -> (r: Result<(), AnchorError>)
        ensures
            r == match balance {
                Ok(lamports) => if balance_is_enough(lamports) {
                    Ok::<(), AnchorError>(())
                } else {
                    Err(AnchorError::InsufficientBalance)
                },
                Err(e) => Err(e),
            },
    {
        match balance {
            Ok(lamports) => {
                if self.enough_balance(lamports) {
                    Ok(())
                } else {
                    Err(AnchorError::InsufficientBalance)
                }
            },
            Err(e) => Err(e),
        }
    }

    /// Packs what signing gave into a signed memo.
    pub fn package(signed: Option<(String, Vec<u8>)>) -> (r: Result<SignedMemo, AnchorError>)
        ensures
            match r {
                Ok(memo) => signed == Some((memo.signature, memo.transaction)),
                Err(e) => e == AnchorError::Signing && signed is None,
            },
    {
        match signed {
            Some((signature, transaction)) => Ok(SignedMemo { signature, transaction }),
            None => Err(AnchorError::Signing),
        }
    }

    /// Builds and signs the transaction that anchors a reading, valid
    /// from the given block hash. A wallet that holds a keypair always
    /// gets its transaction.
    pub fn submit(&self, sensor_reading: SensorReading, blockhash: &[u8; 32]) -> (r: Result<
        SignedMemo,
        AnchorError,
    >)
        ensures
            match r {
                Ok(memo) => self.signed(sensor_reading, blockhash@) == Some(
                    (memo.signature@, memo.transaction@),
                ),
                Err(e) => e == AnchorError::Signing && self.signed(sensor_reading, blockhash@)
                    is None,
            },
            r is Ok <==> ed25519_keypair(self.keypair@),
    {
        if !keypair_is_valid(self.keypair.as_slice()) {
            return Err(AnchorError::Signing);
        }
        let hash = reading_hash(sensor_reading);
        let memo_data = memo_for(hash.as_str());
        let instruction = memo_instruction(public_key_of(&self.keypair), memo_data.as_str());
        proof {
            lemma_memo_length(hash@);
        }
        let signed = sign_instruction(self.keypair.as_slice(), &instruction, blockhash);
        Self::package(signed)
    }

    /// What the outcome of sending a signed memo means for the caller:
    /// its reference once the ledger took it, an error otherwise.
    pub fn conclude(signed: SignedMemo, sent: Result<(), AnchorError>) -> (r: Result<
        String,
        AnchorError,
    >)
        ensures
            r == match sent {
                Ok(_) => Ok::<String, AnchorError>(signed.signature),
                Err(e) => Err(e),
            },
    {
        match sent {
            Ok(_) => Ok(signed.signature),
            Err(e) => Err(e),
        }
    }

    /// Checks a transaction reference before the ledger is asked for it.
    pub fn check_reference(signature: &str) -> (r: Result<(), AnchorError>)
        ensures
            r == if base58_signature(signature@) {
                Ok::<(), AnchorError>(())
            } else {
                Err(AnchorError::InvalidSignature)
            },
    {
        if signature_is_valid(signature) {
            Ok(())
        } else {
            Err(AnchorError::InvalidSignature)
        }
    }

    /// Decides whether an executed transaction anchors a reading: one of
    /// its log lines must hold the reading's memo. A transaction without
    /// a log anchors nothing.
    pub fn verify(&self, reading: SensorReading, logs: Option<&Vec<String>>) -> (found: bool)
        ensures
            found == match logs {
                Some(lines) => logs_hold(lines@, reading_memo(reading)),
                None => false,
            },
    {
        let hash = reading_hash(reading);
        let expected_memo = memo_for(hash.as_str());
        match logs {
            Some(lines) => logs_contain(lines, expected_memo.as_str()),
            None => false,
        }
    }
}

} // verus!
