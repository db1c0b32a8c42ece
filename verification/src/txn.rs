//! The transaction builder: one signed, wire-encoded value transfer.
//!
//! Building is deterministic — ed25519 signing, the binary serialization,
//! and the base58 rendering are all functions of the inputs — so the encoded
//! transaction and its identifying signature are named as functions of the
//! signer's secret, the amount, the recipient, and the block reference.

use vstd::prelude::*;

use crate::errors::{Error, ErrorKind};
use crate::wallet::Wallet;

verus! {

/// A wire-ready transaction: its base58-encoded bytes and the base58 of the
/// signature that identifies it.
#[derive(Debug)]
pub struct SimpleTransaction {
    pub transaction: String,
    pub signature: String,
}

/// The base58-encoded wire bytes of the signed transfer of `lamports` from
/// the wallet with secret key `secret` to `recipient`, authorized against
/// `blockhash`. Deterministic in all four inputs.
pub uninterp spec fn transfer_transaction_of(
    secret: Seq<u8>,
    lamports: u64,
    recipient: Seq<u8>,
    blockhash: Seq<u8>,
) -> Seq<char>;

/// The base58-encoded signature identifying that same transfer.
pub uninterp spec fn transfer_signature_of(
    secret: Seq<u8>,
    lamports: u64,
    recipient: Seq<u8>,
    blockhash: Seq<u8>,
) -> Seq<char>;

/// Relies on `solana_system_interface::instruction::transfer`,
/// `solana_sdk::transaction::Transaction::{new_with_payer, sign}` (ed25519
/// signing is deterministic), `bincode::serialize`, and `bs58::encode`: the
/// transfer they build of given inputs is one fixed transaction.
#[verifier::external_body]
fn build_transfer_raw(
    secret: &[u8; 32],
    lamports: u64,
    recipient: &Vec<u8>,
    blockhash: &Vec<u8>,
) -> (t: SimpleTransaction)
    requires
        recipient@.len() == 32,
        blockhash@.len() == 32,
    ensures
        t.transaction@ == transfer_transaction_of(secret@, lamports, recipient@, blockhash@),
        t.signature@ == transfer_signature_of(secret@, lamports, recipient@, blockhash@),
{
    let wallet = solana_sdk::signature::Keypair::new_from_array(*secret);
    let payer = solana_sdk::signer::Signer::pubkey(&wallet);
    let mut to_bytes = [0u8; 32];
    to_bytes.copy_from_slice(recipient);
    let to = solana_sdk::pubkey::Pubkey::new_from_array(to_bytes);
    let mut hash_bytes = [0u8; 32];
    hash_bytes.copy_from_slice(blockhash);
    let hash = solana_sdk::hash::Hash::new_from_array(hash_bytes);
    let ix = solana_system_interface::instruction::transfer(&payer, &to, lamports);
    let mut transaction = solana_sdk::transaction::Transaction::new_with_payer(&[ix], Some(&payer));
    transaction.sign(&[&wallet], hash);
    let signature = transaction.signatures[0].to_string();
    let serialized = bincode::serialize(&transaction).expect("serialize transfer");
    let encoded = bs58::encode(serialized).into_string();
    SimpleTransaction { transaction: encoded, signature }
}

/// Build and sign the transfer of `lamports` from `wallet` to the 32-byte
/// `recipient` address, authorized against the 32-byte `blockhash`.
pub fn build_sol_transfer(
    wallet: &Wallet,
    lamports: u64,
    to_pubkey: &Vec<u8>,
    blockhash: &Vec<u8>,
) -> (t: SimpleTransaction)
    requires
        to_pubkey@.len() == 32,
        blockhash@.len() == 32,
    ensures
        t.transaction@ == transfer_transaction_of(
            wallet.secret_key@,
            lamports,
            to_pubkey@,
            blockhash@,
        ),
        t.signature@ == transfer_signature_of(
            wallet.secret_key@,
            lamports,
            to_pubkey@,
            blockhash@,
        ),
{
    build_transfer_raw(&wallet.secret_key, lamports, to_pubkey, blockhash)
}

/// Whether `c` belongs to the base58 alphabet (the Bitcoin alphabet, which
/// leaves out `0`, `O`, `I`, and `l`).
pub open spec fn spec_is_base58_char(c: char) -> bool {
    ('1' <= c && c <= '9') || ('A' <= c && c <= 'Z' && c != 'I' && c != 'O') || ('a' <= c && c
        <= 'z' && c != 'l')
}

/// The bytes a base58 string decodes to.
pub uninterp spec fn base58_bytes_of(s: Seq<char>) -> Seq<u8>;

/// Relies on `bs58::decode(..).into_vec()`: it succeeds exactly when every
/// character belongs to the base58 alphabet, and its result is the decoded
/// bytes.
#[verifier::external_body]
fn base58_decode(s: &str) -> (r: Option<Vec<u8>>)
    ensures
        r is Some <==> (forall|i: int| 0 <= i < s@.len() ==> spec_is_base58_char(#[trigger] s@[i])),
        r matches Some(v) ==> v@ == base58_bytes_of(s@),
{
    bs58::decode(s).into_vec().ok()
}

/// Check that `s` is a well-formed 32-byte base58 value — an address or a
/// block reference — and hand back its bytes. Rejected exactly when a
/// character falls outside the base58 alphabet or the decoded value is not
/// 32 bytes long.
pub fn decode_address(s: &str) -> (r: Result<Vec<u8>, Error>)
    ensures
        r is Ok <==> ((forall|i: int|
            0 <= i < s@.len() ==> spec_is_base58_char(#[trigger] s@[i])) && base58_bytes_of(
            s@,
        ).len() == 32),
        r matches Ok(v) ==> (v@ == base58_bytes_of(s@) && v@.len() == 32),
        r matches Err(e) ==> e.spec_kind() == ErrorKind::Usage,
{
    let bytes = match base58_decode(s) {
        Some(b) => b,
        None => {
            return Err(Error::new(
                ErrorKind::Usage,
                String::from_str("not a base58 string"),
            ));
        },
    };
    if bytes.len() != 32 {
        return Err(Error::new(
            ErrorKind::Usage,
            String::from_str("base58 value is not 32 bytes"),
        ));
    }
    Ok(bytes)
}

} // verus!
