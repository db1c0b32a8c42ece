//! The request and response shapes of the HTTP endpoints, and the decisions
//! each endpoint makes over plain values: validating amounts and addresses,
//! and assembling response payloads. Routing, status codes, and JSON live
//! outside the library.

use vstd::prelude::*;

use crate::errors::{Error, ErrorKind};
use crate::funding::FundingJob;
use crate::numeric::{format_u128, format_u64, parse_u64, spec_decimal, spec_decimal_value,
    spec_is_digit};
use crate::rpc::{spec_account_balance, RpcAccount};
use crate::txn::{base58_bytes_of, spec_is_base58_char};

verus! {

/// Ask for value to be collected from `source_pubkeys` into `destination`.
pub struct CollectSolRequest {
    pub lamports: String,
    pub source_pubkeys: Vec<String>,
    pub destination: String,
}

/// The collect endpoint's success payload.
pub struct CollectSolResponse {
    pub message: String,
}

/// Ask for a funding job giving each wallet this many lamports.
pub struct InitiateFundingRequest {
    pub lamports_per_wallet: String,
}

/// The job half of an initiation response: where to send the funds and how
/// much the job requires.
pub struct JobProperty {
    pub funding_wallet_pubkey: String,
    pub total_funding_lamports: String,
}

/// The initiate endpoint's success payload.
pub struct InitiateFundingResponse {
    pub message: String,
    pub job: JobProperty,
}

/// The complete endpoint's success payload.
pub struct CompleteFundingResponse {
    pub message: String,
}

/// Ask for this many fresh wallets.
pub struct CreateWalletRequest {
    pub count: u16,
}

/// The create endpoint's success payload.
pub struct CreateWalletResponse {
    pub message: String,
    pub pubkeys: Vec<String>,
}

/// Paging parameters of the listing endpoint.
pub struct ListWalletsRequest {
    pub page: u16,
    pub page_size: u16,
}

impl Default for ListWalletsRequest {
    /// The first page, sized to return everything at once.
    fn default() -> (r: Self)
        ensures
            r.page == 1,
            r.page_size == 999,
    {
        ListWalletsRequest { page: 1, page_size: 999 }
    }
}

/// The listing endpoint's success payload.
pub struct ListWalletsResponse {
    pub message: String,
    pub wallets: Vec<ListWalletResponseWallet>,
}

/// One listed wallet: its address and its balance, rendered in decimal.
pub struct ListWalletResponseWallet {
    pub pubkey: String,
    pub sol_lamports: String,
}

/// Everything a collect request must get right before any I/O: a decimal
/// lamport amount and a well-formed destination address. Returns the parsed
/// amount and the destination's 32 bytes. The amount is checked first, as
/// the endpoint answers in that order.
pub fn validate_collect_request(req: &CollectSolRequest) -> (r: Result<(u64, Vec<u8>), Error>)
    ensures
        r is Ok <==> ({
            &&& req.lamports@.len() > 0
            &&& forall|i: int|
                0 <= i < req.lamports@.len() ==> spec_is_digit(#[trigger] req.lamports@[i])
            &&& spec_decimal_value(req.lamports@) <= u64::MAX
            &&& forall|i: int|
                0 <= i < req.destination@.len() ==> spec_is_base58_char(
                    #[trigger] req.destination@[i],
                )
            &&& base58_bytes_of(req.destination@).len() == 32
        }),
        r matches Ok(v) ==> (v.0 == spec_decimal_value(req.lamports@) && v.1@ == base58_bytes_of(
            req.destination@,
        )),
        r matches Err(e) ==> e.spec_kind() == ErrorKind::Usage,
{
    let lamports = match parse_u64(req.lamports.as_str()) {
        Ok(v) => v,
        Err(e) => {
            return Err(e);
        },
    };
    let destination = match crate::txn::decode_address(req.destination.as_str()) {
        Ok(v) => v,
        Err(e) => {
            return Err(e);
        },
    };
    Ok((lamports, destination))
}

/// The listing shown for wallets and their balances: one entry per account
/// answered, in order, paired with its address; an account the chain does
/// not know is listed with a zero balance. Addresses beyond the answered
/// accounts are not listed, and accounts beyond the known addresses are
/// dropped.
pub fn build_wallet_listing(pubkeys: &Vec<String>, accounts: &Vec<Option<RpcAccount>>) -> (r: Vec<
    ListWalletResponseWallet,
>)
    ensures
        r@.len() == (if accounts@.len() <= pubkeys@.len() {
            accounts@.len()
        } else {
            pubkeys@.len()
        }),
        forall|i: int|
            0 <= i < r@.len() ==> {
                &&& (#[trigger] r@[i]).pubkey@ == pubkeys@[i]@
                &&& r@[i].sol_lamports@ == spec_decimal(
                    spec_account_balance(accounts@[i]) as int,
                )
            },
{
    let mut r: Vec<ListWalletResponseWallet> = Vec::new();
    let mut i: usize = 0;
    let n = accounts.len();
    let limit = if n <= pubkeys.len() {
        n
    } else {
        pubkeys.len()
    };
    while i < limit
        invariant
            n == accounts@.len(),
            limit <= accounts@.len(),
            limit <= pubkeys@.len(),
            limit == (if accounts@.len() <= pubkeys@.len() {
                accounts@.len()
            } else {
                pubkeys@.len()
            }),
            i <= limit,
            r@.len() == i,
            forall|k: int|
                0 <= k < i ==> {
                    &&& (#[trigger] r@[k]).pubkey@ == pubkeys@[k]@
                    &&& r@[k].sol_lamports@ == spec_decimal(
                        spec_account_balance(accounts@[k]) as int,
                    )
                },
        decreases limit - i,
    {
        let balance = match &accounts[i] {
            Some(acc) => acc.lamports,
            None => 0,
        };
        r.push(ListWalletResponseWallet {
            pubkey: pubkeys[i].clone(),
            sol_lamports: format_u64(balance),
        });
        i = i + 1;
    }
    r
}

/// The payload answering a successful initiation: the address to fund and
/// the exact total the job requires, rendered in decimal.
pub fn initiate_funding_response(job: &FundingJob) -> (r: InitiateFundingResponse)
    ensures
        r.job.funding_wallet_pubkey@ == job.distro_wallet.pubkey@,
        r.job.total_funding_lamports@ == spec_decimal(job.total_funding_lamports as int),
{
    InitiateFundingResponse {
        message: String::from_str("Initiated funding."),
        job: JobProperty {
            funding_wallet_pubkey: job.distro_wallet.pubkey.clone(),
            total_funding_lamports: format_u128(job.total_funding_lamports),
        },
    }
}

} // verus!
