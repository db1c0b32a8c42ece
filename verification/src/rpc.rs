//! The shapes the JSON-RPC read calls answer with, and the one decision made
//! over them: what balance a possibly-absent account contributes.
//!
//! The HTTP transport and the JSON decoding live outside the library; it
//! receives these values already parsed.

use vstd::prelude::*;

verus! {

/// The body of one JSON-RPC request: fixed version, the caller's request
/// id, the method, and the parameter list rendered by the caller.
pub open spec fn spec_rpc_request_frame(
    request_id: Seq<char>,
    method: Seq<char>,
    params: Seq<char>,
) -> Seq<char> {
    "{\"jsonrpc\":\"2.0\",\"id\":\""@ + request_id + "\",\"method\":\""@ + method
        + "\",\"params\":"@ + params + "}"@
}

/// Render a JSON-RPC request body. The id and method are embedded verbatim,
/// so they must not need JSON escaping; the params are embedded as the JSON
/// text the caller rendered.
pub fn rpc_request_frame(request_id: &str, method: &str, params: &str) -> (r: String)
    ensures
        r@ == spec_rpc_request_frame(request_id@, method@, params@),
{
    proof {
        reveal_strlit("{\"jsonrpc\":\"2.0\",\"id\":\"");
        reveal_strlit("\",\"method\":\"");
        reveal_strlit("\",\"params\":");
        reveal_strlit("}");
    }
    let mut r = String::from_str("{\"jsonrpc\":\"2.0\",\"id\":\"");
    r.append(request_id);
    r.append("\",\"method\":\"");
    r.append(method);
    r.append("\",\"params\":");
    r.append(params);
    r.append("}");
    proof {
        assert(r@ =~= spec_rpc_request_frame(request_id@, method@, params@));
    }
    r
}

/// The `context` object common to RPC read responses.
pub struct RpcContext {
    pub slot: u64,
    pub api_version: String,
}

/// The payload of a latest-block-reference response.
pub struct RpcLatestBlockhash {
    pub blockhash: String,
    pub last_valid_block_height: u32,
}

/// The response to a rent-exempt-minimum query.
pub struct RpcMinimumBalanceForRentExemptionResponse {
    pub jsonrpc: String,
    pub id: String,
    pub result: u128,
}

/// The response to a batched account query.
pub struct RpcMultipleAccountsResponse {
    pub jsonrpc: String,
    pub id: String,
    pub result: RpcMultipleAccountsResult,
}

/// The result member of a batched account query: one entry per requested
/// address, absent where the account does not exist.
pub struct RpcMultipleAccountsResult {
    pub context: RpcContext,
    pub value: Vec<Option<RpcAccount>>,
}

/// The one field of an account the library reads.
pub struct RpcAccount {
    pub lamports: u64,
}

/// The balance an account entry contributes: an absent account holds
/// nothing.
pub open spec fn spec_account_balance(a: Option<RpcAccount>) -> u64 {
    match a {
        Some(acc) => acc.lamports,
        None => 0,
    }
}

/// The balances of a batched account query, one per requested address, with
/// absent accounts counted as zero.
pub fn account_balances(accounts: &Vec<Option<RpcAccount>>) -> (r: Vec<u64>)
    ensures
        r@.len() == accounts@.len(),
        forall|i: int|
            0 <= i < r@.len() ==> r@[i] == spec_account_balance(#[trigger] accounts@[i]),
{
    let mut r: Vec<u64> = Vec::new();
    let mut i: usize = 0;
    let n = accounts.len();
    while i < n
        invariant
            n == accounts@.len(),
            i <= n,
            r@.len() == i,
            forall|k: int|
                0 <= k < i ==> r@[k] == spec_account_balance(#[trigger] accounts@[k]),
        decreases n - i,
    {
        let b = match &accounts[i] {
            Some(acc) => acc.lamports,
            None => 0,
        };
        r.push(b);
        i = i + 1;
    }
    r
}

} // verus!
