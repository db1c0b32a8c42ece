//! Collection: move value from many source wallets into one destination.
//!
//! Collection is all-or-nothing before any network call: each source owes an
//! equal floor share of the requested total, and if any single source cannot
//! cover its share the job is rejected with no transaction built, let alone
//! broadcast. On success every source's transfer is built and signed against
//! one shared block reference, in source order, ready to be broadcast
//! sequentially.

use vstd::prelude::*;

use crate::errors::{Error, ErrorKind};
use crate::txn::{transfer_signature_of, transfer_transaction_of, SimpleTransaction};
use crate::wallet::Wallet;

verus! {

/// Each source wallet's share: the floor of the total over the source
/// count. A remainder from non-divisibility is not collected from anyone.
pub fn per_wallet_amount(total_lamports: u64, source_count: usize) -> (r: u64)
    requires
        source_count > 0,
    ensures
        r == total_lamports as int / source_count as int,
{
    total_lamports / (source_count as u64)
}

/// Build the whole collection batch, or reject it before anything is built.
///
/// `balances[i]` is the current balance of `source_wallets[i]`. The job is
/// rejected as a usage error when there are no sources, and with
/// `InsufficientSol` when some source's balance is below its share — in that
/// case no transaction exists, so none can have been broadcast. Otherwise
/// the result holds one signed transfer per source, in order: from source
/// `i`, of exactly the floor share, to `destination`, against `blockhash`.
pub fn collect(
    source_wallets: &Vec<Wallet>,
    destination: &Vec<u8>,
    blockhash: &Vec<u8>,
    balances: &Vec<u64>,
    total_lamports: u64,
) -> (r: Result<Vec<SimpleTransaction>, Error>)
    requires
        balances@.len() == source_wallets@.len(),
        destination@.len() == 32,
        blockhash@.len() == 32,
    ensures
        source_wallets@.len() == 0 ==> (r matches Err(e) && e.spec_kind() == ErrorKind::Usage),
        source_wallets@.len() > 0 ==> {
            let share = total_lamports as int / source_wallets@.len() as int;
            &&& (exists|i: int| 0 <= i < balances@.len() && balances@[i] < share) ==> (r matches
                Err(e) && e.spec_kind() == ErrorKind::InsufficientSol)
            &&& (forall|i: int| 0 <= i < balances@.len() ==> #[trigger] balances@[i] >= share)
                ==> {
                &&& r matches Ok(txns)
                &&& r matches Ok(txns) ==> {
                    &&& txns@.len() == source_wallets@.len()
                    &&& forall|i: int|
                        0 <= i < txns@.len() ==> {
                            &&& (#[trigger] txns@[i]).transaction@ == transfer_transaction_of(
                                source_wallets@[i].secret_key@,
                                share as u64,
                                destination@,
                                blockhash@,
                            )
                            &&& txns@[i].signature@ == transfer_signature_of(
                                source_wallets@[i].secret_key@,
                                share as u64,
                                destination@,
                                blockhash@,
                            )
                        }
                }
            }
        },
{
    if source_wallets.len() == 0 {
        return Err(Error::new(
            ErrorKind::Usage,
            String::from_str("collection requires at least one source wallet"),
        ));
    }

    let share = per_wallet_amount(total_lamports, source_wallets.len());

    let mut txns: Vec<SimpleTransaction> = Vec::new();
    let mut i: usize = 0;
    let n = source_wallets.len();
    while i < n
        invariant
            n == source_wallets@.len(),
            n > 0,
            balances@.len() == n,
            destination@.len() == 32,
            blockhash@.len() == 32,
            share == total_lamports as int / n as int,
            i <= n,
            txns@.len() == i,
            forall|k: int| 0 <= k < i ==> #[trigger] balances@[k] >= share,
            forall|k: int|
                0 <= k < i ==> {
                    &&& (#[trigger] txns@[k]).transaction@ == transfer_transaction_of(
                        source_wallets@[k].secret_key@,
                        share,
                        destination@,
                        blockhash@,
                    )
                    &&& txns@[k].signature@ == transfer_signature_of(
                        source_wallets@[k].secret_key@,
                        share,
                        destination@,
                        blockhash@,
                    )
                },
        decreases n - i,
    {
        if balances[i] < share {
            return Err(Error::new(
                ErrorKind::InsufficientSol,
                String::from_str("a source wallet holds less than its share"),
            ));
        }
        let txn = crate::txn::build_sol_transfer(&source_wallets[i], share, destination, blockhash);
        txns.push(txn);
        i = i + 1;
    }

    Ok(txns)
}

} // verus!
