//! Wallet storage.
//!
//! The in-memory store keeps whole wallets; the database-backed store keeps
//! only derivation indices and rebuilds wallets from the master seed, so the
//! pure pieces here are the lookup logic and the query text the database is
//! handed. The database connection itself lives outside the library.

use vstd::prelude::*;

use crate::wallet::{spec_wallet_like, Wallet};

verus! {

/// An in-memory wallet store.
pub struct LocalWalletStorage {
    pub wallets: Vec<Wallet>,
}

impl LocalWalletStorage {
    pub fn new() -> (s: Self)
        ensures
            s.wallets@.len() == 0,
    {
        LocalWalletStorage { wallets: Vec::new() }
    }

    /// Keep a new wallet.
    pub fn store_new_wallet(&mut self, wallet: Wallet)
        ensures
            final(self).wallets@ == old(self).wallets@.push(wallet),
    {
        self.wallets.push(wallet);
    }

    /// Copies of all stored wallets. Paging parameters are accepted and
    /// ignored: every wallet is returned.
    pub fn get_all_wallets(&self, page: u16, page_size: u16) -> (r: Vec<Wallet>)
        ensures
            r@.len() == self.wallets@.len(),
            forall|i: int|
                0 <= i < r@.len() ==> spec_wallet_like(#[trigger] r@[i], self.wallets@[i]),
    {
        let _ = page;
        let _ = page_size;
        let mut r: Vec<Wallet> = Vec::new();
        let mut i: usize = 0;
        let n = self.wallets.len();
        while i < n
            invariant
                n == self.wallets@.len(),
                i <= n,
                r@.len() == i,
                forall|k: int|
                    0 <= k < i ==> spec_wallet_like(#[trigger] r@[k], self.wallets@[k]),
            decreases n - i,
        {
            r.push(self.wallets[i].duplicate());
            i = i + 1;
        }
        r
    }

    /// The stored wallets whose addresses match the queried ones, compared
    /// position by position: the wallet at each index is returned exactly
    /// when the query at the same index is its address, in index order.
    pub fn get_wallets_by_pubkey(&self, pubkeys: &Vec<String>) -> (r: Vec<Wallet>)
        requires
            pubkeys@.len() <= self.wallets@.len(),
        ensures
            spec_wallets_like(r@, spec_matched(self.wallets@, pubkeys@, pubkeys@.len() as int)),
    {
        let mut r: Vec<Wallet> = Vec::new();
        let mut i: usize = 0;
        let n = pubkeys.len();
        while i < n
            invariant
                n == pubkeys@.len(),
                n <= self.wallets@.len(),
                i <= n,
                spec_wallets_like(r@, spec_matched(self.wallets@, pubkeys@, i as int)),
            decreases n - i,
        {
            let ghost old_r = r@;
            if pubkeys[i] == self.wallets[i].pubkey {
                let w = self.wallets[i].duplicate();
                r.push(w);
                proof {
                    assert(spec_matched(self.wallets@, pubkeys@, i as int + 1) =~= spec_matched(
                        self.wallets@,
                        pubkeys@,
                        i as int,
                    ).push(self.wallets@[i as int]));
                }
            } else {
                proof {
                    assert(spec_matched(self.wallets@, pubkeys@, i as int + 1) =~= spec_matched(
                        self.wallets@,
                        pubkeys@,
                        i as int,
                    ));
                }
            }
            i = i + 1;
        }
        r
    }
}

/// The wallets standing at positions whose queried address is their own,
/// among the first `n` positions, in position order.
pub open spec fn spec_matched(wallets: Seq<Wallet>, pubkeys: Seq<String>, n: int) -> Seq<Wallet>
    decreases n,
{
    if n <= 0 {
        Seq::empty()
    } else if pubkeys[n - 1]@ == wallets[n - 1].pubkey@ {
        spec_matched(wallets, pubkeys, n - 1).push(wallets[n - 1])
    } else {
        spec_matched(wallets, pubkeys, n - 1)
    }
}

/// The two sequences hold like wallets, position by position.
pub open spec fn spec_wallets_like(a: Seq<Wallet>, b: Seq<Wallet>) -> bool {
    a.len() == b.len() && (forall|i: int|
        0 <= i < a.len() ==> spec_wallet_like(#[trigger] a[i], b[i]))
}

/// The quoted form of one address in a query's IN list.
pub open spec fn spec_quoted(p: Seq<char>) -> Seq<char> {
    seq!['\''] + p + seq!['\'']
}

/// The comma-separated IN list of quoted addresses.
pub open spec fn spec_in_list(ps: Seq<Seq<char>>) -> Seq<char>
    decreases ps.len(),
{
    if ps.len() == 0 {
        Seq::empty()
    } else if ps.len() == 1 {
        spec_quoted(ps[0])
    } else {
        spec_in_list(ps.drop_last()) + ", "@ + spec_quoted(ps.last())
    }
}

/// The query text that selects the derivation indices of the wallets whose
/// addresses are listed.
pub open spec fn spec_wallets_by_pubkey_sql(ps: Seq<Seq<char>>) -> Seq<char> {
    "SELECT seed FROM wallets WHERE pubkey IN ("@ + spec_in_list(ps) + ");"@
}

/// Render the IN list of quoted addresses, comma-separated.
pub fn pubkeys_in_clause(pubkeys: &Vec<String>) -> (r: String)
    ensures
        r@ == spec_in_list(pubkeys@.map_values(|p: String| p@)),
{
    let ghost ps = pubkeys@.map_values(|p: String| p@);
    let mut r = String::new();
    let mut i: usize = 0;
    let n = pubkeys.len();
    while i < n
        invariant
            n == pubkeys@.len(),
            i <= n,
            ps == pubkeys@.map_values(|p: String| p@),
            r@ == spec_in_list(ps.take(i as int)),
        decreases n - i,
    {
        proof {
            reveal_strlit("'");
            reveal_strlit(", ");
        }
        if i > 0 {
            r.append(", ");
        }
        r.append("'");
        r.append(pubkeys[i].as_str());
        r.append("'");
        proof {
            assert(ps.take(i as int + 1).drop_last() =~= ps.take(i as int));
            assert(ps.take(i as int + 1).last() == ps[i as int]);
            if i == 0 {
                assert(r@ =~= spec_quoted(ps[0]));
                assert(spec_in_list(ps.take(1)) == spec_quoted(ps.take(1)[0]));
            }
            assert(r@ =~= spec_in_list(ps.take(i as int + 1)));
        }
        i = i + 1;
    }
    proof {
        assert(ps.take(n as int) =~= ps);
    }
    r
}

/// Render the whole selection query for the listed addresses.
pub fn wallets_by_pubkey_sql(pubkeys: &Vec<String>) -> (r: String)
    ensures
        r@ == spec_wallets_by_pubkey_sql(pubkeys@.map_values(|p: String| p@)),
{
    proof {
        reveal_strlit("SELECT seed FROM wallets WHERE pubkey IN (");
        reveal_strlit(");");
    }
    let mut r = String::from_str("SELECT seed FROM wallets WHERE pubkey IN (");
    let list = pubkeys_in_clause(pubkeys);
    r.append(list.as_str());
    r.append(");");
    proof {
        assert(r@ =~= spec_wallets_by_pubkey_sql(pubkeys@.map_values(|p: String| p@)));
    }
    r
}

} // verus!
