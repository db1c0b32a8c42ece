//! The funding job lifecycle: one slot that holds the active job, the exact
//! lamport arithmetic behind `total_funding_lamports`, and the sufficiency
//! check that gates dispatch.

use vstd::prelude::*;

use crate::errors::{Error, ErrorKind};
use crate::wallet::{generate_wallet, spec_wallet_wf, Wallet};

verus! {

/// Fixed per-transfer fee estimate, in lamports.
pub const FEE_BUFFER: u64 = 5000;

/// What a funding job must be given before it can run: one transfer's worth
/// plus the fee buffer for every target, and the rent-exempt minimum so the
/// distribution wallet itself stays viable after disbursing.
pub open spec fn spec_total_required(
    lamports_per_wallet: u64,
    target_count: nat,
    rent_minimum: u128,
) -> int {
    (lamports_per_wallet + FEE_BUFFER) * target_count + rent_minimum
}

/// An active funding job: a freshly generated distribution wallet, the
/// addresses to fund, the amount each receives, and the total the
/// distribution wallet must be given.
pub struct FundingJob {
    pub distro_wallet: Wallet,
    pub target_pubkeys: Vec<String>,
    pub lamports_per_wallet: u64,
    pub total_funding_lamports: u128,
}

/// One transfer the dispatcher is asked to perform.
#[derive(Debug)]
pub struct PlannedTransfer {
    pub recipient: String,
    pub lamports: u64,
}

/// The single-slot funding job manager. At most one job is active at a time;
/// a new initiation replaces the slot.
pub struct LocalFunding {
    active_job: Option<FundingJob>,
}

impl LocalFunding {
    /// The job currently occupying the slot, if any.
    pub closed spec fn spec_active_job(&self) -> Option<FundingJob> {
        self.active_job
    }

    pub fn new() -> (s: Self)
        ensures
            s.spec_active_job() is None,
    {
        LocalFunding { active_job: None }
    }

    /// Install a funding job for the given targets. The distribution wallet
    /// is freshly generated by the caller for this job alone. `rent_minimum`
    /// is the chain's rent-exempt minimum for a zero-size account, read just
    /// before this call.
    ///
    /// Rejects an empty target list before anything is stored; otherwise the
    /// slot is replaced (a previously active job is discarded) and the stored
    /// total is exactly `(lamports_per_wallet + FEE_BUFFER) * target_count
    /// + rent_minimum`, computed in 128-bit arithmetic.
    pub fn initiate_funding_job(
        &mut self,
        distro_wallet: Wallet,
        target_pubkeys: Vec<String>,
        lamports_per_wallet: u64,
        rent_minimum: u128,
    ) -> (r: Result<(), Error>)
        requires
            spec_total_required(lamports_per_wallet, target_pubkeys@.len(), rent_minimum)
                <= u128::MAX,
        ensures
            target_pubkeys@.len() == 0 ==> {
                &&& r matches Err(e) && e.spec_kind() == ErrorKind::Usage
                &&& final(self).spec_active_job() == old(self).spec_active_job()
            },
            target_pubkeys@.len() > 0 ==> {
                &&& r is Ok
                &&& final(self).spec_active_job() matches Some(job) && {
                    &&& job.distro_wallet == distro_wallet
                    &&& job.target_pubkeys@ == target_pubkeys@
                    &&& job.lamports_per_wallet == lamports_per_wallet
                    &&& job.total_funding_lamports == spec_total_required(
                        lamports_per_wallet,
                        target_pubkeys@.len(),
                        rent_minimum,
                    )
                }
            },
    {
        if target_pubkeys.len() == 0 {
            return Err(Error::new(
                ErrorKind::Usage,
                String::from_str("funding requires at least one target wallet"),
            ));
        }

        let per_target: u128 = lamports_per_wallet as u128 + FEE_BUFFER as u128;
        let total: u128 = per_target * (target_pubkeys.len() as u128) + rent_minimum;

        self.active_job = Some(FundingJob {
            distro_wallet,
            target_pubkeys,
            lamports_per_wallet,
            total_funding_lamports: total,
        });

        Ok(())
    }

    /// Install a funding job around a freshly generated distribution
    /// wallet. The wallet is drawn here; whatever keypair came back, the
    /// stored job is exactly the one described by the other inputs.
    pub fn initiate_funding_job_fresh(
        &mut self,
        target_pubkeys: Vec<String>,
        lamports_per_wallet: u64,
        rent_minimum: u128,
    ) -> (r: Result<(), Error>)
        requires
            spec_total_required(lamports_per_wallet, target_pubkeys@.len(), rent_minimum)
                <= u128::MAX,
        ensures
            target_pubkeys@.len() == 0 ==> {
                &&& r matches Err(e) && e.spec_kind() == ErrorKind::Usage
                &&& final(self).spec_active_job() == old(self).spec_active_job()
            },
            target_pubkeys@.len() > 0 ==> {
                &&& r is Ok
                &&& final(self).spec_active_job() matches Some(job) && {
                    &&& spec_wallet_wf(job.distro_wallet)
                    &&& !job.distro_wallet.was_grinded
                    &&& job.target_pubkeys@ == target_pubkeys@
                    &&& job.lamports_per_wallet == lamports_per_wallet
                    &&& job.total_funding_lamports == spec_total_required(
                        lamports_per_wallet,
                        target_pubkeys@.len(),
                        rent_minimum,
                    )
                }
            },
    {
        let distro_wallet = generate_wallet(false);
        self.initiate_funding_job(distro_wallet, target_pubkeys, lamports_per_wallet, rent_minimum)
    }

    /// The active job, if one occupies the slot.
    pub fn active_job(&self) -> (r: Option<&FundingJob>)
        ensures
            r is Some <==> self.spec_active_job() is Some,
            r matches Some(job) ==> *job == self.spec_active_job().unwrap(),
    {
        self.active_job.as_ref()
    }

    /// Decide whether the active job may proceed, given the distribution
    /// wallet's current balance. On success the returned plan lists one
    /// transfer of `lamports_per_wallet` per target, in target order; no
    /// transfer exists to broadcast unless the balance covers the whole
    /// requirement. The slot is retained: completion is reported by the
    /// dispatcher, and the caller decides when to discard the job.
    pub fn complete_funding_job(&self, distro_balance: u64) -> (r: Result<
        Vec<PlannedTransfer>,
        Error,
    >)
        ensures
            self.spec_active_job() is None ==> (r matches Err(e) && e.spec_kind()
                == ErrorKind::FundingJobNotStarted),
            self.spec_active_job() matches Some(job) ==> {
                &&& (distro_balance as int) < job.total_funding_lamports ==> (r matches Err(e)
                    && e.spec_kind() == ErrorKind::InsufficientFunding)
                &&& (distro_balance as int) >= job.total_funding_lamports ==> {
                    &&& r matches Ok(plan)
                    &&& r matches Ok(plan) ==> {
                        &&& plan@.len() == job.target_pubkeys@.len()
                        &&& forall|i: int|
                            0 <= i < plan@.len() ==> {
                                &&& (#[trigger] plan@[i]).recipient@ == job.target_pubkeys@[i]@
                                &&& plan@[i].lamports == job.lamports_per_wallet
                            }
                    }
                }
            },
    {
        let job = match &self.active_job {
            Some(j) => j,
            None => {
                return Err(Error::new(
                    ErrorKind::FundingJobNotStarted,
                    String::from_str("there is no active funding job"),
                ));
            },
        };

        if (distro_balance as u128) < job.total_funding_lamports {
            return Err(Error::new(
                ErrorKind::InsufficientFunding,
                String::from_str("insufficient funding to execute funding job"),
            ));
        }

        let mut plan: Vec<PlannedTransfer> = Vec::new();
        let mut i: usize = 0;
        while i < job.target_pubkeys.len()
            invariant
                i <= job.target_pubkeys@.len(),
                plan@.len() == i,
                forall|k: int|
                    0 <= k < i ==> {
                        &&& (#[trigger] plan@[k]).recipient@ == job.target_pubkeys@[k]@
                        &&& plan@[k].lamports == job.lamports_per_wallet
                    },
            decreases job.target_pubkeys@.len() - i,
        {
            plan.push(PlannedTransfer {
                recipient: job.target_pubkeys[i].clone(),
                lamports: job.lamports_per_wallet,
            });
            i = i + 1;
        }

        Ok(plan)
    }
}

} // verus!
