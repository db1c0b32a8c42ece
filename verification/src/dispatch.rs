//! Fan-out bookkeeping for the funding path.
//!
//! Each target address gets one unit of work: build a signed transfer,
//! register a confirmation wait, broadcast, await the confirmation. The
//! dispatcher tracks every unit's phase and enforces the one ordering
//! guarantee of the design: a unit's confirmation wait is registered before
//! its transaction is broadcast, and a unit is broadcast at most once. Units
//! fail independently; a failed unit never fails the job as a whole.

use vstd::prelude::*;

use crate::funding::PlannedTransfer;

verus! {

/// Where one unit of work stands.
pub enum UnitPhase {
    /// The transfer is planned; nothing was sent yet.
    Planned,
    /// A confirmation wait was registered under the carried request id.
    Registered(u64),
    /// The transaction was broadcast; carries the confirmation request id.
    Sent(u64),
    /// The broadcast transaction was reported confirmed.
    Confirmed(u64),
    /// The unit failed; carries a description. No retry follows.
    Failed(String),
}

/// One per-target unit of work.
pub struct DispatchUnit {
    pub recipient: String,
    pub lamports: u64,
    pub phase: UnitPhase,
}

/// Counts of how a finished job's units ended up. The job as a whole
/// completes regardless of how many units failed.
pub struct DispatchReport {
    pub sent: usize,
    pub confirmed: usize,
    pub failed: usize,
}

/// Tracks the units of one funding job's fan-out.
pub struct Dispatcher {
    units: Vec<DispatchUnit>,
}

/// A unit counts as sent once its transaction went out, whether or not the
/// confirmation arrived afterwards.
pub open spec fn spec_unit_sent(phase: UnitPhase) -> bool {
    phase is Sent || phase is Confirmed
}

/// How many of the first `n` units count as sent.
pub open spec fn spec_sent_count(units: Seq<DispatchUnit>, n: int) -> int
    decreases n,
{
    if n <= 0 {
        0
    } else {
        spec_sent_count(units, n - 1) + if spec_unit_sent(units[n - 1].phase) {
            1int
        } else {
            0int
        }
    }
}

/// How many of the first `n` units are confirmed.
pub open spec fn spec_confirmed_count(units: Seq<DispatchUnit>, n: int) -> int
    decreases n,
{
    if n <= 0 {
        0
    } else {
        spec_confirmed_count(units, n - 1) + if units[n - 1].phase is Confirmed {
            1int
        } else {
            0int
        }
    }
}

/// How many of the first `n` units failed.
pub open spec fn spec_failed_count(units: Seq<DispatchUnit>, n: int) -> int
    decreases n,
{
    if n <= 0 {
        0
    } else {
        spec_failed_count(units, n - 1) + if units[n - 1].phase is Failed {
            1int
        } else {
            0int
        }
    }
}

impl Dispatcher {
    pub closed spec fn spec_units(&self) -> Seq<DispatchUnit> {
        self.units@
    }

    /// One unit per planned transfer, in plan order, none started.
    pub fn new(plan: Vec<PlannedTransfer>) -> (d: Dispatcher)
        ensures
            d.spec_units().len() == plan@.len(),
            forall|i: int|
                0 <= i < plan@.len() ==> {
                    &&& (#[trigger] d.spec_units()[i]).recipient@ == plan@[i].recipient@
                    &&& d.spec_units()[i].lamports == plan@[i].lamports
                    &&& d.spec_units()[i].phase is Planned
                },
    {
        let mut units: Vec<DispatchUnit> = Vec::new();
        let mut i: usize = 0;
        while i < plan.len()
            invariant
                i <= plan@.len(),
                units@.len() == i,
                forall|k: int|
                    0 <= k < i ==> {
                        &&& (#[trigger] units@[k]).recipient@ == plan@[k].recipient@
                        &&& units@[k].lamports == plan@[k].lamports
                        &&& units@[k].phase is Planned
                    },
            decreases plan@.len() - i,
        {
            units.push(DispatchUnit {
                recipient: plan[i].recipient.clone(),
                lamports: plan[i].lamports,
                phase: UnitPhase::Planned,
            });
            i = i + 1;
        }
        Dispatcher { units }
    }

    pub fn len(&self) -> (n: usize)
        ensures
            n == self.spec_units().len(),
    {
        self.units.len()
    }

    pub fn recipient(&self, i: usize) -> (r: &String)
        requires
            i < self.spec_units().len(),
        ensures
            r@ == self.spec_units()[i as int].recipient@,
    {
        &self.units[i].recipient
    }

    pub fn lamports(&self, i: usize) -> (l: u64)
        requires
            i < self.spec_units().len(),
        ensures
            l == self.spec_units()[i as int].lamports,
    {
        self.units[i].lamports
    }

    pub fn unit_phase(&self, i: usize) -> (p: &UnitPhase)
        requires
            i < self.spec_units().len(),
        ensures
            *p == self.spec_units()[i as int].phase,
    {
        &self.units[i].phase
    }

    /// The unit's confirmation wait was registered. Registration must come
    /// before the broadcast, so it is only accepted on a unit that has not
    /// started.
    pub fn record_registered(&mut self, i: usize, request_id: u64)
        requires
            i < old(self).spec_units().len(),
            old(self).spec_units()[i as int].phase is Planned,
        ensures
            final(self).spec_units() == old(self).spec_units().update(
                i as int,
                DispatchUnit {
                    phase: UnitPhase::Registered(request_id),
                    ..old(self).spec_units()[i as int]
                },
            ),
    {
        let recipient = self.units[i].recipient.clone();
        let lamports = self.units[i].lamports;
        self.units.set(
            i,
            DispatchUnit { recipient, lamports, phase: UnitPhase::Registered(request_id) },
        );
        assert(self.units@ =~= old(self).spec_units().update(
            i as int,
            (DispatchUnit {
                phase: UnitPhase::Registered(request_id),
                ..old(self).spec_units()[i as int]
            }),
        ));
    }

    /// The unit's transaction was broadcast. Only a unit whose confirmation
    /// wait is registered may be sent, and a unit can never be sent twice:
    /// after this call its phase is no longer `Registered`.
    pub fn record_sent(&mut self, i: usize)
        requires
            i < old(self).spec_units().len(),
            old(self).spec_units()[i as int].phase is Registered,
        ensures
            final(self).spec_units() == old(self).spec_units().update(
                i as int,
                DispatchUnit {
                    phase: UnitPhase::Sent(old(self).spec_units()[i as int].phase->Registered_0),
                    ..old(self).spec_units()[i as int]
                },
            ),
    {
        let recipient = self.units[i].recipient.clone();
        let lamports = self.units[i].lamports;
        let request_id = match &self.units[i].phase {
            UnitPhase::Registered(id) => *id,
            _ => 0,  // unreachable under the precondition
        };
        self.units.set(
            i,
            DispatchUnit { recipient, lamports, phase: UnitPhase::Sent(request_id) },
        );
        assert(self.units@ =~= old(self).spec_units().update(
            i as int,
            (DispatchUnit {
                phase: UnitPhase::Sent(old(self).spec_units()[i as int].phase->Registered_0),
                ..old(self).spec_units()[i as int]
            }),
        ));
    }

    /// The unit's confirmation arrived after its broadcast.
    pub fn record_confirmed(&mut self, i: usize)
        requires
            i < old(self).spec_units().len(),
            old(self).spec_units()[i as int].phase is Sent,
        ensures
            final(self).spec_units() == old(self).spec_units().update(
                i as int,
                DispatchUnit {
                    phase: UnitPhase::Confirmed(old(self).spec_units()[i as int].phase->Sent_0),
                    ..old(self).spec_units()[i as int]
                },
            ),
    {
        let recipient = self.units[i].recipient.clone();
        let lamports = self.units[i].lamports;
        let request_id = match &self.units[i].phase {
            UnitPhase::Sent(id) => *id,
            _ => 0,  // unreachable under the precondition
        };
        self.units.set(
            i,
            DispatchUnit { recipient, lamports, phase: UnitPhase::Confirmed(request_id) },
        );
        assert(self.units@ =~= old(self).spec_units().update(
            i as int,
            (DispatchUnit {
                phase: UnitPhase::Confirmed(old(self).spec_units()[i as int].phase->Sent_0),
                ..old(self).spec_units()[i as int]
            }),
        ));
    }

    /// The unit failed: its build or broadcast errored, so nothing further
    /// happens to it. A unit that was already sent cannot fail into oblivion;
    /// failure is only recorded before the broadcast.
    pub fn record_failed(&mut self, i: usize, reason: String)
        requires
            i < old(self).spec_units().len(),
            !spec_unit_sent(old(self).spec_units()[i as int].phase),
        ensures
            final(self).spec_units() == old(self).spec_units().update(
                i as int,
                DispatchUnit {
                    phase: UnitPhase::Failed(reason),
                    ..old(self).spec_units()[i as int]
                },
            ),
    {
        let recipient = self.units[i].recipient.clone();
        let lamports = self.units[i].lamports;
        self.units.set(
            i,
            DispatchUnit { recipient, lamports, phase: UnitPhase::Failed(reason) },
        );
        assert(self.units@ =~= old(self).spec_units().update(
            i as int,
            (DispatchUnit {
                phase: UnitPhase::Failed(reason),
                ..old(self).spec_units()[i as int]
            }),
        ));
    }

    /// Sum up how the units ended. The report always comes back: individual
    /// failures are counted, never escalated, so a job with failed units
    /// still completes.
    pub fn summarize(&self) -> (report: DispatchReport)
        ensures
            report.sent == spec_sent_count(self.spec_units(), self.spec_units().len() as int),
            report.confirmed == spec_confirmed_count(
                self.spec_units(),
                self.spec_units().len() as int,
            ),
            report.failed == spec_failed_count(self.spec_units(), self.spec_units().len() as int),
    {
        let n = self.units.len();
        let mut sent: usize = 0;
        let mut confirmed: usize = 0;
        let mut failed: usize = 0;
        let mut i: usize = 0;

        proof {
            lemma_counts_bounded(self.spec_units(), n as int);
        }

        while i < n
            invariant
                n == self.spec_units().len(),
                i <= self.spec_units().len(),
                sent == spec_sent_count(self.spec_units(), i as int),
                confirmed == spec_confirmed_count(self.spec_units(), i as int),
                failed == spec_failed_count(self.spec_units(), i as int),
                spec_sent_count(self.spec_units(), self.spec_units().len() as int) <= usize::MAX,
                spec_confirmed_count(self.spec_units(), self.spec_units().len() as int)
                    <= usize::MAX,
                spec_failed_count(self.spec_units(), self.spec_units().len() as int) <= usize::MAX,
            decreases self.spec_units().len() - i,
        {
            proof {
                lemma_counts_monotonic(self.spec_units(), i + 1, self.spec_units().len() as int);
            }
            match &self.units[i].phase {
                UnitPhase::Sent(_) => {
                    sent = sent + 1;
                },
                UnitPhase::Confirmed(_) => {
                    sent = sent + 1;
                    confirmed = confirmed + 1;
                },
                UnitPhase::Failed(_) => {
                    failed = failed + 1;
                },
                _ => {},
            }
            i = i + 1;
        }
        DispatchReport { sent, confirmed, failed }
    }
}

/// Every count over a prefix is at most the prefix length, hence bounded by
/// the unit count.
pub proof fn lemma_counts_bounded(units: Seq<DispatchUnit>, n: int)
    requires
        0 <= n <= usize::MAX,
    ensures
        0 <= spec_sent_count(units, n) <= n,
        0 <= spec_confirmed_count(units, n) <= n,
        0 <= spec_failed_count(units, n) <= n,
    decreases n,
{
    if n > 0 {
        lemma_counts_bounded(units, n - 1);
    }
}

/// Counts only grow as the prefix grows.
pub proof fn lemma_counts_monotonic(units: Seq<DispatchUnit>, m: int, n: int)
    requires
        m <= n,
    ensures
        spec_sent_count(units, m) <= spec_sent_count(units, n),
        spec_confirmed_count(units, m) <= spec_confirmed_count(units, n),
        spec_failed_count(units, m) <= spec_failed_count(units, n),
    decreases n - m,
{
    if m < n {
        lemma_counts_monotonic(units, m, n - 1);
    }
}

} // verus!
