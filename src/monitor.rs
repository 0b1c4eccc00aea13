use vstd::prelude::*;
use crate::registry::{needs_renewal_at, renewal_due, CertificateInfo, CertificateManager, InfoView};

verus! {

/// Seconds between two scans of the registry.
pub const CHECK_INTERVAL_SECS: u64 = 300;

/// Validity asked for on renewal, in days.
pub const RENEWAL_VALIDITY_DAYS: i64 = 7;

/// A certificate not yet due for renewal but within this many seconds (two days) of expiry is
/// worth a warning.
pub const EXPIRY_WARNING_SECS: i128 = 172800;

/// What one scan does with one certificate.
#[derive(Debug, Clone, Copy, PartialEq, Eq, Structural)]
pub enum RenewalDecision {
    /// Renewal is due: sign anew and rewrite the files.
    Renew,
    /// Not due yet, but it expires within two days: raise a warning only.
    ExpiringSoon { remaining_seconds: i128 },
    /// Nothing to do.
    Healthy,
}

pub open spec fn decision_of(not_before: i64, not_after: i64, now: i64) -> RenewalDecision {
    if renewal_due(not_before as int, not_after as int, now as int) {
        RenewalDecision::Renew
    } else if not_after - now <= EXPIRY_WARNING_SECS {
        RenewalDecision::ExpiringSoon { remaining_seconds: (not_after - now) as i128 }
    } else {
        RenewalDecision::Healthy
    }
}

/// What a scan at `now` does with this certificate.
pub fn renewal_decision(info: &CertificateInfo, now: i64) -> (r: RenewalDecision)
    ensures
        r == decision_of(info.not_before, info.not_after, now),
{
    if needs_renewal_at(info.not_before, info.not_after, now) {
        RenewalDecision::Renew
    } else {
        let remaining: i128 = info.not_after as i128 - now as i128;
        if remaining <= EXPIRY_WARNING_SECS {
            RenewalDecision::ExpiringSoon { remaining_seconds: remaining }
        } else {
            RenewalDecision::Healthy
        }
    }
}

/// The decisions of the background renewal task. A scan takes a snapshot of the registry,
/// asks `plan_renewals` what to do with each entry, renews the due ones one by one (a failure
/// is logged and the scan goes on) and records each success with `record_renewal`.
pub struct CertificateMonitor {
    check_interval_secs: u64,
    renewal_validity_days: i64,
}

impl CertificateMonitor {
    pub fn new() -> (r: CertificateMonitor)
        ensures
            r.check_interval() == CHECK_INTERVAL_SECS,
            r.validity() == RENEWAL_VALIDITY_DAYS,
    {
        CertificateMonitor { check_interval_secs: CHECK_INTERVAL_SECS, renewal_validity_days: RENEWAL_VALIDITY_DAYS }
    }

    pub closed spec fn check_interval(&self) -> u64 {
        self.check_interval_secs
    }

    pub closed spec fn validity(&self) -> i64 {
        self.renewal_validity_days
    }

    pub fn check_interval_secs(&self) -> (r: u64)
        ensures
            r == self.check_interval(),
    {
        self.check_interval_secs
    }

    pub fn renewal_validity_days(&self) -> (r: i64)
        ensures
            r == self.validity(),
    {
        self.renewal_validity_days
    }

    /// The decision for each certificate of a snapshot, in the snapshot's order.
    pub fn plan_renewals(&self, certificates: &Vec<CertificateInfo>, now: i64) -> (r: Vec<RenewalDecision>)
        ensures
            r@.len() == certificates@.len(),
            forall|i: int|
                0 <= i < r@.len() ==> #[trigger] r@[i] == decision_of(
                    certificates@[i].not_before,
                    certificates@[i].not_after,
                    now,
                ),
    {
        let mut r: Vec<RenewalDecision> = Vec::new();
        let mut i: usize = 0;
        while i < certificates.len()
            invariant
                i <= certificates.len(),
                r@.len() == i,
                forall|j: int|
                    0 <= j < i ==> #[trigger] r@[j] == decision_of(
                        certificates@[j].not_before,
                        certificates@[j].not_after,
                        now,
                    ),
            decreases certificates.len() - i,
        {
            r.push(renewal_decision(&certificates[i], now));
            i = i + 1;
        }
        r
    }

    /// Records a renewal: the certificate's entry gets the new window, the rest of it stays.
    pub fn record_renewal(&self, manager: &mut CertificateManager, info: &CertificateInfo, not_before: i64, not_after: i64)
        requires
            old(manager).wf(),
        ensures
            final(manager).wf(),
            final(manager).entries() == old(manager).entries().insert(
                info.cert_id@,
                InfoView { cert_id: info.cert_id@, mount_path: info.mount_path@, not_before, not_after },
            ),
            final(manager).service_addr() == old(manager).service_addr(),
            final(manager).base() == old(manager).base(),
    {
        manager.register_certificate(info.cert_id.clone(), info.mount_path.clone(), not_before, not_after);
    }
}


/// What the renewal task does next within one scan.
#[derive(Debug, Clone, Copy, PartialEq, Eq, Structural)]
pub enum CycleStep {
    /// Renew the snapshot's certificate at this index, then call `finish_renewal`.
    Renew { index: usize },
    /// Warn that the certificate at this index expires soon.
    Warn { index: usize, remaining_seconds: i128 },
    /// The scan is over.
    Done,
}

/// One scan of the registry: the snapshot taken when it started, the decision for each entry,
/// how far it has got, and the renewal it waits for. A failed renewal is counted and the scan
/// goes on with the next entry.
pub struct RenewalCycle {
    snapshot: Vec<CertificateInfo>,
    decisions: Vec<RenewalDecision>,
    next: usize,
    awaiting: Option<usize>,
    renewed: usize,
    failed: usize,
}

/// The first position at or after `k` whose decision asks for something, or the length.
pub open spec fn next_busy(d: Seq<RenewalDecision>, k: int) -> int
    decreases d.len() - k,
{
    if k >= d.len() {
        d.len() as int
    } else if d[k] != RenewalDecision::Healthy {
        k
    } else {
        next_busy(d, k + 1)
    }
}

proof fn lemma_next_busy_bounds(d: Seq<RenewalDecision>, k: int)
    requires
        0 <= k <= d.len(),
    ensures
        k <= next_busy(d, k) <= d.len(),
        next_busy(d, k) < d.len() ==> d[next_busy(d, k)] != RenewalDecision::Healthy,
        forall|j: int| k <= j < next_busy(d, k) ==> d[j] == RenewalDecision::Healthy,
    decreases d.len() - k,
{
    if k < d.len() && d[k] == RenewalDecision::Healthy {
        lemma_next_busy_bounds(d, k + 1);
    }
}

/// What finishing the renewal at `index` with `window` does to a scan and to the registry.
pub open spec fn renewal_finished(
    before: RenewalCycle,
    after: RenewalCycle,
    entries_before: Map<Seq<char>, InfoView>,
    entries_after: Map<Seq<char>, InfoView>,
    index: usize,
    window: Option<(i64, i64)>,
) -> bool {
    if before.awaiting() != Some(index) {
        after == before && entries_after == entries_before
    } else {
        &&& after.awaiting() is None
        &&& after.items() == before.items()
        &&& after.plan() == before.plan()
        &&& after.position() == before.position()
        &&& match window {
            Some(w) => {
                &&& after.renewed_count() == before.renewed_count() + 1
                &&& after.failed_count() == before.failed_count()
                &&& entries_after == entries_before.insert(
                    before.items()[index as int].cert_id@,
                    InfoView {
                        cert_id: before.items()[index as int].cert_id@,
                        mount_path: before.items()[index as int].mount_path@,
                        not_before: w.0,
                        not_after: w.1,
                    },
                )
            },
            None => {
                &&& after.renewed_count() == before.renewed_count()
                &&& after.failed_count() == before.failed_count() + 1
                &&& entries_after == entries_before
            },
        }
    }
}

impl RenewalCycle {
    pub closed spec fn items(&self) -> Seq<CertificateInfo> {
        self.snapshot@
    }

    pub closed spec fn plan(&self) -> Seq<RenewalDecision> {
        self.decisions@
    }

    /// Entries before this position have been dealt with.
    pub closed spec fn position(&self) -> int {
        self.next as int
    }

    /// The position whose renewal the scan waits for, if any.
    pub closed spec fn awaiting(&self) -> Option<usize> {
        self.awaiting
    }

    pub closed spec fn renewed_count(&self) -> int {
        self.renewed as int
    }

    pub closed spec fn failed_count(&self) -> int {
        self.failed as int
    }

    pub closed spec fn wf(&self) -> bool {
        &&& self.snapshot@.len() == self.decisions@.len()
        &&& self.next <= self.decisions@.len()
        &&& self.renewed + self.failed + (if self.awaiting is Some {
            1int
        } else {
            0
        }) <= self.next
        &&& self.awaiting matches Some(i) ==> i < self.next && self.decisions@[i as int] == RenewalDecision::Renew
    }

    /// Starts a scan at `now` over a snapshot of the registry.
    pub fn scan(monitor: &CertificateMonitor, manager: &CertificateManager, now: i64) -> (r: RenewalCycle)
        requires
            manager.wf(),
        ensures
            r.wf(),
            r.position() == 0,
            r.awaiting() is None,
            r.renewed_count() == 0,
            r.failed_count() == 0,
            r.items().len() == manager.entries().len(),
            r.plan().len() == r.items().len(),
            forall|i: int|
                0 <= i < r.items().len() ==> manager.entries().contains_key(#[trigger] r.items()[i].cert_id@)
                    && manager.entries()[r.items()[i].cert_id@] == r.items()[i]@,
            forall|i: int|
                0 <= i < r.plan().len() ==> #[trigger] r.plan()[i] == decision_of(
                    r.items()[i].not_before,
                    r.items()[i].not_after,
                    now,
                ),
    {
        let snapshot = manager.get_all_certificates();
        let decisions = monitor.plan_renewals(&snapshot, now);
        RenewalCycle { snapshot, decisions, next: 0, awaiting: None, renewed: 0, failed: 0 }
    }

    /// The certificate at a position of the snapshot.
    pub fn certificate(&self, index: usize) -> (r: &CertificateInfo)
        requires
            self.wf(),
            index < self.items().len(),
        ensures
            *r == self.items()[index as int],
    {
        &self.snapshot[index]
    }

    pub fn len(&self) -> (r: usize)
        requires
            self.wf(),
        ensures
            r == self.items().len(),
    {
        self.snapshot.len()
    }

    /// The next entry that asks for something: healthy entries are passed over. A renewal
    /// still awaited is dropped (counted neither way).
    pub fn next_step(&mut self) -> (r: CycleStep)
        requires
            old(self).wf(),
        ensures
            final(self).wf(),
            final(self).items() == old(self).items(),
            final(self).plan() == old(self).plan(),
            final(self).renewed_count() == old(self).renewed_count(),
            final(self).failed_count() == old(self).failed_count(),
            ({
                let k = next_busy(old(self).plan(), old(self).position());
                if k >= old(self).plan().len() {
                    r == CycleStep::Done && final(self).position() == old(self).plan().len() && final(self).awaiting() is None
                } else {
                    final(self).position() == k + 1 && match old(self).plan()[k] {
                        RenewalDecision::Renew => r == CycleStep::Renew { index: k as usize } && final(self).awaiting() == Some(k as usize),
                        RenewalDecision::ExpiringSoon { remaining_seconds } => r == CycleStep::Warn {
                            index: k as usize,
                            remaining_seconds,
                        } && final(self).awaiting() is None,
                        RenewalDecision::Healthy => false,
                    }
                }
            }),
    {
        proof {
            lemma_next_busy_bounds(self.decisions@, self.next as int);
        }
        let ghost start = self.next as int;
        self.awaiting = None;
        while self.next < self.decisions.len() && self.decisions[self.next] == RenewalDecision::Healthy
            invariant
                self.snapshot@.len() == self.decisions@.len(),
                start <= self.next <= self.decisions@.len(),
                next_busy(self.decisions@, start) == next_busy(self.decisions@, self.next as int),
                self.renewed == old(self).renewed,
                self.failed == old(self).failed,
                self.awaiting is None,
                self.snapshot == old(self).snapshot,
                self.decisions == old(self).decisions,
                old(self).renewed + old(self).failed <= start,
            decreases self.decisions@.len() - self.next,
        {
            self.next = self.next + 1;
        }
        if self.next >= self.decisions.len() {
            return CycleStep::Done;
        }
        let k = self.next;
        self.next = k + 1;
        match self.decisions[k] {
            RenewalDecision::Renew => {
                self.awaiting = Some(k);
                CycleStep::Renew { index: k }
            },
            RenewalDecision::ExpiringSoon { remaining_seconds } => CycleStep::Warn { index: k, remaining_seconds },
            RenewalDecision::Healthy => CycleStep::Done,
        }
    }

    /// Ends the awaited renewal at `index`: with the new window the certificate is recorded
    /// in the registry (its files having been rewritten); without one it is counted as failed.
    /// Either way the scan goes on. For any other index nothing changes.
    pub fn finish_renewal(
        &mut self,
        monitor: &CertificateMonitor,
        manager: &mut CertificateManager,
        index: usize,
        window: Option<(i64, i64)>,
    )
        requires
            old(self).wf(),
            old(manager).wf(),
        ensures
            final(self).wf(),
            final(manager).wf(),
            final(self).items() == old(self).items(),
            final(self).plan() == old(self).plan(),
            final(self).position() == old(self).position(),
            renewal_finished(*old(self), *final(self), old(manager).entries(), final(manager).entries(), index, window),
            final(manager).service_addr() == old(manager).service_addr(),
            final(manager).base() == old(manager).base(),
    {
        if self.awaiting != Some(index) {
            return;
        }
        self.awaiting = None;
        match window {
            Some((not_before, not_after)) => {
                monitor.record_renewal(manager, &self.snapshot[index], not_before, not_after);
                self.renewed = self.renewed + 1;
            },
            None => {
                self.failed = self.failed + 1;
            },
        }
    }

    /// How many renewals of this scan succeeded and failed so far.
    pub fn outcome(&self) -> (r: (usize, usize))
        ensures
            r.0 as int == self.renewed_count(),
            r.1 as int == self.failed_count(),
    {
        (self.renewed, self.failed)
    }
}

} // verus!
