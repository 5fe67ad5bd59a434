use vstd::prelude::*;
use crate::batch::LedgerDelta;
use crate::model::{JobDbObj, Timestamp};

verus! {

/// The running figures of a job.
pub struct JobTotals {
    pub hashes_accepted: int,
    pub hashes_reported: int,
    pub entries_accepted: int,
    pub entries_rejected: int,
    pub cost_reported: int,
}

impl JobTotals {
    /// Scores and counts are added; the reported figures are replaced.
    pub open spec fn apply(self, d: LedgerDelta) -> JobTotals {
        JobTotals {
            hashes_accepted: self.hashes_accepted + d.score,
            hashes_reported: d.hashes_reported as int,
            entries_accepted: self.entries_accepted + d.entries_accepted,
            entries_rejected: self.entries_rejected + d.entries_rejected,
            cost_reported: d.cost_reported as int,
        }
    }
}

impl JobDbObj {
    pub open spec fn totals(&self) -> JobTotals {
        JobTotals {
            hashes_accepted: self.hashes_accepted as int,
            hashes_reported: self.hashes_reported as int,
            entries_accepted: self.entries_accepted as int,
            entries_rejected: self.entries_rejected as int,
            cost_reported: self.cost_reported as int,
        }
    }

    /// Whether `d` is for this job and its sums fit.
    pub open spec fn accepts(&self, d: LedgerDelta) -> bool {
        &&& d.job_id == self.uid
        &&& self.hashes_accepted + d.score <= u128::MAX
        &&& self.entries_accepted + d.entries_accepted <= u64::MAX
        &&& self.entries_rejected + d.entries_rejected <= u64::MAX
    }

    /// Applies a batch's delta and stamps the update time. A delta for
    /// another job, or one whose sums would not fit, changes nothing and
    /// gives `false`.
    pub fn apply_delta(&mut self, d: &LedgerDelta, now: Timestamp) -> (ok: bool)
        ensures
            ok == old(self).accepts(*d),
            ok ==> final(self).totals() == old(self).totals().apply(*d),
            ok ==> final(self).updated_at == now,
            !ok ==> final(self).totals() == old(self).totals(),
            !ok ==> final(self).updated_at == old(self).updated_at,
            final(self).uid == old(self).uid,
            final(self).cruncher_ver == old(self).cruncher_ver,
            final(self).started_at == old(self).started_at,
            final(self).finished_at == old(self).finished_at,
            final(self).requestor_id == old(self).requestor_id,
            final(self).miner == old(self).miner,
            final(self).job_extra_info == old(self).job_extra_info,
    {
        if d.job_id != self.uid {
            return false;
        }
        if self.hashes_accepted > u128::MAX - d.score {
            return false;
        }
        if self.entries_accepted > u64::MAX - d.entries_accepted {
            return false;
        }
        if self.entries_rejected > u64::MAX - d.entries_rejected {
            return false;
        }
        self.hashes_accepted = self.hashes_accepted + d.score;
        self.entries_accepted = self.entries_accepted + d.entries_accepted;
        self.entries_rejected = self.entries_rejected + d.entries_rejected;
        self.hashes_reported = d.hashes_reported;
        self.cost_reported = d.cost_reported;
        self.updated_at = now;
        true
    }
}

} // verus!
