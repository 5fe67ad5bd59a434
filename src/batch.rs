use vstd::prelude::*;
use crate::codec::{address_parse, hex_decoded, strip_0x};
use crate::entry::{parsed_reference, FancyNewResult};
use crate::ledger::JobTotals;
use crate::model::Uid;

verus! {

/// Sum of the scores of the accepted outcomes.
pub open spec fn accepted_total(outs: Seq<FancyNewResult>) -> int
    decreases outs.len(),
{
    if outs.len() == 0 {
        0
    } else {
        accepted_total(outs.drop_last()) + match outs.last() {
            FancyNewResult::Accepted(s) => s as int,
            _ => 0,
        }
    }
}

/// Number of outcomes that satisfy `f`.
pub open spec fn count_of(outs: Seq<FancyNewResult>, f: spec_fn(FancyNewResult) -> bool) -> int
    decreases outs.len(),
{
    if outs.len() == 0 {
        0
    } else {
        count_of(outs.drop_last(), f) + if f(outs.last()) {
            1int
        } else {
            0
        }
    }
}

pub open spec fn is_accepted(o: FancyNewResult) -> bool {
    o is Accepted
}

/// Duplicates, parse errors and too-low scores: counted, never fatal.
pub open spec fn is_rejected(o: FancyNewResult) -> bool {
    o is Duplicate || o is ParseError || o is ScoreTooLow
}

pub open spec fn is_parse_error(o: FancyNewResult) -> bool {
    o is ParseError
}

pub open spec fn has_error(outs: Seq<FancyNewResult>) -> bool {
    exists|i: int| 0 <= i < outs.len() && outs[i] is Error
}

/// What a batch reports to its submitter.
#[derive(Clone, Copy, PartialEq, Eq, Structural, Debug)]
pub struct BatchSummary {
    pub total_score: u128,
    pub entries_accepted: u64,
    pub entries_rejected: u64,
    pub entries_parse_error: u64,
}

/// The summary after one more outcome that is not fatal; a fatal one
/// leaves it as it is.
pub open spec fn summary_after(t: BatchSummary, o: FancyNewResult) -> BatchSummary {
    match o {
        FancyNewResult::Accepted(s) => BatchSummary {
            total_score: (t.total_score + s) as u128,
            entries_accepted: (t.entries_accepted + 1) as u64,
            ..t
        },
        FancyNewResult::ParseError(_) => BatchSummary {
            entries_rejected: (t.entries_rejected + 1) as u64,
            entries_parse_error: (t.entries_parse_error + 1) as u64,
            ..t
        },
        FancyNewResult::Duplicate | FancyNewResult::ScoreTooLow => BatchSummary {
            entries_rejected: (t.entries_rejected + 1) as u64,
            ..t
        },
        FancyNewResult::Error => t,
    }
}

/// The change a batch makes to its job: scores and counts are added,
/// the reported figures replace the old ones.
#[derive(Clone, Copy, PartialEq, Eq, Structural, Debug)]
pub struct LedgerDelta {
    pub job_id: Uid,
    pub score: u128,
    pub entries_accepted: u64,
    pub entries_rejected: u64,
    pub hashes_reported: u64,
    pub cost_reported: u64,
}

/// How a batch ends.
#[derive(Clone, Copy, PartialEq, Eq, Structural, Debug)]
pub enum BatchConclusion {
    /// Apply the delta to the job, commit, and answer with the summary.
    Commit(LedgerDelta, BatchSummary),
    /// Roll everything back and answer with a failure.
    Rollback,
}

/// The outcomes of one batch so far, on behalf of one job.
pub struct FancyBatch {
    pub job_id: Uid,
    pub hashes_reported: u64,
    pub cost_reported: u64,
    pub summary: BatchSummary,
    pub aborted: bool,
    pub outcomes: Ghost<Seq<FancyNewResult>>,
}

impl FancyBatch {
    /// The counters are those of the recorded outcomes; a batch is aborted
    /// once, and only once, a fatal outcome is recorded, and nothing
    /// follows it.
    pub open spec fn wf(&self) -> bool {
        let outs = self.outcomes@;
        &&& self.summary.total_score == accepted_total(outs)
        &&& self.summary.entries_accepted == count_of(outs, |o| is_accepted(o))
        &&& self.summary.entries_rejected == count_of(outs, |o| is_rejected(o))
        &&& self.summary.entries_parse_error == count_of(outs, |o| is_parse_error(o))
        &&& self.aborted == has_error(outs)
        &&& self.summary.entries_parse_error <= self.summary.entries_rejected
        &&& self.summary.total_score <= self.summary.entries_accepted * 0xffff_ffff_ffff_ffffu64
    }

    pub fn new(job_id: Uid, hashes_reported: u64, cost_reported: u64) -> (r: FancyBatch)
        ensures
            r.wf(),
            r.outcomes@ == Seq::<FancyNewResult>::empty(),
            r.job_id == job_id,
            r.hashes_reported == hashes_reported,
            r.cost_reported == cost_reported,
    {
        FancyBatch {
            job_id,
            hashes_reported,
            cost_reported,
            summary: BatchSummary {
                total_score: 0,
                entries_accepted: 0,
                entries_rejected: 0,
                entries_parse_error: 0,
            },
            aborted: false,
            outcomes: Ghost(Seq::empty()),
        }
    }

    /// Counts one more outcome; a fatal one aborts the batch.
    pub fn record(&mut self, o: FancyNewResult)
        requires
            old(self).wf(),
            !old(self).aborted,
            old(self).summary.entries_accepted < 0xffff_ffff_ffff_ffffu64,
            old(self).summary.entries_rejected < 0xffff_ffff_ffff_ffffu64,
        ensures
            final(self).wf(),
            final(self).outcomes@ == old(self).outcomes@.push(o),
            final(self).summary == summary_after(old(self).summary, o),
            final(self).aborted == (o is Error),
            final(self).job_id == old(self).job_id,
            final(self).hashes_reported == old(self).hashes_reported,
            final(self).cost_reported == old(self).cost_reported,
    {
        let ghost outs = self.outcomes@;
        let ghost next = outs.push(o);
        assert(next.drop_last() =~= outs);
        proof {
            self.outcomes = Ghost(next);
        }
        match o {
            FancyNewResult::Accepted(s) => {
                proof {
                    assert(self.summary.total_score + s <= (self.summary.entries_accepted + 1)
                        * 0xffff_ffff_ffff_ffffu64) by (nonlinear_arith)
                        requires
                            self.summary.total_score <= self.summary.entries_accepted
                                * 0xffff_ffff_ffff_ffffu64,
                            s <= 0xffff_ffff_ffff_ffffu64,
                            self.summary.entries_accepted < 0xffff_ffff_ffff_ffffu64,
                    ;
                    assert(self.summary.total_score + s <= 0xffff_ffff_ffff_ffff_ffff_ffff_ffff_ffffu128)
                        by (nonlinear_arith)
                        requires
                            self.summary.total_score + s <= (self.summary.entries_accepted + 1)
                                * 0xffff_ffff_ffff_ffffu64,
                            self.summary.entries_accepted < 0xffff_ffff_ffff_ffffu64,
                    ;
                }
                self.summary.total_score = self.summary.total_score + s as u128;
                self.summary.entries_accepted = self.summary.entries_accepted + 1;
            },
            FancyNewResult::ParseError(_) => {
                self.summary.entries_rejected = self.summary.entries_rejected + 1;
                self.summary.entries_parse_error = self.summary.entries_parse_error + 1;
            },
            FancyNewResult::Duplicate | FancyNewResult::ScoreTooLow => {
                self.summary.entries_rejected = self.summary.entries_rejected + 1;
            },
            FancyNewResult::Error => {
                self.aborted = true;
            },
        }
        proof {
            if !has_error(next) {
                assert(!(o is Error)) by {
                    assert(next[next.len() - 1] == o);
                }
            }
            if has_error(next) && !(o is Error) {
                let i = choose|i: int| 0 <= i < next.len() && next[i] is Error;
                assert(outs[i] is Error);
            }
        }
    }

    /// The change this batch makes to its job if it commits.
    pub open spec fn delta(&self) -> LedgerDelta {
        LedgerDelta {
            job_id: self.job_id,
            score: self.summary.total_score,
            entries_accepted: self.summary.entries_accepted,
            entries_rejected: self.summary.entries_rejected,
            hashes_reported: self.hashes_reported,
            cost_reported: self.cost_reported,
        }
    }

    pub open spec fn conclusion(&self) -> BatchConclusion {
        if self.aborted {
            BatchConclusion::Rollback
        } else {
            BatchConclusion::Commit(self.delta(), self.summary)
        }
    }

    /// Commits with the batch's delta and summary, unless it was aborted.
    pub fn conclude(&self) -> (r: BatchConclusion)
        ensures
            r == self.conclusion(),
    {
        if self.aborted {
            BatchConclusion::Rollback
        } else {
            BatchConclusion::Commit(
                LedgerDelta {
                    job_id: self.job_id,
                    score: self.summary.total_score,
                    entries_accepted: self.summary.entries_accepted,
                    entries_rejected: self.summary.entries_rejected,
                    hashes_reported: self.hashes_reported,
                    cost_reported: self.cost_reported,
                },
                self.summary,
            )
        }
    }
}

/// A batch in which any entry ended in a storage failure rolls back as a
/// whole: it commits no candidate and leaves its job's ledger untouched.
pub proof fn lemma_fatal_outcome_rolls_back(b: FancyBatch, k: int)
    requires
        b.wf(),
        0 <= k < b.outcomes@.len(),
        b.outcomes@[k] is Error,
    ensures
        b.aborted,
        b.conclusion() == BatchConclusion::Rollback,
{
}

/// A batch that commits reports, and adds to its job, exactly the sum of
/// the scores of its accepted entries; its accepted count grows by the
/// number of those entries and its rejected count by the number of the
/// others.
pub proof fn lemma_commit_adds_accepted_scores(b: FancyBatch, t: JobTotals)
    requires
        b.wf(),
        !has_error(b.outcomes@),
    ensures
        b.conclusion() matches BatchConclusion::Commit(d, s) && {
            &&& s.total_score == accepted_total(b.outcomes@)
            &&& t.apply(d).hashes_accepted == t.hashes_accepted + accepted_total(b.outcomes@)
            &&& t.apply(d).entries_accepted == t.entries_accepted + count_of(
                b.outcomes@,
                |o| is_accepted(o),
            )
            &&& t.apply(d).entries_rejected == t.entries_rejected + count_of(
                b.outcomes@,
                |o| is_rejected(o),
            )
        },
{
}

/// A factory field that is neither an address nor hexadecimal text is a
/// parse error, which the batch counts as rejected and goes on from.
pub proof fn lemma_unreadable_factory_is_counted(b: Seq<u8>, outs: Seq<FancyNewResult>)
    requires
        address_parse(b) is None,
        hex_decoded(strip_0x(b)) is None,
        !has_error(outs),
    ensures
        parsed_reference(b) is Err,
        is_rejected(FancyNewResult::ParseError(parsed_reference(b)->Err_0)),
        is_parse_error(FancyNewResult::ParseError(parsed_reference(b)->Err_0)),
        !has_error(outs.push(FancyNewResult::ParseError(parsed_reference(b)->Err_0))),
{
    let next = outs.push(FancyNewResult::ParseError(parsed_reference(b)->Err_0));
    assert forall|i: int| 0 <= i < next.len() implies !(next[i] is Error) by {
        if i < outs.len() {
            assert(next[i] == outs[i]);
        }
    }
}

} // verus!
