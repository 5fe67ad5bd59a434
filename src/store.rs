use vstd::prelude::*;
use crate::batch::{count_of, is_accepted, is_parse_error, is_rejected, BatchConclusion, FancyBatch};
use crate::entry::{
    next_step, EntryAction, EntryEvent, EntryPipeline, EntryStage, FancyNewResult,
    ScoredCandidate, SCORE_THRESHOLD,
};
use crate::ledger::JobTotals;
use crate::model::Uid;
use crate::registry::{registry_answer, registry_next, RegistryEvent, RegistryStage};

verus! {

// A table with a uniqueness constraint, keyed by its unique column: the
// candidates by address, the registries by the value they hold.

/// An insert under a uniqueness constraint: refused, and nothing changes,
/// when the key is present.
pub open spec fn insert_unique<V>(t: Map<Seq<u8>, V>, k: Seq<u8>, v: V) -> Map<Seq<u8>, V> {
    if t.contains_key(k) {
        t
    } else {
        t.insert(k, v)
    }
}

/// How the candidate store answers an insert of a candidate with address `k`.
pub open spec fn candidate_reply<V>(t: Map<Seq<u8>, V>, k: Seq<u8>) -> EntryEvent {
    if t.contains_key(k) {
        EntryEvent::Conflict
    } else {
        EntryEvent::Inserted
    }
}

/// How a registry answers a lookup of `k`.
pub open spec fn registry_select(t: Map<Seq<u8>, Uid>, k: Seq<u8>) -> RegistryEvent {
    if t.contains_key(k) {
        RegistryEvent::Found(t[k])
    } else {
        RegistryEvent::Missing
    }
}

/// How a registry answers an insert of `k` with row id `id`.
pub open spec fn registry_insert_reply(t: Map<Seq<u8>, Uid>, k: Seq<u8>, id: Uid) -> RegistryEvent {
    if t.contains_key(k) {
        RegistryEvent::Conflict
    } else {
        RegistryEvent::Inserted(id)
    }
}

/// The same entry submitted in two batches, one after the other, derives
/// the same address: the first batch stores it and accepts it, the second
/// is answered with a conflict, counts it as a duplicate and stores
/// nothing, so one row holds the address, the first one's.
pub proof fn lemma_resubmission_is_duplicate(
    t0: Map<Seq<u8>, u64>,
    first: EntryPipeline,
    second: EntryPipeline,
)
    requires
        first.wf(),
        second.wf(),
        first.stage == EntryStage::Persist,
        second.stage == EntryStage::Persist,
        first.candidate->Some_0.address == second.candidate->Some_0.address,
        !t0.contains_key(first.candidate->Some_0.address@),
    ensures
        ({
            let a = first.candidate->Some_0.address@;
            let s1 = first.candidate->Some_0.score;
            let t1 = insert_unique(t0, a, s1);
            &&& next_step(first, candidate_reply(t0, a)).1 == EntryAction::Finish(
                FancyNewResult::Accepted(s1),
            )
            &&& next_step(second, candidate_reply(t1, a)).1 == EntryAction::Finish(
                FancyNewResult::Duplicate,
            )
            &&& insert_unique(t1, a, second.candidate->Some_0.score) == t1
            &&& t1.contains_key(a) && t1[a] == s1
            &&& t1.dom() == t0.dom().insert(a)
        }),
{
    let a = first.candidate->Some_0.address@;
    let t1 = insert_unique(t0, a, first.candidate->Some_0.score);
    assert(t1.dom() =~= t0.dom().insert(a));
}

/// Two transactions that both find a value missing from a registry and
/// both try to insert it end with the same row: the later insert is
/// refused, the refused lookup reads the row back, and the registry holds
/// one row for the value.
pub proof fn lemma_concurrent_registration_agrees(
    t0: Map<Seq<u8>, Uid>,
    v: Seq<u8>,
    id_a: Uid,
    id_b: Uid,
)
    requires
        !t0.contains_key(v),
    ensures
        ({
            let miss = registry_select(t0, v);
            let reply_a = registry_insert_reply(t0, v, id_a);
            let t1 = insert_unique(t0, v, id_a);
            let reply_b = registry_insert_reply(t1, v, id_b);
            let t2 = insert_unique(t1, v, id_b);
            let reread = registry_select(t2, v);
            &&& registry_next(RegistryStage::Select, miss) == RegistryStage::Insert
            &&& registry_answer(RegistryStage::Insert, reply_a) == Some(id_a)
            &&& registry_next(RegistryStage::Insert, reply_b) == RegistryStage::Reread
            &&& registry_answer(RegistryStage::Reread, reread) == Some(id_a)
            &&& t2 == t1
            &&& t2.dom() == t0.dom().insert(v)
        }),
{
    let t1 = insert_unique(t0, v, id_a);
    assert(t1.dom() =~= t0.dom().insert(v));
}

/// A batch whose one entry ended rejected, but not as a parse error,
/// commits a score of zero and one rejection: its job gains one rejected
/// entry and keeps its accepted work and accepted count.
pub proof fn lemma_single_rejection_batch(b: FancyBatch, t: JobTotals)
    requires
        b.wf(),
        b.outcomes@.len() == 1,
        is_rejected(b.outcomes@[0]),
        !is_parse_error(b.outcomes@[0]),
    ensures
        b.conclusion() matches BatchConclusion::Commit(d, s) && {
            &&& s.total_score == 0
            &&& s.entries_accepted == 0
            &&& s.entries_rejected == 1
            &&& s.entries_parse_error == 0
            &&& t.apply(d).hashes_accepted == t.hashes_accepted
            &&& t.apply(d).entries_accepted == t.entries_accepted
            &&& t.apply(d).entries_rejected == t.entries_rejected + 1
        },
{
    let outs = b.outcomes@;
    let e = outs.drop_last();
    assert(e.len() == 0);
    assert(count_of(e, |o| is_accepted(o)) == 0);
    assert(count_of(e, |o| is_rejected(o)) == 0);
    assert(count_of(e, |o| is_parse_error(o)) == 0);
    assert(outs.last() == outs[0]);
    assert(count_of(outs, |o| is_accepted(o)) == 0);
    assert(count_of(outs, |o| is_rejected(o)) == 1);
    assert(count_of(outs, |o| is_parse_error(o)) == 0);
}

/// A batch that resubmits one stored entry answers with a duplicate: it
/// commits a score of zero and one rejection, no parse error, and its job
/// gains one rejected entry and keeps its accepted work and count.
pub proof fn lemma_resubmitted_batch_is_one_rejection(
    t1: Map<Seq<u8>, u64>,
    second: EntryPipeline,
    b: FancyBatch,
    t: JobTotals,
)
    requires
        second.wf(),
        second.stage == EntryStage::Persist,
        t1.contains_key(second.candidate->Some_0.address@),
        b.wf(),
        b.outcomes@ == seq![FancyNewResult::Duplicate],
    ensures
        next_step(second, candidate_reply(t1, second.candidate->Some_0.address@)).1
            == EntryAction::Finish(FancyNewResult::Duplicate),
        b.conclusion() matches BatchConclusion::Commit(d, s) && {
            &&& s.total_score == 0
            &&& s.entries_rejected == 1
            &&& s.entries_parse_error == 0
            &&& t.apply(d).hashes_accepted == t.hashes_accepted
            &&& t.apply(d).entries_accepted == t.entries_accepted
            &&& t.apply(d).entries_rejected == t.entries_rejected + 1
        },
{
    lemma_single_rejection_batch(b, t);
}

/// A batch whose one entry scores below the threshold stores nothing
/// (the entry never reaches an insert) and commits a score of zero and
/// one rejection: its job gains one rejected entry and keeps its accepted
/// work and count.
pub proof fn lemma_low_score_batch_is_one_rejection(
    p: EntryPipeline,
    sc: ScoredCandidate,
    b: FancyBatch,
    t: JobTotals,
)
    requires
        p.stage == EntryStage::Score,
        sc.score < SCORE_THRESHOLD,
        b.wf(),
        b.outcomes@ == seq![FancyNewResult::ScoreTooLow],
    ensures
        next_step(p, EntryEvent::Scored(sc)) == (
            EntryStage::Finished,
            EntryAction::Finish(FancyNewResult::ScoreTooLow),
        ),
        b.conclusion() matches BatchConclusion::Commit(d, s) && {
            &&& s.total_score == 0
            &&& s.entries_rejected == 1
            &&& s.entries_parse_error == 0
            &&& t.apply(d).hashes_accepted == t.hashes_accepted
            &&& t.apply(d).entries_accepted == t.entries_accepted
            &&& t.apply(d).entries_rejected == t.entries_rejected + 1
        },
{
    lemma_single_rejection_batch(b, t);
}

} // verus!
