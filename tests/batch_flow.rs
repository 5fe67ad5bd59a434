use addressology::batch::{BatchConclusion, FancyBatch};
use addressology::entry::{
    EntryAction, EntryEvent, EntryPipeline, FancyNewResult, Reference, ScoredCandidate,
};
use addressology::model::{AddNewDataEntry, JobDbObj, Timestamp};
use addressology::registry::{RegistryAction, RegistryEvent, RegistryLookup, RegistryStage};

const NOW: Timestamp = Timestamp { secs: 1_700_000_123, nanos: 456_789_321 };
use std::collections::HashMap;

const FACTORY: &str = "0x9e0c7a2d36b0ff4f6ab8f1e3b3d6f2b5c4a19870";
const JOB: u128 = 77;

/// A store with unique candidate addresses and registry values, a job
/// ledger, and a transaction that is either committed or dropped.
struct Store {
    candidates: HashMap<[u8; 20], u64>,
    registry: HashMap<Vec<u8>, u128>,
    job: JobDbObj,
    next_id: u128,
}

fn job() -> JobDbObj {
    let t = Timestamp { secs: 1_600_000_000, nanos: 0 };
    JobDbObj {
        uid: JOB,
        cruncher_ver: "1.0".to_string(),
        started_at: t,
        updated_at: t,
        finished_at: None,
        requestor_id: None,
        hashes_reported: 0,
        hashes_accepted: 1_000,
        entries_accepted: 3,
        entries_rejected: 4,
        cost_reported: 0,
        miner: "m".to_string(),
        job_extra_info: None,
    }
}

fn store() -> Store {
    Store { candidates: HashMap::new(), registry: HashMap::new(), job: job(), next_id: 1 }
}

fn reference_key(r: &Reference) -> Vec<u8> {
    match r {
        Reference::Factory(a) => a.to_vec(),
        Reference::PublicKey(t) => t.as_bytes().to_vec(),
    }
}

/// The salt is the decimal score; the address is the salt's bytes, padded.
fn score(e: &AddNewDataEntry) -> Option<ScoredCandidate> {
    let s: u64 = e.salt.parse().ok()?;
    let mut address = [0u8; 20];
    for (i, b) in e.salt.bytes().take(20).enumerate() {
        address[i] = b;
    }
    Some(ScoredCandidate {
        address,
        score: s,
        price: 1,
        category: "c".to_string(),
        created: Timestamp { secs: 1_700_000_000, nanos: 0 },
    })
}

fn entry(salt: &str) -> AddNewDataEntry {
    AddNewDataEntry { salt: salt.to_string(), factory: FACTORY.to_string(), address: None }
}

/// Runs one batch; the entry at `fail_at` meets a storage outage when it
/// is stored. Gives the per-entry outcomes and the summary if committed.
fn run(
    st: &mut Store,
    entries: Vec<AddNewDataEntry>,
    fail_at: Option<usize>,
) -> (Vec<FancyNewResult>, Option<addressology::batch::BatchSummary>) {
    let mut pending: HashMap<[u8; 20], u64> = HashMap::new();
    let mut pending_reg: HashMap<Vec<u8>, u128> = HashMap::new();
    let mut batch = FancyBatch::new(JOB, 500, 9);
    let mut outs = Vec::new();
    for (i, e) in entries.into_iter().enumerate() {
        let (mut p, mut a) = EntryPipeline::start(e, Some(JOB));
        let outcome = loop {
            a = match a {
                EntryAction::Finish(o) => break o,
                EntryAction::Resolve => {
                    let key = reference_key(p.reference.as_ref().unwrap());
                    if !st.registry.contains_key(&key) && !pending_reg.contains_key(&key) {
                        pending_reg.insert(key, st.next_id);
                        st.next_id += 1;
                    }
                    p.advance(EntryEvent::Resolved)
                }
                EntryAction::Score => match score(&p.entry) {
                    Some(s) => p.advance(EntryEvent::Scored(s)),
                    None => p.advance(EntryEvent::Malformed),
                },
                EntryAction::Insert => {
                    let c = p.candidate.as_ref().unwrap();
                    if fail_at == Some(i) {
                        p.advance(EntryEvent::StorageFailed)
                    } else if st.candidates.contains_key(&c.address)
                        || pending.contains_key(&c.address)
                    {
                        p.advance(EntryEvent::Conflict)
                    } else {
                        pending.insert(c.address, c.score);
                        p.advance(EntryEvent::Inserted)
                    }
                }
            };
        };
        outs.push(outcome);
        batch.record(outcome);
        if batch.aborted {
            break;
        }
    }
    match batch.conclude() {
        BatchConclusion::Commit(delta, summary) => {
            assert!(st.job.apply_delta(&delta, Timestamp { secs: 1_800_000_000, nanos: 0 }));
            st.candidates.extend(pending);
            st.registry.extend(pending_reg);
            (outs, Some(summary))
        }
        BatchConclusion::Rollback => (outs, None),
    }
}

#[test]
fn resubmission_is_a_duplicate() {
    let mut st = store();
    let (o1, s1) = run(&mut st, vec![entry("20000000000")], None);
    assert_eq!(o1, vec![FancyNewResult::Accepted(20_000_000_000)]);
    assert_eq!(s1.unwrap().entries_accepted, 1);
    let (o2, s2) = run(&mut st, vec![entry("20000000000")], None);
    assert_eq!(o2, vec![FancyNewResult::Duplicate]);
    let s2 = s2.unwrap();
    assert_eq!(s2.entries_rejected, 1);
    assert_eq!(s2.total_score, 0);
    assert_eq!(st.candidates.len(), 1);
}

#[test]
fn duplicate_within_one_batch() {
    let mut st = store();
    let (o, s) = run(&mut st, vec![entry("20000000000"), entry("20000000000")], None);
    assert_eq!(o, vec![FancyNewResult::Accepted(20_000_000_000), FancyNewResult::Duplicate]);
    assert_eq!(s.unwrap().entries_rejected, 1);
}

#[test]
fn low_score_counts_as_rejected() {
    let mut st = store();
    let (o, s) = run(&mut st, vec![entry("5000000000")], None);
    assert_eq!(o, vec![FancyNewResult::ScoreTooLow]);
    let s = s.unwrap();
    assert_eq!((s.entries_accepted, s.entries_rejected, s.entries_parse_error), (0, 1, 0));
    assert!(st.candidates.is_empty());
    assert_eq!(st.job.entries_rejected, 5);
}

#[test]
fn parse_error_does_not_stop_the_batch() {
    let mut st = store();
    let mut bad = entry("30000000000");
    bad.factory = "0xZZ".to_string();
    let (o, s) = run(&mut st, vec![bad, entry("30000000000")], None);
    assert!(matches!(o[0], FancyNewResult::ParseError(_)));
    assert_eq!(o[1], FancyNewResult::Accepted(30_000_000_000));
    let s = s.unwrap();
    assert_eq!((s.entries_accepted, s.entries_rejected, s.entries_parse_error), (1, 1, 1));
}

#[test]
fn outage_on_third_of_five_rolls_back() {
    let mut st = store();
    let entries = vec![
        entry("20000000000"),
        entry("30000000000"),
        entry("40000000000"),
        entry("50000000000"),
        entry("60000000000"),
    ];
    let (o, s) = run(&mut st, entries, Some(2));
    assert_eq!(o.len(), 3);
    assert_eq!(o[2], FancyNewResult::Error);
    assert!(s.is_none());
    assert!(st.candidates.is_empty());
    assert!(st.registry.is_empty());
    assert_eq!(st.job.hashes_accepted, 1_000);
    assert_eq!(st.job.entries_accepted, 3);
    assert_eq!(st.job.entries_rejected, 4);
    assert_eq!(st.job.updated_at.secs, 1_600_000_000);
}

#[test]
fn two_accepted_scores_are_summed() {
    let mut st = store();
    let (_, s) = run(&mut st, vec![entry("20000000000"), entry("30000000000")], None);
    let s = s.unwrap();
    assert_eq!(s.total_score, 50_000_000_000);
    assert_eq!(s.entries_accepted, 2);
    assert_eq!(st.job.hashes_accepted, 1_000 + 50_000_000_000);
    assert_eq!(st.job.entries_accepted, 5);
    assert_eq!(st.job.hashes_reported, 500);
    assert_eq!(st.job.cost_reported, 9);
    assert_eq!(st.job.updated_at.secs, 1_800_000_000);
}

#[test]
fn ledger_refuses_a_foreign_delta() {
    let mut batch = FancyBatch::new(JOB + 1, 1, 1);
    batch.record(FancyNewResult::Accepted(10));
    let mut j = job();
    match batch.conclude() {
        BatchConclusion::Commit(d, _) => {
            assert!(!j.apply_delta(&d, Timestamp { secs: 5, nanos: 0 }));
        }
        BatchConclusion::Rollback => panic!("batch was not aborted"),
    }
    assert_eq!(j.hashes_accepted, 1_000);
    assert_eq!(j.updated_at.secs, 1_600_000_000);
}

#[test]
fn ledger_refuses_an_overflowing_delta() {
    let mut j = job();
    j.hashes_accepted = u128::MAX - 5;
    let mut batch = FancyBatch::new(JOB, 1, 1);
    batch.record(FancyNewResult::Accepted(10));
    if let BatchConclusion::Commit(d, _) = batch.conclude() {
        assert!(!j.apply_delta(&d, Timestamp { secs: 5, nanos: 0 }));
    }
    assert_eq!(j.hashes_accepted, u128::MAX - 5);
}

/// Drives one lookup against a registry, answering each action.
fn answer(t: &HashMap<Vec<u8>, u128>, key: &[u8], a: RegistryAction) -> RegistryEvent {
    match a {
        RegistryAction::Reread => match t.get(key) {
            Some(id) => RegistryEvent::Found(*id),
            None => RegistryEvent::StorageFailed,
        },
        _ => RegistryEvent::StorageFailed,
    }
}

#[test]
fn concurrent_registration_resolves_to_one_row() {
    let key = b"0x9e0c".to_vec();
    let mut table: HashMap<Vec<u8>, u128> = HashMap::new();
    let mut first = RegistryLookup::new();
    let mut second = RegistryLookup::new();
    // Both find the value missing before either inserts.
    let a1 = first.advance(RegistryEvent::Missing, NOW);
    let a2 = second.advance(RegistryEvent::Missing, NOW);
    let (id1, id2) = match (a1, a2) {
        (RegistryAction::Insert(x, t1), RegistryAction::Insert(y, t2)) => {
            assert_eq!(t1, Timestamp { secs: 1_700_000_123, nanos: 456_789_000 });
            assert_eq!(t2, t1);
            // Version 4, variant bits 10.
            for id in [x, y] {
                assert_eq!((id >> 76) & 0xf, 4);
                assert_eq!((id >> 62) & 0x3, 2);
            }
            (x, y)
        }
        _ => panic!("expected inserts"),
    };
    assert_ne!(id1, id2);
    table.insert(key.clone(), id1);
    let done1 = first.advance(RegistryEvent::Inserted(id1), NOW);
    assert_eq!(done1, RegistryAction::Done(id1));
    // The second insert meets the uniqueness constraint.
    assert!(table.contains_key(&key));
    let a = second.advance(RegistryEvent::Conflict, NOW);
    assert_eq!(a, RegistryAction::Reread);
    assert_eq!(second.stage, RegistryStage::Reread);
    let done2 = second.advance(answer(&table, &key, a), NOW);
    assert_eq!(done2, RegistryAction::Done(id1));
    assert_eq!(table.len(), 1);
    let _ = id2;
}

#[test]
fn registry_lookup_finds_existing_row() {
    let mut l = RegistryLookup::new();
    assert_eq!(l.advance(RegistryEvent::Found(9), NOW), RegistryAction::Done(9));
    assert_eq!(l.stage, RegistryStage::Done);
}

#[test]
fn registry_failure_is_fatal() {
    let mut l = RegistryLookup::new();
    assert_eq!(l.advance(RegistryEvent::StorageFailed, NOW), RegistryAction::Fail);
    let mut l = RegistryLookup::new();
    l.advance(RegistryEvent::Missing, NOW);
    l.advance(RegistryEvent::Conflict, NOW);
    assert_eq!(l.advance(RegistryEvent::Missing, NOW), RegistryAction::Fail);
    assert_eq!(l.stage, RegistryStage::Failed);
}
