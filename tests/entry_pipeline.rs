use addressology::codec::prefixed_hex_text;
use addressology::entry::{
    claimed_address_matches, lowered_claim_matches, parse_reference, EntryAction, EntryEvent,
    EntryPipeline, EntryStage, FancyNewResult, ParseFailure, Reference, ScoredCandidate,
    SCORE_THRESHOLD,
};
use addressology::model::{AddNewDataEntry, Timestamp};

const FACTORY: &str = "0x9e0c7a2d36b0ff4f6ab8f1e3b3d6f2b5c4a19870";

fn entry(factory: &str, claim: Option<&str>) -> AddNewDataEntry {
    AddNewDataEntry {
        salt: "0x01".to_string(),
        factory: factory.to_string(),
        address: claim.map(|c| c.to_string()),
    }
}

fn derived() -> [u8; 20] {
    let mut a = [0u8; 20];
    for (i, b) in a.iter_mut().enumerate() {
        *b = 0xa0 + i as u8;
    }
    a
}

const DERIVED_TEXT: &str = "0xa0a1a2a3a4a5a6a7a8a9aaabacadaeafb0b1b2b3";

fn scored(score: u64) -> EntryEvent {
    EntryEvent::Scored(ScoredCandidate {
        address: derived(),
        score,
        price: 7,
        category: "leading".to_string(),
        created: Timestamp { secs: 1_700_000_000, nanos: 0 },
    })
}

fn to_score(claim: Option<&str>) -> EntryPipeline {
    let (mut p, a) = EntryPipeline::start(entry(FACTORY, claim), Some(5));
    assert_eq!(a, EntryAction::Resolve);
    assert_eq!(p.advance(EntryEvent::Resolved), EntryAction::Score);
    p
}

#[test]
fn factory_with_prefix_is_an_address() {
    match parse_reference(FACTORY) {
        Ok(Reference::Factory(a)) => {
            assert_eq!(a[0], 0x9e);
            assert_eq!(a[19], 0x70);
        }
        _ => panic!("expected a factory"),
    }
}

#[test]
fn factory_without_prefix_is_an_address() {
    match parse_reference(&FACTORY[2..]) {
        Ok(Reference::Factory(a)) => assert_eq!(a[1], 0x0c),
        _ => panic!("expected a factory"),
    }
}

#[test]
fn address_shaped_garbage_is_bad_address() {
    let bad = "0xZZ0c7a2d36b0ff4f6ab8f1e3b3d6f2b5c4a19870";
    assert!(matches!(parse_reference(bad), Err(ParseFailure::BadAddress)));
}

#[test]
fn short_invalid_hex_is_a_parse_error() {
    assert!(matches!(parse_reference("0xZZ"), Err(ParseFailure::BadPublicKey)));
    let (p, a) = EntryPipeline::start(entry("0xZZ", None), None);
    assert_eq!(p.stage, EntryStage::Finished);
    assert_eq!(a, EntryAction::Finish(FancyNewResult::ParseError(ParseFailure::BadPublicKey)));
}

#[test]
fn public_key_is_normalized_to_lowercase() {
    let key = format!("0x{}", "AB".repeat(64));
    match parse_reference(&key) {
        Ok(Reference::PublicKey(t)) => assert_eq!(t, format!("0x{}", "ab".repeat(64))),
        _ => panic!("expected a public key"),
    }
    match parse_reference(&"0f".repeat(64)) {
        Ok(Reference::PublicKey(t)) => assert_eq!(t, format!("0x{}", "0f".repeat(64))),
        _ => panic!("expected a public key"),
    }
}

#[test]
fn public_key_of_wrong_length() {
    let key = format!("0x{}", "11".repeat(32));
    assert!(matches!(parse_reference(&key), Err(ParseFailure::WrongKeyLength(32))));
}

#[test]
fn odd_public_key_is_bad() {
    assert!(matches!(parse_reference("0xabc"), Err(ParseFailure::BadPublicKey)));
}

#[test]
fn prefixed_hex_text_spells_bytes() {
    assert_eq!(prefixed_hex_text(&[0x00, 0x7f, 0xff]), "0x007fff");
    assert_eq!(prefixed_hex_text(&[]), "0x");
}

#[test]
fn claim_matching_ignores_case() {
    let a = derived();
    assert!(claimed_address_matches(DERIVED_TEXT, &a));
    assert!(claimed_address_matches(&DERIVED_TEXT.to_uppercase().replace("0X", "0x"), &a));
    assert!(claimed_address_matches("0XA0A1A2A3A4A5A6A7A8A9AAABACADAEAFB0B1B2B3", &a));
    assert!(!claimed_address_matches("a0a1a2a3a4a5a6a7a8a9aaabacadaeafb0b1b2b3", &a));
    assert!(!lowered_claim_matches("0xA0a1a2a3a4a5a6a7a8a9aaabacadaeafb0b1b2b3", &a));
}

#[test]
fn low_score_is_never_stored() {
    let mut p = to_score(None);
    let a = p.advance(scored(5_000_000_000));
    assert_eq!(a, EntryAction::Finish(FancyNewResult::ScoreTooLow));
    assert!(p.candidate.is_none());
}

#[test]
fn threshold_score_is_accepted() {
    let mut p = to_score(None);
    assert_eq!(p.advance(scored(SCORE_THRESHOLD)), EntryAction::Insert);
    let c = p.candidate.as_ref().unwrap();
    assert_eq!(c.score, SCORE_THRESHOLD);
    assert_eq!(c.job_id, Some(5));
    assert_eq!(c.salt, "0x01");
    assert_eq!(c.category, "leading");
    assert!(c.factory.is_some());
    assert!(c.public_key_base.is_none());
    assert_eq!(p.advance(EntryEvent::Inserted), EntryAction::Finish(FancyNewResult::Accepted(SCORE_THRESHOLD)));
}

#[test]
fn mismatched_claim_is_a_parse_error() {
    let mut p = to_score(Some("0x0000000000000000000000000000000000000001"));
    let a = p.advance(scored(20_000_000_000));
    assert_eq!(a, EntryAction::Finish(FancyNewResult::ParseError(ParseFailure::AddressMismatch)));
}

#[test]
fn matching_claim_in_upper_case_is_stored() {
    let mut p = to_score(Some("0xA0A1A2A3A4A5A6A7A8A9AAABACADAEAFB0B1B2B3"));
    assert_eq!(p.advance(scored(20_000_000_000)), EntryAction::Insert);
}

#[test]
fn malformed_score_is_a_parse_error() {
    let mut p = to_score(None);
    assert_eq!(
        p.advance(EntryEvent::Malformed),
        EntryAction::Finish(FancyNewResult::ParseError(ParseFailure::Malformed))
    );
}

#[test]
fn conflict_is_a_duplicate() {
    let mut p = to_score(None);
    p.advance(scored(20_000_000_000));
    assert_eq!(p.advance(EntryEvent::Conflict), EntryAction::Finish(FancyNewResult::Duplicate));
}

#[test]
fn storage_failures_are_fatal() {
    let (mut p, _) = EntryPipeline::start(entry(FACTORY, None), None);
    assert_eq!(p.advance(EntryEvent::StorageFailed), EntryAction::Finish(FancyNewResult::Error));
    let mut p = to_score(None);
    p.advance(scored(20_000_000_000));
    assert_eq!(p.advance(EntryEvent::StorageFailed), EntryAction::Finish(FancyNewResult::Error));
}

#[test]
fn public_key_entry_stores_its_key() {
    let key = format!("0x{}", "CD".repeat(64));
    let (mut p, a) = EntryPipeline::start(entry(&key, None), None);
    assert_eq!(a, EntryAction::Resolve);
    p.advance(EntryEvent::Resolved);
    p.advance(scored(30_000_000_000));
    let c = p.candidate.as_ref().unwrap();
    assert_eq!(c.public_key_base.as_deref(), Some(format!("0x{}", "cd".repeat(64)).as_str()));
    assert!(c.factory.is_none());
}
