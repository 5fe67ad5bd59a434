use vstd::prelude::*;
use vstd::string::*;
use vstd::utf8::encode_utf8;
use crate::codec::{
    address_parse, decode_hex, hex_decoded, lower_of, lowercase, parse_address_text,
    prefixed_hex, prefixed_hex_text, strip_0x,
};
use crate::model::{AddNewDataEntry, DbAddress, FancyDbObj, Timestamp, Uid};

verus! {

/// The least score an entry must reach to be accepted.
pub const SCORE_THRESHOLD: u64 = 10000000000;

/// Why an entry was refused as malformed.
#[derive(Clone, Copy, PartialEq, Eq, Structural, Debug)]
pub enum ParseFailure {
    /// An address-shaped factory that is not forty hexadecimal digits.
    BadAddress,
    /// A public key that is not hexadecimal text.
    BadPublicKey,
    /// A public key that decodes to this many bytes instead of sixty-four.
    WrongKeyLength(usize),
    /// The scorer could not derive a candidate from the entry.
    Malformed,
    /// The derived address is not the one the submitter expected.
    AddressMismatch,
}

/// The terminal outcome of one entry.
#[derive(Clone, Copy, PartialEq, Eq, Structural, Debug)]
pub enum FancyNewResult {
    /// Stored, with this score.
    Accepted(u64),
    ParseError(ParseFailure),
    /// Its address is stored already.
    Duplicate,
    /// Storage failed: the whole batch is void.
    Error,
    ScoreTooLow,
}

/// What a candidate was derived from: a factory contract or a public key
/// (kept as `0x` and 128 lowercase digits).
pub enum Reference {
    Factory(DbAddress),
    PublicKey(String),
}

/// A reference as the bytes it names.
pub enum ReferenceSpec {
    Factory(Seq<u8>),
    PublicKey(Seq<u8>),
}

impl Reference {
    pub open spec fn denotes(&self, s: ReferenceSpec) -> bool {
        match (*self, s) {
            (Reference::Factory(a), ReferenceSpec::Factory(x)) => a@ == x,
            (Reference::PublicKey(t), ReferenceSpec::PublicKey(k)) => t@ == prefixed_hex(k),
            _ => false,
        }
    }
}

/// A factory field of 40 or 42 bytes is an address; anything else a key.
pub open spec fn is_address_form(b: Seq<u8>) -> bool {
    b.len() == 40 || b.len() == 42
}

/// How the factory field of an entry is read.
pub open spec fn parsed_reference(b: Seq<u8>) -> Result<ReferenceSpec, ParseFailure> {
    if is_address_form(b) {
        match address_parse(b) {
            Some(a) => Ok(ReferenceSpec::Factory(a)),
            None => Err(ParseFailure::BadAddress),
        }
    } else {
        match hex_decoded(strip_0x(b)) {
            Some(k) => if k.len() == 64 {
                Ok(ReferenceSpec::PublicKey(k))
            } else {
                Err(ParseFailure::WrongKeyLength(k.len() as usize))
            },
            None => Err(ParseFailure::BadPublicKey),
        }
    }
}

pub open spec fn parse_agrees(
    r: Result<Reference, ParseFailure>,
    s: Result<ReferenceSpec, ParseFailure>,
) -> bool {
    match (r, s) {
        (Ok(x), Ok(y)) => x.denotes(y),
        (Err(e), Err(f)) => e == f,
        _ => false,
    }
}

/// Reads the factory field of an entry.
pub fn parse_reference(factory: &str) -> (r: Result<Reference, ParseFailure>)
    ensures
        parse_agrees(r, parsed_reference(factory.spec_bytes())),
{
    let bytes = factory.as_bytes();
    let n = bytes.len();
    if n == 40 || n == 42 {
        match parse_address_text(factory) {
            Some(a) => Ok(Reference::Factory(a)),
            None => Err(ParseFailure::BadAddress),
        }
    } else {
        let digits: &[u8] = if n >= 2 && bytes[0] == 0x30 && bytes[1] == 0x78 {
            bytes.split_at(2).1
        } else {
            bytes
        };
        assert(digits@ == strip_0x(bytes@));
        match decode_hex(digits) {
            Some(key) => {
                if key.len() == 64 {
                    Ok(Reference::PublicKey(prefixed_hex_text(key.as_slice())))
                } else {
                    Err(ParseFailure::WrongKeyLength(key.len()))
                }
            },
            None => Err(ParseFailure::BadPublicKey),
        }
    }
}

/// Whether an already lowercased claim names `address`.
pub fn lowered_claim_matches(lowered: &str, address: &DbAddress) -> (r: bool)
    ensures
        r == (lowered@ == prefixed_hex(address@)),
{
    let expected = prefixed_hex_text(address);
    let given = lowered.to_owned();
    given == expected
}

/// Whether a claimed address names `address`, ignoring case.
pub fn claimed_address_matches(claim: &str, address: &DbAddress) -> (r: bool)
    ensures
        r == (lower_of(claim@) == prefixed_hex(address@)),
{
    let lowered = lowercase(claim);
    lowered_claim_matches(lowered.as_str(), address)
}

/// The claim, if any, agrees with the derived address.
pub open spec fn claim_holds(claim: Option<String>, address: Seq<u8>) -> bool {
    match claim {
        Some(c) => lower_of(c@) == prefixed_hex(address),
        None => true,
    }
}

/// The outcome of a scored entry that is decided before storing it, if any.
pub open spec fn score_verdict(claim: Option<String>, address: Seq<u8>, score: u64) -> Option<
    FancyNewResult,
> {
    if score < SCORE_THRESHOLD {
        Some(FancyNewResult::ScoreTooLow)
    } else if !claim_holds(claim, address) {
        Some(FancyNewResult::ParseError(ParseFailure::AddressMismatch))
    } else {
        None
    }
}

/// Where an entry stands in its pipeline.
#[derive(Clone, Copy, PartialEq, Eq, Structural, Debug)]
pub enum EntryStage {
    /// Waiting for its factory or public key to be registered.
    Register,
    /// Waiting for the scorer.
    Score,
    /// Waiting for the candidate to be stored.
    Persist,
    Finished,
}

/// What the scorer derived from an entry.
pub struct ScoredCandidate {
    pub address: DbAddress,
    pub score: u64,
    pub price: i64,
    pub category: String,
    pub created: Timestamp,
}

/// What the storage or the scorer answered.
pub enum EntryEvent {
    Resolved,
    Scored(ScoredCandidate),
    /// The scorer refused the entry.
    Malformed,
    Inserted,
    /// A candidate with the same address is stored already.
    Conflict,
    StorageFailed,
}

/// What the pipeline asks for next.
#[derive(Clone, Copy, PartialEq, Eq, Structural, Debug)]
pub enum EntryAction {
    /// Look up or create the registry row of `reference`.
    Resolve,
    /// Score the entry's salt against `reference`.
    Score,
    /// Store `candidate`.
    Insert,
    Finish(FancyNewResult),
}

/// One entry on its way from parsing to a terminal outcome.
pub struct EntryPipeline {
    pub entry: AddNewDataEntry,
    pub job_id: Option<Uid>,
    pub reference: Option<Reference>,
    pub candidate: Option<FancyDbObj>,
    pub stage: EntryStage,
}

/// The candidate row that a scored entry is stored as.
pub open spec fn candidate_for(
    c: FancyDbObj,
    entry: AddNewDataEntry,
    job_id: Option<Uid>,
    r: Reference,
    sc: ScoredCandidate,
) -> bool {
    &&& c.address == sc.address
    &&& c.salt@ == entry.salt@
    &&& c.created == sc.created
    &&& c.score == sc.score
    &&& c.job_id == job_id
    &&& c.owner_id is None
    &&& c.price == sc.price
    &&& c.category@ == sc.category@
    &&& match r {
        Reference::Factory(a) => c.factory == Some(a) && c.public_key_base is None,
        Reference::PublicKey(t) => c.factory is None && (c.public_key_base matches Some(k)
            && k@ == t@),
    }
}

/// The stage and action that follow an event.
pub open spec fn next_step(p: EntryPipeline, ev: EntryEvent) -> (EntryStage, EntryAction) {
    match p.stage {
        EntryStage::Register => match ev {
            EntryEvent::Resolved => (EntryStage::Score, EntryAction::Score),
            _ => (EntryStage::Finished, EntryAction::Finish(FancyNewResult::Error)),
        },
        EntryStage::Score => match ev {
            EntryEvent::Scored(sc) => match score_verdict(p.entry.address, sc.address@, sc.score) {
                Some(v) => (EntryStage::Finished, EntryAction::Finish(v)),
                None => (EntryStage::Persist, EntryAction::Insert),
            },
            EntryEvent::Malformed => (
                EntryStage::Finished,
                EntryAction::Finish(FancyNewResult::ParseError(ParseFailure::Malformed)),
            ),
            _ => (EntryStage::Finished, EntryAction::Finish(FancyNewResult::Error)),
        },
        EntryStage::Persist => match ev {
            EntryEvent::Inserted => (
                EntryStage::Finished,
                EntryAction::Finish(FancyNewResult::Accepted(p.candidate->Some_0.score)),
            ),
            EntryEvent::Conflict => (
                EntryStage::Finished,
                EntryAction::Finish(FancyNewResult::Duplicate),
            ),
            _ => (EntryStage::Finished, EntryAction::Finish(FancyNewResult::Error)),
        },
        EntryStage::Finished => (EntryStage::Finished, EntryAction::Finish(FancyNewResult::Error)),
    }
}

impl EntryPipeline {
    pub open spec fn wf(&self) -> bool {
        match self.stage {
            EntryStage::Register | EntryStage::Score => self.reference is Some,
            EntryStage::Persist => self.reference is Some && self.candidate is Some,
            EntryStage::Finished => true,
        }
    }

    /// Parses `entry` and asks for its reference to be registered, or
    /// finishes it as a parse error.
    pub fn start(entry: AddNewDataEntry, job_id: Option<Uid>) -> (r: (EntryPipeline, EntryAction))
        ensures
            r.0.wf(),
            r.0.entry == entry,
            r.0.job_id == job_id,
            r.0.candidate is None,
            match parsed_reference(encode_utf8(entry.factory@)) {
                Ok(s) => r.0.stage == EntryStage::Register && r.1 == EntryAction::Resolve
                    && (r.0.reference matches Some(x) && x.denotes(s)),
                Err(e) => r.0.stage == EntryStage::Finished && r.1 == EntryAction::Finish(
                    FancyNewResult::ParseError(e),
                ),
            },
    {
        let parsed = parse_reference(entry.factory.as_str());
        match parsed {
            Ok(reference) => {
                let p = EntryPipeline {
                    entry,
                    job_id,
                    reference: Some(reference),
                    candidate: None,
                    stage: EntryStage::Register,
                };
                (p, EntryAction::Resolve)
            },
            Err(e) => {
                let p = EntryPipeline {
                    entry,
                    job_id,
                    reference: None,
                    candidate: None,
                    stage: EntryStage::Finished,
                };
                (p, EntryAction::Finish(FancyNewResult::ParseError(e)))
            },
        }
    }

    /// Takes the answer to the last action and says what comes next.
    pub fn advance(&mut self, ev: EntryEvent) -> (a: EntryAction)
        requires
            old(self).wf(),
            old(self).stage != EntryStage::Finished,
        ensures
            final(self).wf(),
            final(self).entry == old(self).entry,
            final(self).job_id == old(self).job_id,
            final(self).reference == old(self).reference,
            (final(self).stage, a) == next_step(*old(self), ev),
            old(self).stage == EntryStage::Persist ==> final(self).candidate == old(self).candidate,
            old(self).stage == EntryStage::Score && final(self).stage == EntryStage::Persist
                ==> (ev matches EntryEvent::Scored(sc) && (final(self).candidate matches Some(c)
                && candidate_for(c, old(self).entry, old(self).job_id, old(self).reference->Some_0, sc))),
    {
        match self.stage {
            EntryStage::Register => {
                match ev {
                    EntryEvent::Resolved => {
                        self.stage = EntryStage::Score;
                        EntryAction::Score
                    },
                    _ => {
                        self.stage = EntryStage::Finished;
                        EntryAction::Finish(FancyNewResult::Error)
                    },
                }
            },
            EntryStage::Score => {
                match ev {
                    EntryEvent::Scored(sc) => {
                        if sc.score < SCORE_THRESHOLD {
                            self.stage = EntryStage::Finished;
                            return EntryAction::Finish(FancyNewResult::ScoreTooLow);
                        }
                        let claim_ok = match &self.entry.address {
                            Some(c) => claimed_address_matches(c.as_str(), &sc.address),
                            None => true,
                        };
                        if !claim_ok {
                            self.stage = EntryStage::Finished;
                            return EntryAction::Finish(
                                FancyNewResult::ParseError(ParseFailure::AddressMismatch),
                            );
                        }
                        let (factory, public_key_base) = match &self.reference {
                            Some(Reference::Factory(a)) => (Some(*a), None),
                            Some(Reference::PublicKey(t)) => (None, Some(t.clone())),
                            None => (None, None),
                        };
                        let candidate = FancyDbObj {
                            address: sc.address,
                            salt: self.entry.salt.clone(),
                            factory,
                            public_key_base,
                            created: sc.created,
                            score: sc.score,
                            job_id: self.job_id,
                            owner_id: None,
                            price: sc.price,
                            category: sc.category,
                        };
                        self.candidate = Some(candidate);
                        self.stage = EntryStage::Persist;
                        EntryAction::Insert
                    },
                    EntryEvent::Malformed => {
                        self.stage = EntryStage::Finished;
                        EntryAction::Finish(FancyNewResult::ParseError(ParseFailure::Malformed))
                    },
                    _ => {
                        self.stage = EntryStage::Finished;
                        EntryAction::Finish(FancyNewResult::Error)
                    },
                }
            },
            _ => {
                let score = match &self.candidate {
                    Some(c) => c.score,
                    None => 0,
                };
                self.stage = EntryStage::Finished;
                match ev {
                    EntryEvent::Inserted => EntryAction::Finish(FancyNewResult::Accepted(score)),
                    EntryEvent::Conflict => EntryAction::Finish(FancyNewResult::Duplicate),
                    _ => EntryAction::Finish(FancyNewResult::Error),
                }
            },
        }
    }
}

/// An entry scored below the threshold finishes as too low and is never
/// stored, whatever its claim.
pub proof fn lemma_low_score_is_never_stored(p: EntryPipeline, sc: ScoredCandidate)
    requires
        p.stage == EntryStage::Score,
        sc.score < SCORE_THRESHOLD,
    ensures
        next_step(p, EntryEvent::Scored(sc)) == (
            EntryStage::Finished,
            EntryAction::Finish(FancyNewResult::ScoreTooLow),
        ),
{
}

/// An entry whose claimed address is not, ignoring case, the derived one
/// finishes as a parse error, however high its score.
pub proof fn lemma_mismatched_claim_is_parse_error(p: EntryPipeline, sc: ScoredCandidate)
    requires
        p.stage == EntryStage::Score,
        p.entry.address matches Some(c) && lower_of(c@) != prefixed_hex(sc.address@),
    ensures
        sc.score >= SCORE_THRESHOLD ==> next_step(p, EntryEvent::Scored(sc)) == (
            EntryStage::Finished,
            EntryAction::Finish(FancyNewResult::ParseError(ParseFailure::AddressMismatch)),
        ),
        next_step(p, EntryEvent::Scored(sc)).1 != EntryAction::Insert,
{
}

} // verus!
