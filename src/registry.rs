use vstd::prelude::*;
use crate::clock::{to_micros, truncate_to_micros};
use crate::model::{Timestamp, Uid};

verus! {

/// Where a lookup-or-insert of a registry value stands.
#[derive(Clone, Copy, PartialEq, Eq, Structural, Debug)]
pub enum RegistryStage {
    /// Waiting for the row to be looked up.
    Select,
    /// Waiting for a new row to be inserted.
    Insert,
    /// Another transaction inserted the value first: waiting to read it.
    Reread,
    Done,
    Failed,
}

/// What the storage answered.
#[derive(Clone, Copy, PartialEq, Eq, Structural, Debug)]
pub enum RegistryEvent {
    Found(Uid),
    Missing,
    Inserted(Uid),
    /// The uniqueness constraint refused the insert.
    Conflict,
    StorageFailed,
}

/// What the lookup asks for next.
#[derive(Clone, Copy, PartialEq, Eq, Structural, Debug)]
pub enum RegistryAction {
    /// Insert a row for the value with this id and time.
    Insert(Uid, Timestamp),
    /// Read the row for the value again.
    Reread,
    /// The value's row has this id.
    Done(Uid),
    /// Storage failed: the batch is void.
    Fail,
}

/// The stage that follows an answer.
pub open spec fn registry_next(s: RegistryStage, ev: RegistryEvent) -> RegistryStage {
    match (s, ev) {
        (RegistryStage::Select, RegistryEvent::Found(_)) => RegistryStage::Done,
        (RegistryStage::Select, RegistryEvent::Missing) => RegistryStage::Insert,
        (RegistryStage::Insert, RegistryEvent::Inserted(_)) => RegistryStage::Done,
        (RegistryStage::Insert, RegistryEvent::Conflict) => RegistryStage::Reread,
        (RegistryStage::Reread, RegistryEvent::Found(_)) => RegistryStage::Done,
        _ => RegistryStage::Failed,
    }
}

/// The row id an answer settles the lookup with, if it does.
pub open spec fn registry_answer(s: RegistryStage, ev: RegistryEvent) -> Option<Uid> {
    match (s, ev) {
        (RegistryStage::Select, RegistryEvent::Found(id)) => Some(id),
        (RegistryStage::Insert, RegistryEvent::Inserted(id)) => Some(id),
        (RegistryStage::Reread, RegistryEvent::Found(id)) => Some(id),
        _ => None,
    }
}

/// A version-4 UUID: version nibble 4, variant bits `10`.
pub open spec fn is_v4(u: Uid) -> bool {
    (u >> 76u128) & 0xfu128 == 4 && (u >> 62u128) & 0x3u128 == 2
}

/// Relies on `uuid::Uuid::new_v4`: random bits, but for the version and
/// variant bits that it sets.
#[verifier::external_body]
fn random_uid() -> (r: Uid)
    ensures
        is_v4(r),
{
    uuid::Uuid::new_v4().as_u128()
}

/// A lookup-or-insert of one registry value (a factory or a public key).
/// A conflict on insert means another transaction created the row: it is
/// read back, never treated as a failure.
pub struct RegistryLookup {
    pub stage: RegistryStage,
}

impl RegistryLookup {
    /// Starts with a lookup of the value.
    pub fn new() -> (r: RegistryLookup)
        ensures
            r.stage == RegistryStage::Select,
    {
        RegistryLookup { stage: RegistryStage::Select }
    }

    /// Takes the storage's answer and says what comes next; a new row is
    /// stamped with `now`, cut to whole microseconds.
    pub fn advance(&mut self, ev: RegistryEvent, now: Timestamp) -> (a: RegistryAction)
        requires
            old(self).stage == RegistryStage::Select || old(self).stage == RegistryStage::Insert
                || old(self).stage == RegistryStage::Reread,
        ensures
            final(self).stage == registry_next(old(self).stage, ev),
            match registry_answer(old(self).stage, ev) {
                Some(id) => a == RegistryAction::Done(id),
                None => match final(self).stage {
                    RegistryStage::Insert => a is Insert && a->Insert_1 == to_micros(now)
                        && is_v4(a->Insert_0),
                    RegistryStage::Reread => a == RegistryAction::Reread,
                    _ => a == RegistryAction::Fail,
                },
            },
    {
        match (self.stage, ev) {
            (RegistryStage::Select, RegistryEvent::Found(id)) => {
                self.stage = RegistryStage::Done;
                RegistryAction::Done(id)
            },
            (RegistryStage::Select, RegistryEvent::Missing) => {
                self.stage = RegistryStage::Insert;
                RegistryAction::Insert(random_uid(), truncate_to_micros(now))
            },
            (RegistryStage::Insert, RegistryEvent::Inserted(id)) => {
                self.stage = RegistryStage::Done;
                RegistryAction::Done(id)
            },
            (RegistryStage::Insert, RegistryEvent::Conflict) => {
                self.stage = RegistryStage::Reread;
                RegistryAction::Reread
            },
            (RegistryStage::Reread, RegistryEvent::Found(id)) => {
                self.stage = RegistryStage::Done;
                RegistryAction::Done(id)
            },
            _ => {
                self.stage = RegistryStage::Failed;
                RegistryAction::Fail
            },
        }
    }
}

} // verus!
