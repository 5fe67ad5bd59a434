use vstd::prelude::*;
use crate::model::{DbAddress, Timestamp, Uid};

verus! {

/// The column a candidate list is sorted by, highest first.
#[derive(Clone, Copy, PartialEq, Eq, Structural, Debug)]
pub enum FancyOrderBy {
    Score,
    Created,
}

/// Which candidates to list by their owner.
#[derive(Clone, Copy, PartialEq, Eq, Structural, Debug)]
pub enum ReservedStatus {
    All,
    Reserved,
    NotReserved,
    User(Uid),
}

/// Which candidates to list by their public-key base.
pub enum PublicKeyFilter {
    All,
    Selected(String),
    OnlyNull,
}

/// The column a job list is sorted by, latest first.
#[derive(Clone, Copy, PartialEq, Eq, Structural, Debug)]
pub enum FancyJobOrderBy {
    Date,
}

/// Which jobs to list by whether they have finished.
#[derive(Clone, Copy, PartialEq, Eq, Structural, Debug)]
pub enum FancyJobStatus {
    All,
    Active,
    Finished,
}

/// One condition on a candidate; a list keeps the candidates that meet
/// all of its conditions. Values are bound as parameters, never spliced
/// into the query text.
pub enum FancyCondition {
    OwnerSet,
    OwnerUnset,
    OwnerIs(Uid),
    PublicKeyIs(String),
    PublicKeyUnset,
    CategoryIs(String),
    CreatedAfter(Timestamp),
}

/// A query for candidates, with their providers.
pub struct FancyListQuery {
    pub conditions: Vec<FancyCondition>,
    pub order_by: FancyOrderBy,
    pub limit: Option<u64>,
}

/// One condition on a job.
#[derive(Clone, Copy, Debug)]
pub enum JobCondition {
    RequestorIs(DbAddress),
    UpdatedAfter(Timestamp),
    Active,
    Finished,
}

/// A query for jobs, with their providers.
pub struct FancyJobListQuery {
    pub conditions: Vec<JobCondition>,
    pub order_by: FancyJobOrderBy,
    pub limit: Option<u64>,
}

pub open spec fn opt_seq<T>(o: Option<T>) -> Seq<T> {
    match o {
        Some(x) => seq![x],
        None => Seq::empty(),
    }
}

pub open spec fn owner_condition(r: ReservedStatus) -> Option<FancyCondition> {
    match r {
        ReservedStatus::All => None,
        ReservedStatus::Reserved => Some(FancyCondition::OwnerSet),
        ReservedStatus::NotReserved => Some(FancyCondition::OwnerUnset),
        ReservedStatus::User(u) => Some(FancyCondition::OwnerIs(u)),
    }
}

pub open spec fn public_key_condition(f: PublicKeyFilter) -> Option<FancyCondition> {
    match f {
        PublicKeyFilter::All => None,
        PublicKeyFilter::Selected(pk) => Some(FancyCondition::PublicKeyIs(pk)),
        PublicKeyFilter::OnlyNull => Some(FancyCondition::PublicKeyUnset),
    }
}

pub open spec fn category_condition(c: Option<String>) -> Option<FancyCondition> {
    match c {
        Some(c) => Some(FancyCondition::CategoryIs(c)),
        None => None,
    }
}

pub open spec fn created_condition(t: Option<Timestamp>) -> Option<FancyCondition> {
    match t {
        Some(t) => Some(FancyCondition::CreatedAfter(t)),
        None => None,
    }
}

/// A positive limit caps the list; zero or less means no cap.
pub open spec fn limit_of(limit: i64) -> Option<u64> {
    if limit > 0 {
        Some(limit as u64)
    } else {
        None
    }
}

fn push_some<T>(v: &mut Vec<T>, o: Option<T>)
    ensures
        final(v)@ == old(v)@ + opt_seq(o),
{
    match o {
        Some(x) => {
            v.push(x);
        },
        None => {
            assert(old(v)@ + opt_seq(o) =~= old(v)@);
        },
    }
}

/// The query that lists candidates by owner, public-key base, category and
/// creation time, in that order of conditions.
pub fn fancy_list_query(
    category: Option<String>,
    order_by: FancyOrderBy,
    reserved: ReservedStatus,
    since: Option<Timestamp>,
    public_key_base: PublicKeyFilter,
    limit: i64,
) -> (r: FancyListQuery)
    ensures
        r.conditions@ == opt_seq(owner_condition(reserved)) + opt_seq(
            public_key_condition(public_key_base),
        ) + opt_seq(category_condition(category)) + opt_seq(created_condition(since)),
        r.order_by == order_by,
        r.limit == limit_of(limit),
{
    let mut conditions: Vec<FancyCondition> = Vec::new();
    let owner = match reserved {
        ReservedStatus::All => None,
        ReservedStatus::Reserved => Some(FancyCondition::OwnerSet),
        ReservedStatus::NotReserved => Some(FancyCondition::OwnerUnset),
        ReservedStatus::User(u) => Some(FancyCondition::OwnerIs(u)),
    };
    push_some(&mut conditions, owner);
    let key = match public_key_base {
        PublicKeyFilter::All => None,
        PublicKeyFilter::Selected(pk) => Some(FancyCondition::PublicKeyIs(pk)),
        PublicKeyFilter::OnlyNull => Some(FancyCondition::PublicKeyUnset),
    };
    push_some(&mut conditions, key);
    let cat = match category {
        Some(c) => Some(FancyCondition::CategoryIs(c)),
        None => None,
    };
    push_some(&mut conditions, cat);
    let created = match since {
        Some(t) => Some(FancyCondition::CreatedAfter(t)),
        None => None,
    };
    push_some(&mut conditions, created);
    let limit = if limit > 0 {
        Some(limit as u64)
    } else {
        None
    };
    FancyListQuery { conditions, order_by, limit }
}

pub open spec fn status_condition(s: FancyJobStatus) -> Option<JobCondition> {
    match s {
        FancyJobStatus::All => None,
        FancyJobStatus::Active => Some(JobCondition::Active),
        FancyJobStatus::Finished => Some(JobCondition::Finished),
    }
}

/// The query that lists jobs by requestor, update time and status, in
/// that order of conditions.
pub fn fancy_job_list_query(
    order_by: FancyJobOrderBy,
    since: Option<Timestamp>,
    status: FancyJobStatus,
    requestor_id: Option<DbAddress>,
    limit: i64,
) -> (r: FancyJobListQuery)
    ensures
        r.conditions@ == opt_seq(
            match requestor_id {
                Some(a) => Some(JobCondition::RequestorIs(a)),
                None => None,
            },
        ) + opt_seq(
            match since {
                Some(t) => Some(JobCondition::UpdatedAfter(t)),
                None => None,
            },
        ) + opt_seq(status_condition(status)),
        r.order_by == order_by,
        r.limit == limit_of(limit),
{
    let mut conditions: Vec<JobCondition> = Vec::new();
    let requestor = match requestor_id {
        Some(a) => Some(JobCondition::RequestorIs(a)),
        None => None,
    };
    push_some(&mut conditions, requestor);
    let updated = match since {
        Some(t) => Some(JobCondition::UpdatedAfter(t)),
        None => None,
    };
    push_some(&mut conditions, updated);
    let finished = match status {
        FancyJobStatus::All => None,
        FancyJobStatus::Active => Some(JobCondition::Active),
        FancyJobStatus::Finished => Some(JobCondition::Finished),
    };
    push_some(&mut conditions, finished);
    let limit = if limit > 0 {
        Some(limit as u64)
    } else {
        None
    };
    FancyJobListQuery { conditions, order_by, limit }
}

} // verus!
