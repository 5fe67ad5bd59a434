use vstd::prelude::*;

verus! {

/// A twenty-byte account or contract address.
pub type DbAddress = [u8; 20];

/// A UUID, held as its 128-bit value.
pub type Uid = u128;

/// A UTC instant: whole seconds since the Unix epoch and the nanoseconds
/// past that second (above one billion only inside a leap second).
#[derive(Clone, Copy, PartialEq, Eq, Structural, Debug)]
pub struct Timestamp {
    pub secs: i64,
    pub nanos: u32,
}

/// One submitted search result.
pub struct AddNewDataEntry {
    pub salt: String,
    /// A factory address (40 or 42 characters) or a public key.
    pub factory: String,
    /// The address the submitter expects the entry to derive.
    pub address: Option<String>,
}

/// A request to record a deployed contract.
pub struct ContractCreateFromApi {
    pub address: Option<String>,
    pub network: String,
    pub data: String,
}

/// The provider that runs search jobs.
pub struct MinerDbObj {
    pub uid: String,
    pub prov_node_id: Option<DbAddress>,
    pub prov_reward_addr: Option<DbAddress>,
    pub prov_name: Option<String>,
    pub prov_extra_info: Option<String>,
}

/// An accepted candidate; its address is its identity.
pub struct FancyDbObj {
    pub address: DbAddress,
    pub salt: String,
    pub factory: Option<DbAddress>,
    pub public_key_base: Option<String>,
    pub created: Timestamp,
    pub score: u64,
    pub job_id: Option<Uid>,
    pub owner_id: Option<Uid>,
    pub price: i64,
    pub category: String,
}

/// A search job and its running totals.
///
/// `hashes_accepted` is the sum of the scores of the job's candidates;
/// `hashes_reported` and `cost_reported` are the submitter's latest claims,
/// kept as given: opaque 64-bit values that the ledger replaces and never
/// computes with.
pub struct JobDbObj {
    pub uid: Uid,
    pub cruncher_ver: String,
    pub started_at: Timestamp,
    pub updated_at: Timestamp,
    pub finished_at: Option<Timestamp>,
    pub requestor_id: Option<DbAddress>,
    pub hashes_reported: u64,
    pub hashes_accepted: u128,
    pub entries_accepted: u64,
    pub entries_rejected: u64,
    pub cost_reported: u64,
    pub miner: String,
    pub job_extra_info: Option<String>,
}

} // verus!
