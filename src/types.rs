use vstd::prelude::*;

verus! {

/// Identifier of a job, assigned in order of creation from zero.
pub type TJobId = u32;

/// A logical time stamp of the host ledger.
pub type Timestamp = u64;

/// An amount of the ledger's native value.
pub type Balance = u128;

/// A 32-byte account identity, held as its high and low halves
/// (big-endian).
#[derive(PartialEq, Eq, Structural, Clone, Copy, Debug)]
pub struct AccountId {
    pub hi: u128,
    pub lo: u128,
}

/// The lifecycle state of a job.
#[derive(PartialEq, Eq, Structural, Clone, Copy, Debug)]
pub enum JobStatus {
    Open,
    Doing,
    Review,
    Reopen,
    Finish,
}

/// Why an operation was rejected. A rejected operation leaves the state
/// as it was.
#[derive(PartialEq, Eq, Structural, Clone, Copy, Debug)]
pub enum Error {
    NotOwner,
    JobExpired,
    JobOwnerCanNotAcquire,
    NotJobOwner,
    NotJobAcquirer,
    JobNotExists,
    JobStatusIsNotOpen,
    JobStatusIsNotDoing,
    JobStatusIsNotReview,
    JobStatusIsNotReopen,
    JobStatusIsNotFinish,
    /// A job was to be created with no value transferred to fund it.
    NoValueTransferred,
    /// A name or description was not well-formed UTF-8.
    InvalidUtf8,
}

/// A job record.
#[derive(Clone, Debug)]
pub struct Job {
    pub id: TJobId,
    pub name: String,
    pub description: String,
    pub status: JobStatus,
    pub budget: Balance,
    pub expired_at: Timestamp,
    pub owner: AccountId,
}

impl Job {
    /// A copy of the record, field for field.
    pub fn duplicate(&self) -> (r: Job)
        ensures
            r == *self,
    {
        Job {
            id: self.id,
            name: self.name.clone(),
            description: self.description.clone(),
            status: self.status,
            budget: self.budget,
            expired_at: self.expired_at,
            owner: self.owner,
        }
    }
}

/// One page of the open jobs, with the number of open jobs in all.
#[derive(Debug)]
pub struct ViewOpenningJobResponse {
    pub data: Vec<Job>,
    pub total: u32,
}

/// What an identity has earned as acquirer and paid as owner, in all.
#[derive(PartialEq, Eq, Structural, Clone, Copy, Debug)]
pub struct UserStatistic {
    pub earning: Balance,
    pub paying: Balance,
}

/// The cumulative counters of one identity.
#[derive(PartialEq, Eq, Structural, Clone, Copy, Debug)]
pub struct Account {
    pub id: AccountId,
    pub earning: Balance,
    pub paying: Balance,
}

/// A transfer that the host must carry out for a finished job. The host
/// aborts the whole call, state included, if the transfer fails.
#[derive(PartialEq, Eq, Structural, Clone, Copy, Debug)]
pub struct Payout {
    pub to: AccountId,
    pub amount: Balance,
}

} // verus!
