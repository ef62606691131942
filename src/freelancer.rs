//! The marketplace state and its operations.
use vstd::prelude::*;
use vstd::utf8::{decode_utf8, valid_utf8};
use crate::model::{
    earning_of, earnings_total, entry_of, finished_total, ids_sequential, keys_unique,
    lemma_earnings_total_push, lemma_earnings_total_update, lemma_entry_absent,
    lemma_entry_found, lemma_entry_push, lemma_entry_update, open_ids, paying_of,
    budget_for, jobs_evolve, lemma_finished_total_push, lemma_finished_total_update,
    lemma_open_ids_bound, lemma_open_ids_keep, lemma_open_ids_leave, lemma_open_ids_push,
    paid_budget, step_allowed, with_status, without,
};
use crate::text::text_from_bytes;
use crate::types::{
    Account, AccountId, Balance, Error, Job, JobStatus, Payout, TJobId, Timestamp, UserStatistic,
    ViewOpenningJobResponse,
};

verus! {

/// The persistent state of the marketplace.
///
/// Records are kept in order of creation, record `i` holding job `i`; the
/// acquirer of job `i`, once it has one, is `job_acquirers[i]`; the owner
/// is kept in the record itself. `accounts` holds one entry per identity
/// that has earned or paid.
pub struct Freelancer {
    pub owner: AccountId,
    pub count_job: TJobId,
    pub jobs: Vec<Job>,
    pub job_acquirers: Vec<Option<AccountId>>,
    pub opening_jobs: Vec<TJobId>,
    pub fee_percent: u32,
    pub accounts: Vec<Account>,
}

/// The error for a job that is not in the status an operation needs.
pub open spec fn status_error(st: JobStatus) -> Error {
    match st {
        JobStatus::Open => Error::JobStatusIsNotOpen,
        JobStatus::Doing => Error::JobStatusIsNotDoing,
        JobStatus::Review => Error::JobStatusIsNotReview,
        JobStatus::Reopen => Error::JobStatusIsNotReopen,
        JobStatus::Finish => Error::JobStatusIsNotFinish,
    }
}

fn mismatch_error(st: JobStatus) -> (r: Error)
    ensures
        r == status_error(st),
{
    match st {
        JobStatus::Open => Error::JobStatusIsNotOpen,
        JobStatus::Doing => Error::JobStatusIsNotDoing,
        JobStatus::Review => Error::JobStatusIsNotReview,
        JobStatus::Reopen => Error::JobStatusIsNotReopen,
        JobStatus::Finish => Error::JobStatusIsNotFinish,
    }
}

/// The result of a check: `Ok` where no error applies.
pub open spec fn outcome(e: Option<Error>) -> Result<(), Error> {
    match e {
        Some(e) => Err(e),
        None => Ok(()),
    }
}

fn find_account(accounts: &Vec<Account>, who: AccountId) -> (r: Option<usize>)
    ensures
        match r {
            Some(k) => k < accounts.len() && accounts[k as int].id == who,
            None => forall|i: int| 0 <= i < accounts.len() ==> accounts[i].id != who,
        },
{
    let mut i: usize = 0;
    while i < accounts.len()
        invariant
            i <= accounts.len(),
            forall|j: int| 0 <= j < i ==> accounts[j].id != who,
        decreases accounts.len() - i,
    {
        if accounts[i].id == who {
            return Some(i);
        }
        i = i + 1;
    }
    None
}

/// Adds `earned` to the earnings of `who` and `paid` to its payings.
fn credit(accounts: &mut Vec<Account>, who: AccountId, earned: Balance, paid: Balance)
    requires
        keys_unique(old(accounts)@),
        earning_of(old(accounts)@, who) + earned <= u128::MAX,
        paying_of(old(accounts)@, who) + paid <= u128::MAX,
    ensures
        keys_unique(final(accounts)@),
        forall|w: AccountId|
            earning_of(final(accounts)@, w) == earning_of(old(accounts)@, w) + if w == who {
                earned as int
            } else {
                0
            },
        forall|w: AccountId|
            paying_of(final(accounts)@, w) == paying_of(old(accounts)@, w) + if w == who {
                paid as int
            } else {
                0
            },
        earnings_total(final(accounts)@) == earnings_total(old(accounts)@) + earned,
{
    match find_account(accounts, who) {
        Some(k) => {
            let a = accounts[k];
            proof {
                lemma_entry_found(accounts@, k as int);
            }
            let updated = Account { id: who, earning: a.earning + earned, paying: a.paying + paid };
            proof {
                assert forall|w: AccountId|
                    entry_of(accounts@.update(k as int, updated), w) == if w == who {
                        Some(updated)
                    } else {
                        entry_of(accounts@, w)
                    } by {
                    lemma_entry_update(accounts@, k as int, updated, w);
                }
                lemma_earnings_total_update(accounts@, k as int, updated);
            }
            accounts.set(k, updated);
        },
        None => {
            let fresh = Account { id: who, earning: earned, paying: paid };
            proof {
                lemma_entry_absent(accounts@, who);
                assert forall|w: AccountId|
                    entry_of(accounts@.push(fresh), w) == if w == who {
                        Some(fresh)
                    } else {
                        entry_of(accounts@, w)
                    } by {
                    lemma_entry_push(accounts@, fresh, w);
                }
                lemma_earnings_total_push(accounts@, fresh);
            }
            accounts.push(fresh);
        },
    }
}

/// `ids` with every occurrence of `x` taken out, the rest in order.
fn remove_id(ids: &Vec<TJobId>, x: TJobId) -> (r: Vec<TJobId>)
    ensures
        r@ == without(ids@, x),
{
    let mut kept: Vec<TJobId> = Vec::new();
    let mut i: usize = 0;
    while i < ids.len()
        invariant
            i <= ids.len(),
            kept@ == without(ids@.take(i as int), x),
        decreases ids.len() - i,
    {
        let y = ids[i];
        proof {
            assert(ids@.take(i + 1).drop_last() =~= ids@.take(i as int));
        }
        if y != x {
            kept.push(y);
        }
        i = i + 1;
    }
    proof {
        assert(ids@.take(ids.len() as int) =~= ids@);
    }
    kept
}

/// Job `job_id` moved to `st`; the owner, the fee and the job counter
/// stayed.
pub open spec fn status_moved(old: Freelancer, new: Freelancer, job_id: TJobId, st: JobStatus) -> bool {
    &&& new.jobs@ == old.jobs@.update(job_id as int, with_status(old.jobs@[job_id as int], st))
    &&& new.owner == old.owner
    &&& new.count_job == old.count_job
    &&& new.fee_percent == old.fee_percent
}

/// What `update_fee_percent` does.
pub open spec fn fee_updated(
    old: Freelancer,
    new: Freelancer,
    caller: AccountId,
    value: u32,
    r: Result<(), Error>,
) -> bool {
    if caller == old.owner {
        &&& r == Ok::<(), Error>(())
        &&& new.fee_percent == value
        &&& new.owner == old.owner
        &&& new.count_job == old.count_job
        &&& new.jobs == old.jobs
        &&& new.job_acquirers == old.job_acquirers
        &&& new.opening_jobs == old.opening_jobs
        &&& new.accounts == old.accounts
    } else {
        r == Err::<(), Error>(Error::NotOwner) && new == old
    }
}

/// A new open job `job` was recorded for `caller` under the next
/// identifier, with the given text, the budget that the current fee gives,
/// and the whole transferred value counted as paid by the caller.
pub open spec fn job_added(
    old: Freelancer,
    new: Freelancer,
    caller: AccountId,
    transferred_value: Balance,
    now: Timestamp,
    name: Seq<char>,
    description: Seq<char>,
    expired_after: Timestamp,
    job: Job,
) -> bool {
    &&& job.id == old.count_job
    &&& job.name@ == name
    &&& job.description@ == description
    &&& job.status == JobStatus::Open
    &&& job.budget == budget_for(transferred_value, old.fee_percent)
    &&& job.expired_at == now + expired_after
    &&& job.owner == caller
    &&& new.jobs@ == old.jobs@.push(job)
    &&& new.job_acquirers@ == old.job_acquirers@.push(None)
    &&& new.opening_jobs@ == old.opening_jobs@.push(job.id)
    &&& new.count_job == old.count_job + 1
    &&& new.owner == old.owner
    &&& new.fee_percent == old.fee_percent
    &&& forall|w: AccountId| earning_of(new.accounts@, w) == earning_of(old.accounts@, w)
    &&& forall|w: AccountId|
        paying_of(new.accounts@, w) == paying_of(old.accounts@, w) + if w == caller {
            transferred_value as int
        } else {
            0
        }
}

impl Freelancer {
    /// The invariant of the state.
    pub open spec fn wf(&self) -> bool {
        &&& self.count_job as int == self.jobs.len()
        &&& self.job_acquirers.len() == self.jobs.len()
        &&& ids_sequential(self.jobs@)
        &&& forall|i: int|
            0 <= i < self.jobs.len() ==> (self.job_acquirers[i] is Some <==> self.jobs[i].status
                != JobStatus::Open)
        &&& forall|i: int|
            0 <= i < self.jobs.len() && self.job_acquirers[i] is Some
                ==> self.job_acquirers[i]->0 != self.jobs[i].owner
        &&& self.opening_jobs@ == open_ids(self.jobs@)
        &&& keys_unique(self.accounts@)
        &&& earnings_total(self.accounts@) == finished_total(self.jobs@)
    }

    /// Whether job `job_id` exists.
    pub open spec fn has_job(&self, job_id: TJobId) -> bool {
        job_id < self.jobs.len()
    }

    /// Whether `caller` is the recorded owner of job `job_id`.
    pub open spec fn is_job_owner(&self, caller: AccountId, job_id: TJobId) -> bool {
        self.has_job(job_id) && self.jobs[job_id as int].owner == caller
    }

    /// Whether `caller` is the recorded acquirer of job `job_id`.
    pub open spec fn is_job_acquirer(&self, caller: AccountId, job_id: TJobId) -> bool {
        self.has_job(job_id) && self.job_acquirers[job_id as int] == Some(caller)
    }

    /// The status of job `job_id`.
    pub open spec fn status_of(&self, job_id: TJobId) -> JobStatus {
        self.jobs[job_id as int].status
    }

    /// Whether a job can be created without overflowing a counter.
    pub open spec fn can_create(
        &self,
        caller: AccountId,
        transferred_value: Balance,
        now: Timestamp,
        expired_after: Timestamp,
    ) -> bool {
        &&& self.count_job < u32::MAX
        &&& now + expired_after <= u64::MAX
        &&& transferred_value * self.fee_percent <= u128::MAX
        &&& paying_of(self.accounts@, caller) + transferred_value <= u128::MAX
    }

    /// Why `caller` may not acquire job `job_id` at time `now`, if it may
    /// not.
    pub open spec fn acquire_error(&self, caller: AccountId, now: Timestamp, job_id: TJobId) -> Option<Error> {
        if self.is_job_owner(caller, job_id) {
            Some(Error::JobOwnerCanNotAcquire)
        } else if !self.has_job(job_id) {
            Some(Error::JobNotExists)
        } else if self.status_of(job_id) != JobStatus::Open {
            Some(Error::JobStatusIsNotOpen)
        } else if self.jobs[job_id as int].expired_at < now {
            Some(Error::JobExpired)
        } else {
            None
        }
    }

    /// Why `caller` may not ask for review of job `job_id`, if it may not.
    pub open spec fn review_error(&self, caller: AccountId, job_id: TJobId) -> Option<Error> {
        if !self.is_job_acquirer(caller, job_id) {
            Some(Error::NotJobAcquirer)
        } else if self.status_of(job_id) != JobStatus::Doing && self.status_of(job_id)
            != JobStatus::Reopen {
            Some(Error::JobStatusIsNotDoing)
        } else {
            None
        }
    }

    /// Why `caller` may not reopen or finish job `job_id`, if it may not.
    pub open spec fn decide_error(&self, caller: AccountId, job_id: TJobId) -> Option<Error> {
        if !self.is_job_owner(caller, job_id) {
            Some(Error::NotJobOwner)
        } else if self.status_of(job_id) != JobStatus::Review {
            Some(Error::JobStatusIsNotReview)
        } else {
            None
        }
    }

    /// The acquirer of job `job_id`, as recorded.
    pub open spec fn acquirer_of(&self, job_id: TJobId) -> AccountId {
        self.job_acquirers[job_id as int]->0
    }

    /// Whether paying out job `job_id` leaves its acquirer's earnings
    /// within range.
    pub open spec fn payout_fits(&self, job_id: TJobId) -> bool {
        self.has_job(job_id) && self.job_acquirers[job_id as int] is Some ==> earning_of(
            self.accounts@,
            self.acquirer_of(job_id),
        ) + self.jobs[job_id as int].budget <= u128::MAX
    }

    fn ensure_owner(&self, caller: AccountId) -> (r: Result<(), Error>)
        ensures
            r == if caller == self.owner {
                Ok::<(), Error>(())
            } else {
                Err(Error::NotOwner)
            },
    {
        if caller != self.owner {
            return Err(Error::NotOwner);
        }
        Ok(())
    }

    fn ensure_job_owner(&self, caller: AccountId, job_id: TJobId) -> (r: Result<(), Error>)
        requires
            self.wf(),
        ensures
            r == if self.is_job_owner(caller, job_id) {
                Ok::<(), Error>(())
            } else {
                Err(Error::NotJobOwner)
            },
    {
        if job_id as usize >= self.jobs.len() {
            return Err(Error::NotJobOwner);
        }
        if self.jobs[job_id as usize].owner != caller {
            return Err(Error::NotJobOwner);
        }
        Ok(())
    }

    fn ensure_job_acquirer(&self, caller: AccountId, job_id: TJobId) -> (r: Result<(), Error>)
        requires
            self.wf(),
        ensures
            r == if self.is_job_acquirer(caller, job_id) {
                Ok::<(), Error>(())
            } else {
                Err(Error::NotJobAcquirer)
            },
    {
        if job_id as usize >= self.job_acquirers.len() {
            return Err(Error::NotJobAcquirer);
        }
        match self.job_acquirers[job_id as usize] {
            None => Err(Error::NotJobAcquirer),
            Some(recorded) => {
                if recorded != caller {
                    Err(Error::NotJobAcquirer)
                } else {
                    Ok(())
                }
            },
        }
    }

    fn ensure_not_job_owner(&self, job_id: TJobId, who: AccountId) -> (r: Result<(), Error>)
        requires
            self.wf(),
        ensures
            r == if self.is_job_owner(who, job_id) {
                Err(Error::JobOwnerCanNotAcquire)
            } else {
                Ok::<(), Error>(())
            },
    {
        if job_id as usize >= self.jobs.len() {
            return Ok(());
        }
        if self.jobs[job_id as usize].owner == who {
            return Err(Error::JobOwnerCanNotAcquire);
        }
        Ok(())
    }

    fn ensure_active_job(&self, job_id: TJobId, now: Timestamp) -> (r: Result<(), Error>)
        requires
            self.wf(),
        ensures
            r == if !self.has_job(job_id) {
                Err(Error::JobNotExists)
            } else if self.jobs[job_id as int].expired_at < now {
                Err(Error::JobExpired)
            } else {
                Ok::<(), Error>(())
            },
    {
        if job_id as usize >= self.jobs.len() {
            return Err(Error::JobNotExists);
        }
        if self.jobs[job_id as usize].expired_at < now {
            return Err(Error::JobExpired);
        }
        Ok(())
    }

    fn ensure_job_status(&self, job_id: TJobId, status: JobStatus) -> (r: Result<(), Error>)
        requires
            self.wf(),
        ensures
            r == if !self.has_job(job_id) {
                Err(Error::JobNotExists)
            } else if self.status_of(job_id) != status {
                Err(status_error(status))
            } else {
                Ok::<(), Error>(())
            },
    {
        if job_id as usize >= self.jobs.len() {
            return Err(Error::JobNotExists);
        }
        if self.jobs[job_id as usize].status != status {
            return Err(mismatch_error(status));
        }
        Ok(())
    }
}

impl Freelancer {
    /// An empty marketplace administered by `caller`, with a fee of zero.
    pub fn new(caller: AccountId) -> (r: Freelancer)
        ensures
            r.wf(),
            r.owner == caller,
            r.count_job == 0,
            r.fee_percent == 0,
            r.jobs@.len() == 0,
            r.opening_jobs@.len() == 0,
            r.accounts@.len() == 0,
    {
        let r = Freelancer {
            owner: caller,
            count_job: 0,
            jobs: Vec::new(),
            job_acquirers: Vec::new(),
            opening_jobs: Vec::new(),
            fee_percent: 0,
            accounts: Vec::new(),
        };
        proof {
            assert(open_ids(r.jobs@) =~= r.opening_jobs@);
            assert(r.accounts@.map_values(|a: Account| a.earning as int) =~= Seq::<int>::empty());
            assert(r.jobs@.map_values(|j: Job| paid_budget(j)) =~= Seq::<int>::empty());
        }
        r
    }

    /// Sets the fee for jobs created from now on; the administrator only.
    pub fn update_fee_percent(&mut self, caller: AccountId, value: u32) -> (r: Result<(), Error>)
        requires
            old(self).wf(),
        ensures
            final(self).wf(),
            fee_updated(*old(self), *final(self), caller, value, r),
    {
        self.ensure_owner(caller)?;
        self.fee_percent = value;
        Ok(())
    }

    /// The budget that `value` locks under the current fee.
    fn calculate_budget(&self, value: Balance) -> (r: Balance)
        requires
            value * self.fee_percent <= u128::MAX,
        ensures
            r == budget_for(value, self.fee_percent),
    {
        value * (self.fee_percent as u128) / 100
    }

    /// Records a new open job of `owner`, funded with `transferred_value`.
    fn add_new_job(
        &mut self,
        owner: AccountId,
        transferred_value: Balance,
        now: Timestamp,
        name: String,
        description: String,
        expired_after: Timestamp,
    ) -> (r: Job)
        requires
            old(self).wf(),
            old(self).can_create(owner, transferred_value, now, expired_after),
        ensures
            final(self).wf(),
            job_added(
                *old(self),
                *final(self),
                owner,
                transferred_value,
                now,
                name@,
                description@,
                expired_after,
                r,
            ),
    {
        let budget = self.calculate_budget(transferred_value);
        let new_job = Job {
            id: self.count_job,
            name,
            description,
            status: JobStatus::Open,
            budget,
            expired_at: now + expired_after,
            owner,
        };
        let record = new_job.duplicate();
        proof {
            lemma_open_ids_push(self.jobs@, record);
            lemma_finished_total_push(self.jobs@, record);
        }
        self.jobs.push(record);
        self.job_acquirers.push(None);
        self.opening_jobs.push(self.count_job);
        credit(&mut self.accounts, owner, 0, transferred_value);
        self.count_job = self.count_job + 1;
        new_job
    }

    /// Creates a job of `caller`, funded with `transferred_value`, that can
    /// be acquired until `now + expired_after`. Some value must be
    /// transferred, and the name and description must be UTF-8.
    pub fn create_job(
        &mut self,
        caller: AccountId,
        transferred_value: Balance,
        now: Timestamp,
        name: Vec<u8>,
        description: Vec<u8>,
        expired_after: Timestamp,
    ) -> (r: Result<Job, Error>)
        requires
            old(self).wf(),
            transferred_value > 0 && valid_utf8(name@) && valid_utf8(description@)
                ==> old(self).can_create(caller, transferred_value, now, expired_after),
        ensures
            final(self).wf(),
            jobs_evolve(old(self).jobs@, final(self).jobs@),
            transferred_value == 0 ==> r == Err::<Job, Error>(Error::NoValueTransferred)
                && *final(self) == *old(self),
            transferred_value > 0 && (!valid_utf8(name@) || !valid_utf8(description@)) ==> r
                == Err::<Job, Error>(Error::InvalidUtf8) && *final(self) == *old(self),
            transferred_value > 0 && valid_utf8(name@) && valid_utf8(description@) ==> r is Ok
                && job_added(
                *old(self),
                *final(self),
                caller,
                transferred_value,
                now,
                decode_utf8(name@),
                decode_utf8(description@),
                expired_after,
                r->Ok_0,
            ),
    {
        if transferred_value == 0 {
            return Err(Error::NoValueTransferred);
        }
        let name_text = match text_from_bytes(name) {
            Some(t) => t,
            None => return Err(Error::InvalidUtf8),
        };
        let description_text = match text_from_bytes(description) {
            Some(t) => t,
            None => return Err(Error::InvalidUtf8),
        };
        Ok(self.add_new_job(caller, transferred_value, now, name_text, description_text, expired_after))
    }

    /// Moves job `job_id` to `status` along an edge of the lifecycle; a job
    /// that leaves `Open` leaves the open index.
    fn update_job_status(&mut self, job_id: TJobId, status: JobStatus)
        requires
            ids_sequential(old(self).jobs@),
            old(self).opening_jobs@ == open_ids(old(self).jobs@),
            old(self).has_job(job_id),
            step_allowed(old(self).status_of(job_id), status),
        ensures
            status_moved(*old(self), *final(self), job_id, status),
            final(self).opening_jobs@ == if status == JobStatus::Doing {
                without(old(self).opening_jobs@, job_id)
            } else {
                old(self).opening_jobs@
            },
            final(self).opening_jobs@ == open_ids(final(self).jobs@),
            finished_total(final(self).jobs@) == finished_total(old(self).jobs@) - paid_budget(
                old(self).jobs[job_id as int],
            ) + paid_budget(with_status(old(self).jobs[job_id as int], status)),
            final(self).job_acquirers == old(self).job_acquirers,
            final(self).accounts == old(self).accounts,
    {
        let i = job_id as usize;
        let mut job = self.jobs[i].duplicate();
        proof {
            lemma_finished_total_update(self.jobs@, i as int, with_status(job, status));
            if status == JobStatus::Doing {
                lemma_open_ids_leave(self.jobs@, i as int, status);
            } else {
                lemma_open_ids_keep(self.jobs@, i as int, status);
            }
        }
        if status == JobStatus::Doing {
            self.opening_jobs = remove_id(&self.opening_jobs, job_id);
        }
        job.status = status;
        self.jobs.set(i, job);
    }

    /// `caller` takes on open job `job_id` at time `now`.
    pub fn acquire_job(&mut self, caller: AccountId, now: Timestamp, job_id: TJobId) -> (r: Result<(), Error>)
        requires
            old(self).wf(),
        ensures
            final(self).wf(),
            jobs_evolve(old(self).jobs@, final(self).jobs@),
            r == outcome(old(self).acquire_error(caller, now, job_id)),
            r is Err ==> *final(self) == *old(self),
            r is Ok ==> {
                &&& status_moved(*old(self), *final(self), job_id, JobStatus::Doing)
                &&& final(self).job_acquirers@ == old(self).job_acquirers@.update(
                    job_id as int,
                    Some(caller),
                )
                &&& final(self).opening_jobs@ == without(old(self).opening_jobs@, job_id)
                &&& final(self).accounts == old(self).accounts
            },
    {
        self.ensure_not_job_owner(job_id, caller)?;
        self.ensure_job_status(job_id, JobStatus::Open)?;
        self.ensure_active_job(job_id, now)?;
        self.update_job_status(job_id, JobStatus::Doing);
        self.job_acquirers.set(job_id as usize, Some(caller));
        Ok(())
    }

    /// The acquirer of job `job_id` hands in its work for review.
    pub fn review_request(&mut self, caller: AccountId, job_id: TJobId) -> (r: Result<(), Error>)
        requires
            old(self).wf(),
        ensures
            final(self).wf(),
            jobs_evolve(old(self).jobs@, final(self).jobs@),
            r == outcome(old(self).review_error(caller, job_id)),
            r is Err ==> *final(self) == *old(self),
            r is Ok ==> {
                &&& status_moved(*old(self), *final(self), job_id, JobStatus::Review)
                &&& final(self).job_acquirers == old(self).job_acquirers
                &&& final(self).opening_jobs@ == old(self).opening_jobs@
                &&& final(self).accounts == old(self).accounts
            },
    {
        self.ensure_job_acquirer(caller, job_id)?;
        let is_doing = self.ensure_job_status(job_id, JobStatus::Doing).is_ok();
        let is_reopen = self.ensure_job_status(job_id, JobStatus::Reopen).is_ok();
        if !(is_doing || is_reopen) {
            return Err(Error::JobStatusIsNotDoing);
        }
        self.update_job_status(job_id, JobStatus::Review);
        Ok(())
    }

    /// The owner of job `job_id` sends the work under review back.
    pub fn reopen_job(&mut self, caller: AccountId, job_id: TJobId) -> (r: Result<(), Error>)
        requires
            old(self).wf(),
        ensures
            final(self).wf(),
            jobs_evolve(old(self).jobs@, final(self).jobs@),
            r == outcome(old(self).decide_error(caller, job_id)),
            r is Err ==> *final(self) == *old(self),
            r is Ok ==> {
                &&& status_moved(*old(self), *final(self), job_id, JobStatus::Reopen)
                &&& final(self).job_acquirers == old(self).job_acquirers
                &&& final(self).opening_jobs@ == old(self).opening_jobs@
                &&& final(self).accounts == old(self).accounts
            },
    {
        self.ensure_job_owner(caller, job_id)?;
        self.ensure_job_status(job_id, JobStatus::Review)?;
        self.update_job_status(job_id, JobStatus::Reopen);
        Ok(())
    }

    /// Credits the budget of job `job_id` to its acquirer and returns the
    /// transfer that pays it.
    fn payout_for(&mut self, job_id: TJobId) -> (r: Result<Payout, Error>)
        requires
            keys_unique(old(self).accounts@),
            old(self).has_job(job_id),
            old(self).job_acquirers.len() == old(self).jobs.len(),
            old(self).payout_fits(job_id),
        ensures
            old(self).job_acquirers[job_id as int] is None ==> r == Err::<Payout, Error>(
                Error::NotJobAcquirer,
            ) && *final(self) == *old(self),
            old(self).job_acquirers[job_id as int] is Some ==> {
                let to = old(self).acquirer_of(job_id);
                let amount = old(self).jobs[job_id as int].budget;
                &&& r == Ok::<Payout, Error>(Payout { to, amount })
                &&& keys_unique(final(self).accounts@)
                &&& forall|w: AccountId|
                    earning_of(final(self).accounts@, w) == earning_of(old(self).accounts@, w)
                        + if w == to {
                        amount as int
                    } else {
                        0
                    }
                &&& forall|w: AccountId|
                    paying_of(final(self).accounts@, w) == paying_of(old(self).accounts@, w)
                &&& earnings_total(final(self).accounts@) == earnings_total(old(self).accounts@)
                    + amount
                &&& final(self).jobs == old(self).jobs
                &&& final(self).job_acquirers == old(self).job_acquirers
                &&& final(self).opening_jobs@ == old(self).opening_jobs@
                &&& final(self).owner == old(self).owner
                &&& final(self).count_job == old(self).count_job
                &&& final(self).fee_percent == old(self).fee_percent
            },
    {
        match self.job_acquirers[job_id as usize] {
            None => Err(Error::NotJobAcquirer),
            Some(to) => {
                let amount = self.jobs[job_id as usize].budget;
                credit(&mut self.accounts, to, amount, 0);
                Ok(Payout { to, amount })
            },
        }
    }

    /// The owner of job `job_id` accepts the work under review. The budget
    /// goes to the acquirer: the returned payout is the transfer that the
    /// host must carry out, aborting the whole call if it fails.
    pub fn finish_job(&mut self, caller: AccountId, job_id: TJobId) -> (r: Result<Payout, Error>)
        requires
            old(self).wf(),
            old(self).decide_error(caller, job_id) is None ==> old(self).payout_fits(job_id),
        ensures
            final(self).wf(),
            jobs_evolve(old(self).jobs@, final(self).jobs@),
            r is Err ==> *final(self) == *old(self) && r == Err::<Payout, Error>(
                old(self).decide_error(caller, job_id)->0,
            ),
            r is Ok <==> old(self).decide_error(caller, job_id) is None,
            r is Ok ==> {
                let to = old(self).acquirer_of(job_id);
                let amount = old(self).jobs[job_id as int].budget;
                &&& r == Ok::<Payout, Error>(Payout { to, amount })
                &&& status_moved(*old(self), *final(self), job_id, JobStatus::Finish)
                &&& forall|w: AccountId|
                    earning_of(final(self).accounts@, w) == earning_of(old(self).accounts@, w)
                        + if w == to {
                        amount as int
                    } else {
                        0
                    }
                &&& forall|w: AccountId|
                    paying_of(final(self).accounts@, w) == paying_of(old(self).accounts@, w)
                &&& final(self).job_acquirers == old(self).job_acquirers
                &&& final(self).opening_jobs@ == old(self).opening_jobs@
            },
    {
        self.ensure_job_owner(caller, job_id)?;
        self.ensure_job_status(job_id, JobStatus::Review)?;
        let payout = self.payout_for(job_id)?;
        self.update_job_status(job_id, JobStatus::Finish);
        Ok(payout)
    }

    /// Page `page` of the open jobs, `page_size` to a page, in the order of
    /// the open index, with the number of open jobs in all.
    pub fn view_open_jobs(&self, page: u16, page_size: u16) -> (r: ViewOpenningJobResponse)
        requires
            self.wf(),
        ensures
            r.total == self.opening_jobs.len(),
            ({
                let skip = page as int * page_size as int;
                let total = self.opening_jobs.len() as int;
                &&& skip > total ==> r.data.len() == 0
                &&& skip <= total ==> {
                    &&& r.data.len() == if total - skip < page_size {
                        total - skip
                    } else {
                        page_size as int
                    }
                    &&& forall|k: int|
                        0 <= k < r.data.len() ==> r.data[k] == self.jobs[self.opening_jobs[skip
                            + k] as int]
                }
            }),
    {
        proof {
            lemma_open_ids_bound(self.jobs@);
            assert(page as int * page_size as int <= 0xffff * 0xffff) by (nonlinear_arith)
                requires
                    page <= 0xffff,
                    page_size <= 0xffff,
            ;
        }
        let skip: usize = page as usize * page_size as usize;
        let count = self.opening_jobs.len();
        let total = count as u32;
        if skip > count {
            return ViewOpenningJobResponse { data: Vec::new(), total };
        }
        let end: usize = if count - skip < page_size as usize {
            count
        } else {
            skip + page_size as usize
        };
        let mut data: Vec<Job> = Vec::new();
        let mut k: usize = skip;
        while k < end
            invariant
                self.wf(),
                skip <= k <= end <= count,
                count == self.opening_jobs.len(),
                forall|m: int| 0 <= m < count ==> self.opening_jobs[m] < self.jobs.len(),
                data.len() == k - skip,
                forall|m: int|
                    0 <= m < data.len() ==> data[m] == self.jobs[self.opening_jobs[skip
                        + m] as int],
            decreases end - k,
        {
            let id = self.opening_jobs[k];
            data.push(self.jobs[id as usize].duplicate());
            k = k + 1;
        }
        ViewOpenningJobResponse { data, total }
    }

    /// Job `job_id`, if it exists.
    pub fn view_job(&self, job_id: TJobId) -> (r: Result<Job, Error>)
        requires
            self.wf(),
        ensures
            r == if self.has_job(job_id) {
                Ok::<Job, Error>(self.jobs[job_id as int])
            } else {
                Err(Error::JobNotExists)
            },
    {
        self.get_job(job_id)
    }

    fn get_job(&self, job_id: TJobId) -> (r: Result<Job, Error>)
        ensures
            r == if self.has_job(job_id) {
                Ok::<Job, Error>(self.jobs[job_id as int])
            } else {
                Err(Error::JobNotExists)
            },
    {
        if job_id as usize >= self.jobs.len() {
            return Err(Error::JobNotExists);
        }
        Ok(self.jobs[job_id as usize].duplicate())
    }

    /// What `caller` has earned as acquirer and paid as owner, in all.
    pub fn user_statistic(&self, caller: AccountId) -> (r: UserStatistic)
        requires
            self.wf(),
        ensures
            r.earning == earning_of(self.accounts@, caller),
            r.paying == paying_of(self.accounts@, caller),
    {
        match find_account(&self.accounts, caller) {
            Some(k) => {
                proof {
                    lemma_entry_found(self.accounts@, k as int);
                }
                UserStatistic { earning: self.accounts[k].earning, paying: self.accounts[k].paying }
            },
            None => {
                proof {
                    lemma_entry_absent(self.accounts@, caller);
                }
                UserStatistic { earning: 0, paying: 0 }
            },
        }
    }

    /// The value the contract holds, `balance` as the host reports it; the
    /// administrator only.
    pub fn check_balance(&self, caller: AccountId, balance: Balance) -> (r: Result<Balance, Error>)
        ensures
            r == if caller == self.owner {
                Ok::<Balance, Error>(balance)
            } else {
                Err(Error::NotOwner)
            },
    {
        self.ensure_owner(caller)?;
        Ok(balance)
    }
}

} // verus!
