//! Properties of the marketplace that hold of every reachable state and of
//! every sequence of operations.
use vstd::prelude::*;
use crate::freelancer::{fee_updated, job_added, Freelancer};
use crate::model::{budget_for, earnings_total, finished_total, jobs_evolve};
use crate::types::{AccountId, Balance, Error, Job, JobStatus, TJobId, Timestamp};

verus! {

/// Identifiers grow strictly with the order of creation, so no two jobs
/// share one.
pub proof fn lemma_ids_strictly_increasing(s: Freelancer, i: int, j: int)
    requires
        s.wf(),
        0 <= i < j < s.jobs.len(),
    ensures
        s.jobs[i].id < s.jobs[j].id,
{
}

/// A newly created job gets an identifier above those of all earlier jobs.
pub proof fn lemma_created_id_is_fresh(
    before: Freelancer,
    after: Freelancer,
    caller: AccountId,
    transferred_value: Balance,
    now: Timestamp,
    name: Seq<char>,
    description: Seq<char>,
    expired_after: Timestamp,
    job: Job,
)
    requires
        before.wf(),
        job_added(before, after, caller, transferred_value, now, name, description, expired_after, job),
    ensures
        forall|i: int| 0 <= i < before.jobs.len() ==> before.jobs[i].id < job.id,
        after.jobs[after.jobs.len() - 1].id == job.id,
{
}

/// Once finished, a job stays finished.
pub proof fn lemma_finish_is_terminal(before: Seq<Job>, after: Seq<Job>, i: int)
    requires
        jobs_evolve(before, after),
        0 <= i < before.len(),
        before[i].status == JobStatus::Finish,
    ensures
        after[i].status == JobStatus::Finish,
{
}

/// A job reaches `Finish` only from `Review`.
pub proof fn lemma_finish_only_after_review(before: Seq<Job>, after: Seq<Job>, i: int)
    requires
        jobs_evolve(before, after),
        0 <= i < before.len(),
        before[i].status != JobStatus::Finish,
        after[i].status == JobStatus::Finish,
    ensures
        before[i].status == JobStatus::Review,
{
}

/// Only the owner may reopen or finish a job, only the acquirer may ask
/// for review, and the owner may never acquire their own job.
pub proof fn lemma_roles(s: Freelancer, caller: AccountId, now: Timestamp, job_id: TJobId)
    requires
        s.wf(),
    ensures
        s.decide_error(caller, job_id) is None ==> caller == s.jobs[job_id as int].owner,
        s.review_error(caller, job_id) is None ==> s.job_acquirers[job_id as int] == Some(caller),
        s.is_job_owner(caller, job_id) ==> s.acquire_error(caller, now, job_id) == Some(
            Error::JobOwnerCanNotAcquire,
        ),
        s.has_job(job_id) && s.job_acquirers[job_id as int] is Some ==> s.job_acquirers[job_id as int]->0
            != s.jobs[job_id as int].owner,
{
}

/// An open job whose expiry has passed cannot be acquired by anyone other
/// than its owner, whom an earlier check refuses. Review, reopening and
/// finishing take no time as input, so expiry cannot affect them.
pub proof fn lemma_expired_job_not_acquired(s: Freelancer, caller: AccountId, now: Timestamp, job_id: TJobId)
    requires
        s.wf(),
        s.has_job(job_id),
        s.status_of(job_id) == JobStatus::Open,
        s.jobs[job_id as int].expired_at < now,
        !s.is_job_owner(caller, job_id),
    ensures
        s.acquire_error(caller, now, job_id) == Some(Error::JobExpired),
{
}

/// The earnings of all identities add up to the budgets of all finished
/// jobs.
pub proof fn lemma_escrow_balanced(s: Freelancer)
    requires
        s.wf(),
    ensures
        earnings_total(s.accounts@) == finished_total(s.jobs@),
{
}

/// A change of the fee leaves the budgets of existing jobs alone; the next
/// job created is priced with the new fee.
pub proof fn lemma_fee_change_not_retroactive(
    s0: Freelancer,
    s1: Freelancer,
    s2: Freelancer,
    admin: AccountId,
    fee_percent: u32,
    caller: AccountId,
    transferred_value: Balance,
    now: Timestamp,
    name: Seq<char>,
    description: Seq<char>,
    expired_after: Timestamp,
    job: Job,
)
    requires
        s0.wf(),
        fee_updated(s0, s1, admin, fee_percent, Ok(())),
        job_added(s1, s2, caller, transferred_value, now, name, description, expired_after, job),
    ensures
        forall|i: int| 0 <= i < s0.jobs.len() ==> s2.jobs[i].budget == s0.jobs[i].budget,
        job.budget == budget_for(transferred_value, fee_percent),
{
    assert forall|i: int| 0 <= i < s0.jobs.len() implies s2.jobs[i].budget == s0.jobs[i].budget by {
        assert(s2.jobs@[i] == s1.jobs@[i]);
    }
}

} // verus!
