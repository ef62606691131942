//! The mathematical model of the marketplace: the transition table, the
//! open-job index as a function of the job records, the escrow totals and
//! the per-identity counters, with the lemmas that relate them.
use vstd::prelude::*;
use crate::types::{Account, AccountId, Job, JobStatus};

verus! {

/// The budget locked for a job funded with `value` under `fee_percent`.
pub open spec fn budget_for(value: u128, fee_percent: u32) -> int {
    (value as int * fee_percent as int) / 100
}

/// The edges of the job lifecycle.
pub open spec fn step_allowed(from: JobStatus, to: JobStatus) -> bool {
    match (from, to) {
        (JobStatus::Open, JobStatus::Doing) => true,
        (JobStatus::Doing, JobStatus::Review) => true,
        (JobStatus::Reopen, JobStatus::Review) => true,
        (JobStatus::Review, JobStatus::Reopen) => true,
        (JobStatus::Review, JobStatus::Finish) => true,
        _ => false,
    }
}

/// Each job that existed before still exists, and its status stayed or took
/// one edge of the lifecycle; identity, owner and budget never change.
pub open spec fn jobs_evolve(before: Seq<Job>, after: Seq<Job>) -> bool {
    &&& before.len() <= after.len()
    &&& forall|i: int|
        0 <= i < before.len() ==> {
            &&& (after[i].status == before[i].status || step_allowed(
                before[i].status,
                after[i].status,
            ))
            &&& after[i].id == before[i].id
            &&& after[i].owner == before[i].owner
            &&& after[i].budget == before[i].budget
        }
    &&& forall|i: int| before.len() <= i < after.len() ==> after[i].status == JobStatus::Open
}

/// Record `i` carries identifier `i`.
pub open spec fn ids_sequential(jobs: Seq<Job>) -> bool {
    forall|i: int| 0 <= i < jobs.len() ==> jobs[i].id == i
}

/// The record `j` with its status set to `st`.
pub open spec fn with_status(j: Job, st: JobStatus) -> Job {
    Job { status: st, ..j }
}

/// The identifiers of the open jobs, in the order of the records.
pub open spec fn open_ids(jobs: Seq<Job>) -> Seq<u32>
    decreases jobs.len(),
{
    if jobs.len() == 0 {
        Seq::empty()
    } else {
        let rest = open_ids(jobs.drop_last());
        if jobs.last().status == JobStatus::Open {
            rest.push(jobs.last().id)
        } else {
            rest
        }
    }
}

/// `s` with every occurrence of `x` taken out, the rest in order.
pub open spec fn without(s: Seq<u32>, x: u32) -> Seq<u32>
    decreases s.len(),
{
    if s.len() == 0 {
        Seq::empty()
    } else {
        let rest = without(s.drop_last(), x);
        if s.last() == x {
            rest
        } else {
            rest.push(s.last())
        }
    }
}

/// The sum of a sequence of integers.
pub open spec fn sum(s: Seq<int>) -> int
    decreases s.len(),
{
    if s.len() == 0 {
        0
    } else {
        sum(s.drop_last()) + s.last()
    }
}

/// What a job has paid out: its budget once finished, nothing before.
pub open spec fn paid_budget(j: Job) -> int {
    if j.status == JobStatus::Finish {
        j.budget as int
    } else {
        0
    }
}

/// The budgets of all finished jobs, summed.
pub open spec fn finished_total(jobs: Seq<Job>) -> int {
    sum(jobs.map_values(|j: Job| paid_budget(j)))
}

/// The earnings of all identities, summed.
pub open spec fn earnings_total(accounts: Seq<Account>) -> int {
    sum(accounts.map_values(|a: Account| a.earning as int))
}

/// No identity has two entries.
pub open spec fn keys_unique(accounts: Seq<Account>) -> bool {
    forall|i: int, j: int|
        0 <= i < j < accounts.len() ==> accounts[i].id != accounts[j].id
}

/// The entry of `who`, if it has one.
pub open spec fn entry_of(accounts: Seq<Account>, who: AccountId) -> Option<Account>
    decreases accounts.len(),
{
    if accounts.len() == 0 {
        None
    } else if accounts.last().id == who {
        Some(accounts.last())
    } else {
        entry_of(accounts.drop_last(), who)
    }
}

/// What `who` has earned as acquirer, in all.
pub open spec fn earning_of(accounts: Seq<Account>, who: AccountId) -> int {
    match entry_of(accounts, who) {
        Some(a) => a.earning as int,
        None => 0,
    }
}

/// What `who` has paid in as owner, in all.
pub open spec fn paying_of(accounts: Seq<Account>, who: AccountId) -> int {
    match entry_of(accounts, who) {
        Some(a) => a.paying as int,
        None => 0,
    }
}

pub proof fn lemma_sum_push(s: Seq<int>, v: int)
    ensures
        sum(s.push(v)) == sum(s) + v,
{
    assert(s.push(v).drop_last() =~= s);
}

pub proof fn lemma_sum_update(s: Seq<int>, k: int, v: int)
    requires
        0 <= k < s.len(),
    ensures
        sum(s.update(k, v)) == sum(s) - s[k] + v,
    decreases s.len(),
{
    if k == s.len() - 1 {
        assert(s.update(k, v).drop_last() =~= s.drop_last());
    } else {
        assert(s.update(k, v).drop_last() =~= s.drop_last().update(k, v));
        lemma_sum_update(s.drop_last(), k, v);
    }
}

pub proof fn lemma_finished_total_push(jobs: Seq<Job>, j: Job)
    ensures
        finished_total(jobs.push(j)) == finished_total(jobs) + paid_budget(j),
{
    let f = |j: Job| paid_budget(j);
    assert(jobs.push(j).map_values(f) =~= jobs.map_values(f).push(paid_budget(j)));
    lemma_sum_push(jobs.map_values(f), paid_budget(j));
}

pub proof fn lemma_finished_total_update(jobs: Seq<Job>, k: int, j: Job)
    requires
        0 <= k < jobs.len(),
    ensures
        finished_total(jobs.update(k, j)) == finished_total(jobs) - paid_budget(jobs[k])
            + paid_budget(j),
{
    let f = |j: Job| paid_budget(j);
    assert(jobs.update(k, j).map_values(f) =~= jobs.map_values(f).update(k, paid_budget(j)));
    lemma_sum_update(jobs.map_values(f), k, paid_budget(j));
}

pub proof fn lemma_earnings_total_push(accounts: Seq<Account>, a: Account)
    ensures
        earnings_total(accounts.push(a)) == earnings_total(accounts) + a.earning,
{
    let f = |a: Account| a.earning as int;
    assert(accounts.push(a).map_values(f) =~= accounts.map_values(f).push(a.earning as int));
    lemma_sum_push(accounts.map_values(f), a.earning as int);
}

pub proof fn lemma_earnings_total_update(accounts: Seq<Account>, k: int, a: Account)
    requires
        0 <= k < accounts.len(),
    ensures
        earnings_total(accounts.update(k, a)) == earnings_total(accounts) - accounts[k].earning
            + a.earning,
{
    let f = |a: Account| a.earning as int;
    assert(accounts.update(k, a).map_values(f) =~= accounts.map_values(f).update(
        k,
        a.earning as int,
    ));
    lemma_sum_update(accounts.map_values(f), k, a.earning as int);
}

/// The entry found for an identity is the one with its key.
pub proof fn lemma_entry_found(accounts: Seq<Account>, k: int)
    requires
        keys_unique(accounts),
        0 <= k < accounts.len(),
    ensures
        entry_of(accounts, accounts[k].id) == Some(accounts[k]),
    decreases accounts.len(),
{
    if k < accounts.len() - 1 {
        lemma_entry_found(accounts.drop_last(), k);
    }
}

/// An identity with no entry has none to find.
pub proof fn lemma_entry_absent(accounts: Seq<Account>, who: AccountId)
    requires
        forall|i: int| 0 <= i < accounts.len() ==> accounts[i].id != who,
    ensures
        entry_of(accounts, who) is None,
    decreases accounts.len(),
{
    if accounts.len() > 0 {
        lemma_entry_absent(accounts.drop_last(), who);
    }
}

/// Replacing the entry at `k` by one with the same key changes what is
/// found for that key only.
pub proof fn lemma_entry_update(accounts: Seq<Account>, k: int, a: Account, who: AccountId)
    requires
        keys_unique(accounts),
        0 <= k < accounts.len(),
        a.id == accounts[k].id,
    ensures
        entry_of(accounts.update(k, a), who) == if who == a.id {
            Some(a)
        } else {
            entry_of(accounts, who)
        },
    decreases accounts.len(),
{
    let s2 = accounts.update(k, a);
    if k == accounts.len() - 1 {
        assert(s2.drop_last() =~= accounts.drop_last());
    } else {
        assert(s2.drop_last() =~= accounts.drop_last().update(k, a));
        lemma_entry_update(accounts.drop_last(), k, a, who);
    }
}

/// Appending an entry with a fresh key changes what is found for that key
/// only.
pub proof fn lemma_entry_push(accounts: Seq<Account>, a: Account, who: AccountId)
    ensures
        entry_of(accounts.push(a), who) == if who == a.id {
            Some(a)
        } else {
            entry_of(accounts, who)
        },
{
    assert(accounts.push(a).drop_last() =~= accounts);
}

/// Every identifier in the open index belongs to a record.
pub proof fn lemma_open_ids_bound(jobs: Seq<Job>)
    requires
        ids_sequential(jobs),
    ensures
        open_ids(jobs).len() <= jobs.len(),
        forall|k: int| 0 <= k < open_ids(jobs).len() ==> open_ids(jobs)[k] < jobs.len(),
    decreases jobs.len(),
{
    if jobs.len() > 0 {
        lemma_open_ids_bound(jobs.drop_last());
    }
}

pub proof fn lemma_without_absent(s: Seq<u32>, x: u32)
    requires
        !s.contains(x),
    ensures
        without(s, x) == s,
    decreases s.len(),
{
    if s.len() > 0 {
        assert(!s.drop_last().contains(x)) by {
            if s.drop_last().contains(x) {
                let k = choose|k: int| 0 <= k < s.drop_last().len() && s.drop_last()[k] == x;
                assert(s[k] == x);
            }
        }
        lemma_without_absent(s.drop_last(), x);
        assert(s.drop_last().push(s.last()) =~= s);
    }
}

pub proof fn lemma_open_ids_push(jobs: Seq<Job>, j: Job)
    requires
        j.status == JobStatus::Open,
    ensures
        open_ids(jobs.push(j)) == open_ids(jobs).push(j.id),
{
    assert(jobs.push(j).drop_last() =~= jobs);
}

/// Taking an open job out of `Open` takes its identifier out of the index.
pub proof fn lemma_open_ids_leave(jobs: Seq<Job>, i: int, st: JobStatus)
    requires
        ids_sequential(jobs),
        0 <= i < jobs.len(),
        jobs[i].status == JobStatus::Open,
        st != JobStatus::Open,
    ensures
        open_ids(jobs.update(i, with_status(jobs[i], st))) == without(open_ids(jobs), i as u32),
    decreases jobs.len(),
{
    let j2 = jobs.update(i, with_status(jobs[i], st));
    let rest = jobs.drop_last();
    if i == jobs.len() - 1 {
        assert(j2.drop_last() =~= rest);
        lemma_open_ids_bound(rest);
        assert(!open_ids(rest).contains(i as u32));
        lemma_without_absent(open_ids(rest), i as u32);
        assert(open_ids(jobs).drop_last() =~= open_ids(rest));
    } else {
        assert(j2.drop_last() =~= rest.update(i, with_status(rest[i], st)));
        lemma_open_ids_leave(rest, i, st);
        if jobs.last().status == JobStatus::Open {
            assert(open_ids(jobs).drop_last() =~= open_ids(rest));
        }
    }
}

/// A change between two statuses other than `Open` leaves the index alone.
pub proof fn lemma_open_ids_keep(jobs: Seq<Job>, i: int, st: JobStatus)
    requires
        0 <= i < jobs.len(),
        jobs[i].status != JobStatus::Open,
        st != JobStatus::Open,
    ensures
        open_ids(jobs.update(i, with_status(jobs[i], st))) == open_ids(jobs),
    decreases jobs.len(),
{
    let j2 = jobs.update(i, with_status(jobs[i], st));
    let rest = jobs.drop_last();
    if i == jobs.len() - 1 {
        assert(j2.drop_last() =~= rest);
    } else {
        assert(j2.drop_last() =~= rest.update(i, with_status(rest[i], st)));
        lemma_open_ids_keep(rest, i, st);
    }
}

} // verus!
