use freelancer::freelancer::Freelancer;
use freelancer::types::{AccountId, Error, JobStatus, Payout};

const ADMIN: AccountId = AccountId { hi: 0, lo: 1 };
const OWNER: AccountId = AccountId { hi: 0, lo: 2 };
const WORKER: AccountId = AccountId { hi: 7, lo: 3 };
const OTHER: AccountId = AccountId { hi: 9, lo: 4 };

fn market_with_fee(fee: u32) -> Freelancer {
    let mut m = Freelancer::new(ADMIN);
    assert_eq!(m.update_fee_percent(ADMIN, fee), Ok(()));
    m
}

fn create(m: &mut Freelancer, value: u128, now: u64, expired_after: u64) -> u32 {
    let job = m
        .create_job(OWNER, value, now, b"logo".to_vec(), b"draw a logo".to_vec(), expired_after)
        .unwrap();
    job.id
}

fn job_in_review(m: &mut Freelancer) -> u32 {
    let id = create(m, 1000, 10, 100);
    assert_eq!(m.acquire_job(WORKER, 20, id), Ok(()));
    assert_eq!(m.review_request(WORKER, id), Ok(()));
    id
}

#[test]
fn create_locks_budget_from_fee() {
    let mut m = market_with_fee(10);
    let job = m
        .create_job(OWNER, 1000, 50, b"logo".to_vec(), b"draw a logo".to_vec(), 30)
        .unwrap();
    assert_eq!(job.id, 0);
    assert_eq!(job.budget, 100);
    assert_eq!(job.status, JobStatus::Open);
    assert_eq!(job.expired_at, 80);
    assert_eq!(job.owner, OWNER);
    assert_eq!(job.name, "logo");
    assert_eq!(job.description, "draw a logo");
    let stored = m.view_job(0).unwrap();
    assert_eq!(stored.budget, 100);
    assert_eq!(stored.status, JobStatus::Open);
    assert_eq!(m.user_statistic(OWNER).paying, 1000);
    assert_eq!(m.user_statistic(OWNER).earning, 0);
}

#[test]
fn budget_truncates() {
    let mut m = market_with_fee(7);
    let id = create(&mut m, 999, 0, 10);
    assert_eq!(m.view_job(id).unwrap().budget, 69);
}

#[test]
fn budget_with_fee_zero_is_zero() {
    let mut m = Freelancer::new(ADMIN);
    let id = create(&mut m, 1000, 0, 10);
    assert_eq!(m.view_job(id).unwrap().budget, 0);
}

#[test]
fn ids_are_sequential() {
    let mut m = market_with_fee(10);
    let a = create(&mut m, 10, 0, 10);
    let b = create(&mut m, 20, 0, 10);
    let c = create(&mut m, 30, 0, 10);
    assert_eq!((a, b, c), (0, 1, 2));
    assert_eq!(m.count_job, 3);
}

#[test]
fn acquire_by_other_identity() {
    let mut m = market_with_fee(10);
    let id = create(&mut m, 1000, 10, 100);
    assert_eq!(m.acquire_job(OWNER, 20, id), Err(Error::JobOwnerCanNotAcquire));
    assert_eq!(m.view_job(id).unwrap().status, JobStatus::Open);
    assert_eq!(m.acquire_job(WORKER, 20, id), Ok(()));
    assert_eq!(m.view_job(id).unwrap().status, JobStatus::Doing);
    assert_eq!(m.job_acquirers[id as usize], Some(WORKER));
    assert_eq!(m.view_open_jobs(0, 10).total, 0);
}

#[test]
fn acquire_twice_is_refused() {
    let mut m = market_with_fee(10);
    let id = create(&mut m, 1000, 10, 100);
    assert_eq!(m.acquire_job(WORKER, 20, id), Ok(()));
    assert_eq!(m.acquire_job(OTHER, 20, id), Err(Error::JobStatusIsNotOpen));
    assert_eq!(m.job_acquirers[id as usize], Some(WORKER));
}

#[test]
fn review_then_finish_pays_acquirer() {
    let mut m = market_with_fee(10);
    let id = job_in_review(&mut m);
    assert_eq!(m.view_job(id).unwrap().status, JobStatus::Review);
    assert_eq!(m.finish_job(OWNER, id), Ok(Payout { to: WORKER, amount: 100 }));
    assert_eq!(m.view_job(id).unwrap().status, JobStatus::Finish);
    assert_eq!(m.user_statistic(WORKER).earning, 100);
    assert_eq!(m.user_statistic(WORKER).paying, 0);
}

#[test]
fn reopen_then_review_again_then_finish() {
    let mut m = market_with_fee(10);
    let id = job_in_review(&mut m);
    assert_eq!(m.reopen_job(OWNER, id), Ok(()));
    assert_eq!(m.view_job(id).unwrap().status, JobStatus::Reopen);
    assert_eq!(m.review_request(WORKER, id), Ok(()));
    assert_eq!(m.view_job(id).unwrap().status, JobStatus::Review);
    assert_eq!(m.finish_job(OWNER, id), Ok(Payout { to: WORKER, amount: 100 }));
    assert_eq!(m.view_job(id).unwrap().status, JobStatus::Finish);
}

#[test]
fn expired_job_cannot_be_acquired() {
    let mut m = market_with_fee(10);
    let id = create(&mut m, 1000, 10, 100);
    assert_eq!(m.acquire_job(WORKER, 111, id), Err(Error::JobExpired));
    assert_eq!(m.view_job(id).unwrap().status, JobStatus::Open);
    assert_eq!(m.view_open_jobs(0, 10).total, 1);
}

#[test]
fn acquire_at_expiry_instant_succeeds() {
    let mut m = market_with_fee(10);
    let id = create(&mut m, 1000, 10, 100);
    assert_eq!(m.acquire_job(WORKER, 110, id), Ok(()));
}

#[test]
fn expiry_does_not_affect_review_or_finish() {
    let mut m = market_with_fee(10);
    let id = job_in_review(&mut m);
    assert_eq!(m.reopen_job(OWNER, id), Ok(()));
    assert_eq!(m.review_request(WORKER, id), Ok(()));
    assert_eq!(m.finish_job(OWNER, id), Ok(Payout { to: WORKER, amount: 100 }));
}

#[test]
fn second_page_of_three_open_jobs() {
    let mut m = market_with_fee(10);
    for _ in 0..3 {
        create(&mut m, 100, 0, 10);
    }
    let r = m.view_open_jobs(1, 2);
    assert_eq!(r.total, 3);
    assert_eq!(r.data.len(), 1);
    assert_eq!(r.data[0].id, 2);
}

#[test]
fn page_past_the_end_is_empty() {
    let mut m = market_with_fee(10);
    for _ in 0..3 {
        create(&mut m, 100, 0, 10);
    }
    let r = m.view_open_jobs(2, 2);
    assert_eq!(r.total, 3);
    assert!(r.data.is_empty());
    let r = m.view_open_jobs(4, 1);
    assert_eq!(r.total, 3);
    assert!(r.data.is_empty());
}

#[test]
fn open_index_follows_acquisitions() {
    let mut m = market_with_fee(10);
    for _ in 0..4 {
        create(&mut m, 100, 0, 10);
    }
    assert_eq!(m.acquire_job(WORKER, 0, 1), Ok(()));
    let r = m.view_open_jobs(0, 10);
    assert_eq!(r.total, 3);
    let ids: Vec<u32> = r.data.iter().map(|j| j.id).collect();
    assert_eq!(ids, vec![0, 2, 3]);
    assert_eq!(m.opening_jobs, vec![0, 2, 3]);
}

#[test]
fn empty_market_lists_nothing() {
    let m = Freelancer::new(ADMIN);
    let r = m.view_open_jobs(0, 0);
    assert_eq!(r.total, 0);
    assert!(r.data.is_empty());
    let r = m.view_open_jobs(65535, 65535);
    assert!(r.data.is_empty());
}

#[test]
fn fee_change_is_not_retroactive() {
    let mut m = market_with_fee(10);
    let first = create(&mut m, 1000, 0, 10);
    assert_eq!(m.update_fee_percent(ADMIN, 50), Ok(()));
    let second = create(&mut m, 1000, 0, 10);
    assert_eq!(m.view_job(first).unwrap().budget, 100);
    assert_eq!(m.view_job(second).unwrap().budget, 500);
}

#[test]
fn only_admin_sets_fee_and_reads_balance() {
    let mut m = market_with_fee(10);
    assert_eq!(m.update_fee_percent(OWNER, 90), Err(Error::NotOwner));
    assert_eq!(m.fee_percent, 10);
    assert_eq!(m.check_balance(OWNER, 5000), Err(Error::NotOwner));
    assert_eq!(m.check_balance(ADMIN, 5000), Ok(5000));
}

#[test]
fn only_owner_reopens_or_finishes() {
    let mut m = market_with_fee(10);
    let id = job_in_review(&mut m);
    assert_eq!(m.reopen_job(WORKER, id), Err(Error::NotJobOwner));
    assert_eq!(m.finish_job(WORKER, id), Err(Error::NotJobOwner));
    assert_eq!(m.finish_job(OTHER, id), Err(Error::NotJobOwner));
    assert_eq!(m.view_job(id).unwrap().status, JobStatus::Review);
    assert_eq!(m.user_statistic(WORKER).earning, 0);
}

#[test]
fn only_acquirer_requests_review() {
    let mut m = market_with_fee(10);
    let id = create(&mut m, 1000, 10, 100);
    assert_eq!(m.review_request(WORKER, id), Err(Error::NotJobAcquirer));
    assert_eq!(m.acquire_job(WORKER, 20, id), Ok(()));
    assert_eq!(m.review_request(OWNER, id), Err(Error::NotJobAcquirer));
    assert_eq!(m.review_request(OTHER, id), Err(Error::NotJobAcquirer));
    assert_eq!(m.view_job(id).unwrap().status, JobStatus::Doing);
}

#[test]
fn status_mismatches_are_reported() {
    let mut m = market_with_fee(10);
    let id = create(&mut m, 1000, 10, 100);
    assert_eq!(m.finish_job(OWNER, id), Err(Error::JobStatusIsNotReview));
    assert_eq!(m.reopen_job(OWNER, id), Err(Error::JobStatusIsNotReview));
    assert_eq!(m.acquire_job(WORKER, 20, id), Ok(()));
    assert_eq!(m.finish_job(OWNER, id), Err(Error::JobStatusIsNotReview));
    assert_eq!(m.review_request(WORKER, id), Ok(()));
    assert_eq!(m.review_request(WORKER, id), Err(Error::JobStatusIsNotDoing));
}

#[test]
fn finished_job_admits_no_transition() {
    let mut m = market_with_fee(10);
    let id = job_in_review(&mut m);
    assert!(m.finish_job(OWNER, id).is_ok());
    assert_eq!(m.finish_job(OWNER, id), Err(Error::JobStatusIsNotReview));
    assert_eq!(m.reopen_job(OWNER, id), Err(Error::JobStatusIsNotReview));
    assert_eq!(m.review_request(WORKER, id), Err(Error::JobStatusIsNotDoing));
    assert_eq!(m.acquire_job(OTHER, 20, id), Err(Error::JobStatusIsNotOpen));
    assert_eq!(m.view_job(id).unwrap().status, JobStatus::Finish);
    assert_eq!(m.user_statistic(WORKER).earning, 100);
}

#[test]
fn unknown_job_is_reported() {
    let mut m = market_with_fee(10);
    assert_eq!(m.view_job(3).unwrap_err(), Error::JobNotExists);
    assert_eq!(m.acquire_job(WORKER, 0, 3), Err(Error::JobNotExists));
    assert_eq!(m.reopen_job(OWNER, 3), Err(Error::NotJobOwner));
    assert_eq!(m.finish_job(OWNER, 3), Err(Error::NotJobOwner));
    assert_eq!(m.review_request(WORKER, 3), Err(Error::NotJobAcquirer));
}

#[test]
fn earnings_match_finished_budgets() {
    let mut m = market_with_fee(10);
    let a = job_in_review(&mut m);
    let b = job_in_review(&mut m);
    let c = create(&mut m, 2000, 0, 1000);
    assert_eq!(m.acquire_job(OTHER, 0, c), Ok(()));
    assert_eq!(m.review_request(OTHER, c), Ok(()));
    assert!(m.finish_job(OWNER, a).is_ok());
    assert!(m.finish_job(OWNER, c).is_ok());
    let earned = m.user_statistic(WORKER).earning + m.user_statistic(OTHER).earning
        + m.user_statistic(OWNER).earning;
    let finished: u128 = [a, b, c]
        .iter()
        .map(|&i| m.view_job(i).unwrap())
        .filter(|j| j.status == JobStatus::Finish)
        .map(|j| j.budget)
        .sum();
    assert_eq!(earned, 300);
    assert_eq!(finished, 300);
    assert_eq!(m.user_statistic(OWNER).paying, 4000);
}

#[test]
fn malformed_text_is_rejected() {
    let mut m = market_with_fee(10);
    let r = m.create_job(OWNER, 1000, 0, vec![0xff, 0xfe], b"ok".to_vec(), 10);
    assert_eq!(r.unwrap_err(), Error::InvalidUtf8);
    let r = m.create_job(OWNER, 1000, 0, b"ok".to_vec(), vec![0xc3], 10);
    assert_eq!(r.unwrap_err(), Error::InvalidUtf8);
    assert_eq!(m.count_job, 0);
    assert!(m.jobs.is_empty());
    assert_eq!(m.user_statistic(OWNER).paying, 0);
}

#[test]
fn multibyte_text_is_decoded() {
    let mut m = market_with_fee(10);
    let job = m
        .create_job(OWNER, 1000, 0, vec![0x63, 0x61, 0x66, 0xc3, 0xa9], Vec::new(), 10)
        .unwrap();
    assert_eq!(job.name, "café");
    assert_eq!(job.name.chars().count(), 4);
    assert_eq!(job.description, "");
}

#[test]
fn zero_value_is_rejected() {
    let mut m = market_with_fee(10);
    let r = m.create_job(OWNER, 0, 0, b"logo".to_vec(), b"draw a logo".to_vec(), 10);
    assert_eq!(r.unwrap_err(), Error::NoValueTransferred);
    let r = m.create_job(OWNER, 0, 0, vec![0xff], b"ok".to_vec(), 10);
    assert_eq!(r.unwrap_err(), Error::NoValueTransferred);
    assert_eq!(m.count_job, 0);
    assert!(m.jobs.is_empty());
    assert_eq!(m.view_open_jobs(0, 10).total, 0);
    assert_eq!(m.user_statistic(OWNER).paying, 0);
    let id = create(&mut m, 1, 0, 10);
    assert_eq!(id, 0);
    assert_eq!(m.view_job(id).unwrap().budget, 0);
}
