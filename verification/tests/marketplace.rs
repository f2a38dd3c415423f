use gpu_marketplace::JobMarketplace;
use gpu_marketplace::JobStatus;
use gpu_marketplace::MarketError;

const REGISTRY: u64 = 100;
const TOKEN: u64 = 101;

fn initialized() -> JobMarketplace {
    let mut market = JobMarketplace::new();
    market.initialize(REGISTRY, TOKEN).unwrap();
    market
}

#[test]
fn double_initialize_fails_second_time() {
    let mut market = JobMarketplace::new();
    assert_eq!(market.initialize(REGISTRY, TOKEN), Ok(()));
    assert_eq!(market.initialize(REGISTRY, TOKEN), Err(MarketError::AlreadyInitialized));
    assert_eq!(market.get_platform_fees(), 0);
}

#[test]
fn post_before_initialize_fails() {
    let mut market = JobMarketplace::new();
    let r = market.post_job(1, 0, String::from("train"), 2, 100, 0);
    assert_eq!(r, Err(MarketError::NotInitialized));
}

#[test]
fn post_rejects_zero_hours_and_nonpositive_amount() {
    let mut market = initialized();
    assert_eq!(
        market.post_job(1, 0, String::from("x"), 0, 100, 0),
        Err(MarketError::InvalidHours)
    );
    assert_eq!(
        market.post_job(1, 0, String::from("x"), 2, 0, 0),
        Err(MarketError::InvalidAmount)
    );
    assert_eq!(
        market.post_job(1, 0, String::from("x"), 2, -7, 0),
        Err(MarketError::InvalidAmount)
    );
    assert_eq!(market.get_next_job_id(), 0);
    assert!(market.get_consumer_jobs(1).is_empty());
}

#[test]
fn post_claim_complete_scenario() {
    // post(consumer=A, resource=0, hours=2, amount=1000) -> job 0, Open;
    // claim(provider=B) -> Claimed; complete(B, "hash123") -> Completed,
    // fee 50, payout 950, accumulated fees 50.
    let consumer_a: u64 = 1;
    let provider_b: u64 = 2;
    let mut market = initialized();

    let job_id = market.post_job(consumer_a, 0, String::from("render"), 2, 1000, 10).unwrap();
    assert_eq!(job_id, 0);
    let job = market.get_job(0).unwrap();
    assert_eq!(job.status, JobStatus::Open);
    assert_eq!(job.provider, consumer_a);
    assert_eq!(job.created_at, 10);
    assert_eq!(job.result_hash, String::new());

    market.claim_job(provider_b, 0, 20).unwrap();
    let job = market.get_job(0).unwrap();
    assert_eq!(job.status, JobStatus::Claimed);
    assert_eq!(job.provider, provider_b);
    assert_eq!(job.claimed_at, 20);

    let payout = market.complete_job(provider_b, 0, String::from("hash123"), 30).unwrap();
    assert_eq!(payout, 950);
    assert_eq!(market.get_platform_fees(), 50);
    let job = market.get_job(0).unwrap();
    assert_eq!(job.status, JobStatus::Completed);
    assert_eq!(job.completed_at, 30);
    assert_eq!(job.result_hash, String::from("hash123"));
    assert_eq!(job.payment_amount, 1000);
}

#[test]
fn cancel_open_job_refunds_full_amount() {
    // post(A, 0, hours=1, amount=200) -> job; cancel(A) immediately while
    // Open -> Cancelled, consumer refunded 200, fee accumulator unchanged.
    let consumer_a: u64 = 1;
    let mut market = initialized();
    market.post_job(consumer_a, 0, String::from("first"), 2, 1000, 0).unwrap();

    let job_id = market.post_job(consumer_a, 0, String::from("second"), 1, 200, 5).unwrap();
    assert_eq!(job_id, 1);
    let refund = market.cancel_job(consumer_a, 1, 5).unwrap();
    assert_eq!(refund, 200);
    assert_eq!(market.get_job(1).unwrap().status, JobStatus::Cancelled);
    assert_eq!(market.get_platform_fees(), 0);
}

#[test]
fn fee_plus_payout_equals_amount_with_floor_fee() {
    let mut market = initialized();
    // 99 is not divisible by 20: fee rounds down to 4, payout takes the rest.
    market.post_job(1, 0, String::from("a"), 1, 99, 0).unwrap();
    market.claim_job(2, 0, 0).unwrap();
    let payout = market.complete_job(2, 0, String::from("r"), 1).unwrap();
    assert_eq!(payout, 95);
    assert_eq!(market.get_platform_fees(), 4);
    assert_eq!(payout + market.get_platform_fees(), 99);

    // An amount so small the fee vanishes: the provider gets it all.
    market.post_job(1, 0, String::from("b"), 1, 1, 0).unwrap();
    market.claim_job(2, 1, 0).unwrap();
    let payout = market.complete_job(2, 1, String::from("r"), 1).unwrap();
    assert_eq!(payout, 1);
    assert_eq!(market.get_platform_fees(), 4);
}

#[test]
fn only_the_claiming_provider_may_complete() {
    let mut market = initialized();
    market.post_job(1, 0, String::from("job"), 1, 1000, 0).unwrap();
    market.claim_job(2, 0, 0).unwrap();

    let r = market.complete_job(3, 0, String::from("r"), 1);
    assert_eq!(r, Err(MarketError::WrongProvider));
    assert_eq!(market.get_job(0).unwrap().status, JobStatus::Claimed);
    assert_eq!(market.get_platform_fees(), 0);

    assert_eq!(market.complete_job(2, 0, String::from("r"), 1), Ok(950));
}

#[test]
fn complete_requires_a_claim_first() {
    let mut market = initialized();
    market.post_job(1, 0, String::from("job"), 1, 1000, 0).unwrap();
    assert_eq!(
        market.complete_job(2, 0, String::from("r"), 1),
        Err(MarketError::NotClaimed)
    );
    assert_eq!(market.complete_job(2, 9, String::from("r"), 1), Err(MarketError::NotFound));
}

#[test]
fn complete_twice_fails_with_not_claimed() {
    let mut market = initialized();
    market.post_job(1, 0, String::from("job"), 1, 1000, 0).unwrap();
    market.claim_job(2, 0, 0).unwrap();
    market.complete_job(2, 0, String::from("r"), 1).unwrap();

    let second = market.complete_job(2, 0, String::from("r"), 2);
    assert_eq!(second, Err(MarketError::NotClaimed));
    assert_eq!(market.get_platform_fees(), 50);
}

#[test]
fn claim_errors() {
    let mut market = initialized();
    market.post_job(1, 0, String::from("job"), 1, 1000, 0).unwrap();
    assert_eq!(market.claim_job(2, 5, 0), Err(MarketError::NotFound));
    market.claim_job(2, 0, 0).unwrap();
    assert_eq!(market.claim_job(3, 0, 1), Err(MarketError::NotOpen));
    assert_eq!(market.get_job(0).unwrap().provider, 2);
}

#[test]
fn cancel_claimed_job_respects_cooldown() {
    let claim_time: u64 = 1000;
    let mut market = initialized();
    market.post_job(1, 0, String::from("job"), 1, 500, 0).unwrap();
    market.claim_job(2, 0, claim_time).unwrap();

    // One unit before the cool-down ends: refused.
    let early = market.cancel_job(1, 0, claim_time + 86399);
    assert_eq!(early, Err(MarketError::TooEarly));
    assert_eq!(market.get_job(0).unwrap().status, JobStatus::Claimed);

    // Exactly at the cool-down: the full amount comes back, no fee.
    let refund = market.cancel_job(1, 0, claim_time + 86400).unwrap();
    assert_eq!(refund, 500);
    assert_eq!(market.get_job(0).unwrap().status, JobStatus::Cancelled);
    assert_eq!(market.get_platform_fees(), 0);
}

#[test]
fn cancel_errors() {
    let mut market = initialized();
    market.post_job(1, 0, String::from("job"), 1, 500, 0).unwrap();
    assert_eq!(market.cancel_job(1, 9, 0), Err(MarketError::NotFound));
    assert_eq!(market.cancel_job(2, 0, 0), Err(MarketError::WrongConsumer));

    market.cancel_job(1, 0, 0).unwrap();
    assert_eq!(market.cancel_job(1, 0, 1), Err(MarketError::TerminalState));

    market.post_job(1, 0, String::from("job2"), 1, 500, 0).unwrap();
    market.claim_job(2, 1, 0).unwrap();
    market.complete_job(2, 1, String::from("r"), 1).unwrap();
    assert_eq!(market.cancel_job(1, 1, 999999), Err(MarketError::TerminalState));
}

#[test]
fn indices_keep_posting_and_claim_order() {
    let mut market = initialized();
    market.post_job(1, 0, String::from("a"), 1, 10, 0).unwrap();
    market.post_job(2, 0, String::from("b"), 1, 10, 0).unwrap();
    market.post_job(1, 0, String::from("c"), 1, 10, 0).unwrap();

    assert_eq!(market.get_consumer_jobs(1), vec![0, 2]);
    assert_eq!(market.get_consumer_jobs(2), vec![1]);
    assert!(market.get_consumer_jobs(3).is_empty());

    // Claims in the opposite order of posting: the claimed index keeps
    // claim order, and survives terminal states.
    market.claim_job(7, 2, 0).unwrap();
    market.claim_job(7, 0, 0).unwrap();
    assert_eq!(market.get_provider_jobs(7), vec![2, 0]);

    market.complete_job(7, 2, String::from("r"), 1).unwrap();
    assert_eq!(market.get_provider_jobs(7), vec![2, 0]);
    assert!(market.get_provider_jobs(8).is_empty());
}

#[test]
fn next_job_id_counts_successful_posts() {
    let mut market = initialized();
    assert_eq!(market.get_next_job_id(), 0);
    let a = market.post_job(1, 0, String::from("a"), 1, 10, 0).unwrap();
    let b = market.post_job(1, 0, String::from("b"), 1, 10, 0).unwrap();
    assert!(a < b);
    assert_eq!(market.get_next_job_id(), 2);
    market.post_job(1, 0, String::from("c"), 0, 10, 0).unwrap_err();
    assert_eq!(market.get_next_job_id(), 2);
}

#[test]
fn get_job_not_found() {
    let market = JobMarketplace::new();
    assert!(matches!(market.get_job(0), Err(MarketError::NotFound)));
}

#[test]
fn largest_escrowable_amount_settles_exactly() {
    let mut market = initialized();
    market.post_job(1, 0, String::from("big"), 1, gpu_marketplace::MAX_PAYMENT, 0).unwrap();
    market.claim_job(2, 0, 0).unwrap();
    let payout = market.complete_job(2, 0, String::from("r"), 1).unwrap();
    let fee = market.get_platform_fees();
    assert_eq!(fee, gpu_marketplace::MAX_PAYMENT / 20);
    assert_eq!(payout + fee, gpu_marketplace::MAX_PAYMENT);
}

#[test]
fn fees_accumulate_across_completions() {
    let mut market = initialized();
    market.post_job(1, 0, String::from("a"), 1, 1000, 0).unwrap();
    market.post_job(1, 0, String::from("b"), 1, 400, 0).unwrap();
    market.claim_job(2, 0, 0).unwrap();
    market.claim_job(3, 1, 0).unwrap();

    market.complete_job(2, 0, String::from("r"), 1).unwrap();
    assert_eq!(market.get_platform_fees(), 50);
    market.complete_job(3, 1, String::from("r"), 1).unwrap();
    assert_eq!(market.get_platform_fees(), 70);
}
