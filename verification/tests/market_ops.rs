use oyster_market::job::{ErrorCodes, Job, Payment};
use oyster_market::lock::LockWaitTime;
use oyster_market::market::{
    initialize, job_close, job_deposit, job_open, job_revise_rate, job_settle, job_withdraw,
    provider_add, provider_remove, provider_update_with_cp, update_token, Market, Provider,
};

const UNIT: u64 = 1_000_000_000_000;
const TOKEN: u64 = 5;
const ADMIN: u64 = 1;
const OWNER: u64 = 7;
const PROVIDER: u64 = 9;

fn test_market(notice_period: u64) -> Market {
    Market { admin: ADMIN, token_mint: TOKEN, credit_mint: 0, job_index: 0, notice_period }
}

#[test]
fn initialize_sets_market_and_wait_time() {
    let mut wait = LockWaitTime { wait_time: 0 };
    let market = initialize(ADMIN, TOKEN, 30, &mut wait, 120);
    assert_eq!(market.admin, ADMIN);
    assert_eq!(market.token_mint, TOKEN);
    assert_eq!(market.credit_mint, 0);
    assert_eq!(market.job_index, 0);
    assert_eq!(market.notice_period, 30);
    assert_eq!(wait.wait_time, 120);
}

#[test]
fn update_token_requires_admin() {
    let mut market = test_market(0);
    assert_eq!(update_token(&mut market, OWNER, 6), Err(ErrorCodes::Unauthorized));
    assert_eq!(market.token_mint, TOKEN);
    assert_eq!(update_token(&mut market, ADMIN, 6), Ok(()));
    assert_eq!(market.token_mint, 6);
}

#[test]
fn provider_lifecycle() {
    let mut provider = Provider { cp: String::new(), owner: 0 };
    assert_eq!(
        provider_add(&mut provider, PROVIDER, String::new()),
        Err(ErrorCodes::InvalidControlPlaneUrl)
    );
    assert_eq!(provider_add(&mut provider, PROVIDER, String::from("https://cp.example")), Ok(()));
    assert_eq!(provider.owner, PROVIDER);
    assert_eq!(
        provider_add(&mut provider, PROVIDER, String::from("other")),
        Err(ErrorCodes::ProviderAlreadyExists)
    );
    assert_eq!(
        provider_update_with_cp(&mut provider, String::new()),
        Err(ErrorCodes::InvalidControlPlaneUrl)
    );
    assert_eq!(provider_update_with_cp(&mut provider, String::from("https://cp2.example")), Ok(()));
    assert_eq!(provider.cp, "https://cp2.example");
    assert_eq!(provider_remove(&provider, OWNER), Err(ErrorCodes::Unauthorized));
    assert_eq!(provider_remove(&provider, PROVIDER), Ok(()));
}

#[test]
fn provider_update_unregistered_fails() {
    let mut provider = Provider { cp: String::new(), owner: 0 };
    assert_eq!(
        provider_update_with_cp(&mut provider, String::from("https://cp.example")),
        Err(ErrorCodes::ProviderNotFound)
    );
}

#[test]
fn end_to_end_open_settle_close() {
    // Open with 1000 escrowed at 1 unit per time-unit and no credits,
    // advance 100 time-units, settle, then close and refund the rest.
    let mut market = test_market(0);
    let (mut job, deposit, notice) =
        job_open(&mut market, String::from("job-meta"), OWNER, PROVIDER, UNIT, 1000, 0, 0, 0)
            .unwrap();
    assert_eq!(market.job_index, 1);
    assert_eq!(job.index, 0);
    assert_eq!(job.balance, 1000);
    assert_eq!(job.last_settled, 0);
    assert_eq!(deposit, Payment { credit_amount: 0, token_amount: 1000 });
    assert_eq!(notice, Payment { credit_amount: 0, token_amount: 0 });

    let (funded, paid) = job_settle(&mut job, &market, TOKEN, 100, 0).unwrap();
    assert!(funded);
    assert_eq!(paid, Payment { credit_amount: 0, token_amount: 100 });
    assert_eq!(job.balance, 900);
    assert_eq!(job.last_settled, 100);

    let (final_settle, refund) = job_close(&mut job, OWNER, &market, TOKEN, 100, 0).unwrap();
    assert_eq!(final_settle, Payment { credit_amount: 0, token_amount: 0 });
    assert_eq!(refund, Payment { credit_amount: 0, token_amount: 900 });
    assert_eq!(job.balance, 0);
    assert_eq!(job.credit_balance, 0);
}

#[test]
fn open_rejects_zero_rate() {
    let mut market = test_market(0);
    let r = job_open(&mut market, String::from("m"), OWNER, PROVIDER, 0, 1000, 0, 0, 0);
    assert!(matches!(r, Err(ErrorCodes::InvalidRate)));
    assert_eq!(market.job_index, 0);
}

#[test]
fn open_rejects_underfunded_notice_window() {
    // A 10 time-unit notice at 1 unit per time-unit needs 10 escrowed.
    let mut market = test_market(10);
    let r = job_open(&mut market, String::from("m"), OWNER, PROVIDER, UNIT, 5, 0, 0, 0);
    assert!(matches!(r, Err(ErrorCodes::InsufficientFundsToReviseRate)));
    assert_eq!(market.job_index, 0);
}

#[test]
fn open_prepays_notice_window() {
    let mut market = test_market(10);
    let (job, _, notice) =
        job_open(&mut market, String::from("m"), OWNER, PROVIDER, UNIT, 1000, 50, 0, 0).unwrap();
    assert_eq!(notice, Payment { credit_amount: 0, token_amount: 10 });
    assert_eq!(job.last_settled, 60);
    assert_eq!(job.balance, 990);
}

#[test]
fn open_with_credits_splits_deposit() {
    let mut market = test_market(0);
    let credit_mint: u64 = 3;
    let (job, deposit, _) = job_open(
        &mut market,
        String::from("m"),
        OWNER,
        PROVIDER,
        UNIT,
        1000,
        0,
        credit_mint,
        400,
    )
    .unwrap();
    assert_eq!(deposit, Payment { credit_amount: 400, token_amount: 600 });
    assert_eq!(job.balance, 1000);
    assert_eq!(job.credit_balance, 400);
}

#[test]
fn settle_rejects_wrong_mint() {
    let market = test_market(0);
    let mut job = Job {
        index: 0,
        metadata: String::from("m"),
        owner: OWNER,
        provider: PROVIDER,
        rate: UNIT,
        balance: 1000,
        credit_balance: 0,
        last_settled: 0,
    };
    let r = job_settle(&mut job, &market, TOKEN + 1, 100, 0);
    assert_eq!(r, Err(ErrorCodes::InvalidMint));
    assert_eq!(job.balance, 1000);
    assert_eq!(job.last_settled, 0);
}

#[test]
fn deposit_pre_settles_then_adds() {
    let mut market = test_market(0);
    let (mut job, _, _) =
        job_open(&mut market, String::from("m"), OWNER, PROVIDER, UNIT, 100, 0, 0, 0).unwrap();
    // 20 time-units pass: the deposit first flushes 20 owed, then adds 50.
    let (settle, deposit) = job_deposit(&mut job, &market, TOKEN, 50, 20, 0, 0).unwrap();
    assert_eq!(settle, Payment { credit_amount: 0, token_amount: 20 });
    assert_eq!(deposit, Payment { credit_amount: 0, token_amount: 50 });
    assert_eq!(job.balance, 130);
    assert_eq!(job.last_settled, 20);
}

#[test]
fn deposit_validation_errors() {
    let market = test_market(0);
    let mut missing = Job {
        index: 0,
        metadata: String::from("m"),
        owner: 0,
        provider: PROVIDER,
        rate: UNIT,
        balance: 0,
        credit_balance: 0,
        last_settled: 0,
    };
    assert_eq!(
        job_deposit(&mut missing, &market, TOKEN, 50, 0, 0, 0),
        Err(ErrorCodes::JobNotFound)
    );
    let mut job = Job { owner: OWNER, ..missing };
    assert_eq!(
        job_deposit(&mut job, &market, TOKEN + 1, 50, 0, 0, 0),
        Err(ErrorCodes::InvalidMint)
    );
    assert_eq!(job_deposit(&mut job, &market, TOKEN, 0, 0, 0, 0), Err(ErrorCodes::InvalidAmount));
}

#[test]
fn deposit_rejects_underfunded_flush() {
    // 100 time-units owed on a 5-unit balance: the deposit is rejected
    // before any mutation.
    let market = test_market(0);
    let mut job = Job {
        index: 0,
        metadata: String::from("m"),
        owner: OWNER,
        provider: PROVIDER,
        rate: UNIT,
        balance: 5,
        credit_balance: 0,
        last_settled: 0,
    };
    let r = job_deposit(&mut job, &market, TOKEN, 50, 100, 0, 0);
    assert_eq!(r, Err(ErrorCodes::InsufficientFundsToReviseRate));
    assert_eq!(job.balance, 5);
    assert_eq!(job.last_settled, 0);
}

#[test]
fn withdraw_pre_settles_then_pays_out() {
    let mut market = test_market(0);
    let (mut job, _, _) =
        job_open(&mut market, String::from("m"), OWNER, PROVIDER, UNIT, 100, 0, 0, 0).unwrap();
    let (settle, payout) = job_withdraw(&mut job, OWNER, &market, TOKEN, 30, 20, 0).unwrap();
    assert_eq!(settle, Payment { credit_amount: 0, token_amount: 20 });
    assert_eq!(payout, Payment { credit_amount: 0, token_amount: 30 });
    assert_eq!(job.balance, 50);
}

#[test]
fn withdraw_requires_owner() {
    let mut market = test_market(0);
    let (mut job, _, _) =
        job_open(&mut market, String::from("m"), OWNER, PROVIDER, UNIT, 100, 0, 0, 0).unwrap();
    let r = job_withdraw(&mut job, PROVIDER, &market, TOKEN, 30, 0, 0);
    assert_eq!(r, Err(ErrorCodes::Unauthorized));
    assert_eq!(job.balance, 100);
}

#[test]
fn withdraw_exceeding_settled_balance_rejected() {
    let mut market = test_market(0);
    let (mut job, _, _) =
        job_open(&mut market, String::from("m"), OWNER, PROVIDER, UNIT, 100, 0, 0, 0).unwrap();
    // After flushing 20 owed, only 80 remain.
    let r = job_withdraw(&mut job, OWNER, &market, TOKEN, 81, 20, 0);
    assert_eq!(r, Err(ErrorCodes::InsufficientBalance));
    assert_eq!(job.balance, 100);
    assert_eq!(job.last_settled, 0);
}

#[test]
fn close_requires_owner() {
    let mut market = test_market(0);
    let (mut job, _, _) =
        job_open(&mut market, String::from("m"), OWNER, PROVIDER, UNIT, 100, 0, 0, 0).unwrap();
    let r = job_close(&mut job, PROVIDER, &market, TOKEN, 0, 0);
    assert_eq!(r, Err(ErrorCodes::Unauthorized));
    assert_eq!(job.balance, 100);
}

#[test]
fn close_with_shortfall_pays_out_remainder() {
    // The final settlement owes more than the escrow holds: the provider
    // receives the whole remainder and the owner gets no refund.
    let mut market = test_market(0);
    let (mut job, _, _) =
        job_open(&mut market, String::from("m"), OWNER, PROVIDER, UNIT, 100, 0, 0, 0).unwrap();
    let (settle, refund) = job_close(&mut job, OWNER, &market, TOKEN, 500, 0).unwrap();
    assert_eq!(settle, Payment { credit_amount: 0, token_amount: 100 });
    assert_eq!(refund, Payment { credit_amount: 0, token_amount: 0 });
    assert_eq!(job.balance, 0);
}

#[test]
fn revise_rate_entry_point_uses_market_notice() {
    let mut market = test_market(10);
    let (mut job, _, _) =
        job_open(&mut market, String::from("m"), OWNER, PROVIDER, UNIT, 1000, 0, 0, 0).unwrap();
    assert_eq!(job.last_settled, 10);
    let (_, notice) = job_revise_rate(&mut job, &market, 2 * UNIT, 10, 0).unwrap();
    // Window [10, 20) billed at the raised rate of 2 per time-unit.
    assert_eq!(notice, Payment { credit_amount: 0, token_amount: 20 });
    assert_eq!(job.rate, 2 * UNIT);
    assert_eq!(job.last_settled, 20);
}
