use subscription_renewal::records::SubscriptionState;
use subscription_renewal::renewal::{RenewalError, SubscriptionRenewalContract};
use subscription_renewal::types::{Address, Env};

fn addr(b: u8) -> Address {
    Address::from_key([b; 32])
}

fn user() -> Address {
    addr(3)
}

/// Creates a contract initialized with an admin, and an invocation signed by
/// the admin and by the test user.
fn setup() -> (Env, SubscriptionRenewalContract, Address) {
    let admin = addr(1);
    let mut env = Env::new(0, 0);
    env.authorize(admin);
    env.authorize(user());
    let mut client = SubscriptionRenewalContract::new();
    client.init(&env, admin).unwrap();
    (env, client, admin)
}

fn init_sub(env: &Env, client: &mut SubscriptionRenewalContract, owner: Address, sub_id: u64) {
    client.init_sub(env, owner, addr(2), 500, 86400, 1000, sub_id);
}

// ── Pause ──────────────────────────────────────────────────────────

#[test]
fn test_default_not_paused() {
    let (_env, client, _admin) = setup();
    assert!(!client.is_paused());
}

#[test]
fn test_admin_can_pause() {
    let (env, mut client, _admin) = setup();
    client.set_paused(&env, true).unwrap();
    assert!(client.is_paused());
}

#[test]
fn test_admin_can_unpause() {
    let (env, mut client, _admin) = setup();
    client.set_paused(&env, true).unwrap();
    assert!(client.is_paused());
    client.set_paused(&env, false).unwrap();
    assert!(!client.is_paused());
}

#[test]
fn test_renew_blocked_when_paused() {
    let (env, mut client, _admin) = setup();
    let sub_id = 100;
    init_sub(&env, &mut client, user(), sub_id);
    client.approve_renewal(&env, sub_id, 1, 1000, 100).unwrap();
    client.acquire_renewal_lock(&env, sub_id, 200).unwrap();
    client.set_paused(&env, true).unwrap();
    let r = client.renew(&env, sub_id, 1, 500, 3, 10, 20260101, true);
    assert_eq!(r, Err(RenewalError::Paused));
}

#[test]
fn test_renew_works_after_unpause() {
    let (env, mut client, _admin) = setup();
    let sub_id = 101;
    init_sub(&env, &mut client, user(), sub_id);
    client.approve_renewal(&env, sub_id, 1, 1000, 100).unwrap();
    client.set_paused(&env, true).unwrap();
    client.set_paused(&env, false).unwrap();
    client.acquire_renewal_lock(&env, sub_id, 200).unwrap();
    let result = client.renew(&env, sub_id, 1, 500, 3, 10, 20260101, true);
    assert_eq!(result, Ok(true));
}

#[test]
fn test_cannot_init_twice() {
    let (env, mut client, _admin) = setup();
    let another = addr(9);
    assert_eq!(client.init(&env, another), Err(RenewalError::AlreadyInitialized));
}

// ── Renewal and retries ────────────────────────────────────────────

#[test]
fn test_renewal_success() {
    let (env, mut client, _admin) = setup();
    let sub_id = 123;
    init_sub(&env, &mut client, user(), sub_id);
    client.approve_renewal(&env, sub_id, 1, 1000, 100).unwrap();
    client.acquire_renewal_lock(&env, sub_id, 200).unwrap();
    let result = client.renew(&env, sub_id, 1, 500, 3, 10, 20260115, true);
    assert_eq!(result, Ok(true));
    let data = client.get_sub(sub_id).unwrap();
    assert_eq!(data.state, SubscriptionState::Active);
    assert_eq!(data.failure_count, 0);
}

#[test]
fn test_retry_logic() {
    let (mut env, mut client, _admin) = setup();
    let sub_id = 456;
    let max_retries = 2;
    let cooldown = 10;
    init_sub(&env, &mut client, user(), sub_id);

    client.approve_renewal(&env, sub_id, 1, 1000, 200).unwrap();
    client.acquire_renewal_lock(&env, sub_id, 200).unwrap();
    let result = client.renew(&env, sub_id, 1, 500, max_retries, cooldown, 20260201, false);
    assert_eq!(result, Ok(false));
    let data = client.get_sub(sub_id).unwrap();
    assert_eq!(data.state, SubscriptionState::Retrying);
    assert_eq!(data.failure_count, 1);

    env.sequence = 100;
    client.approve_renewal(&env, sub_id, 2, 1000, 200).unwrap();
    client.acquire_renewal_lock(&env, sub_id, 200).unwrap();
    client.renew(&env, sub_id, 2, 500, max_retries, cooldown, 20260201, false).unwrap();

    env.sequence = 120;
    client.approve_renewal(&env, sub_id, 3, 1000, 200).unwrap();
    client.acquire_renewal_lock(&env, sub_id, 200).unwrap();
    client.renew(&env, sub_id, 3, 500, max_retries, cooldown, 20260201, false).unwrap();

    let data = client.get_sub(sub_id).unwrap();
    assert_eq!(data.state, SubscriptionState::Failed);
    assert_eq!(data.failure_count, 3);
}

#[test]
fn test_cooldown_enforcement() {
    let (env, mut client, _admin) = setup();
    let sub_id = 789;
    init_sub(&env, &mut client, user(), sub_id);

    client.approve_renewal(&env, sub_id, 1, 1000, 100).unwrap();
    client.acquire_renewal_lock(&env, sub_id, 200).unwrap();
    client.renew(&env, sub_id, 1, 500, 3, 10, 20260301, false).unwrap();

    client.approve_renewal(&env, sub_id, 2, 1000, 100).unwrap();
    client.acquire_renewal_lock(&env, sub_id, 200).unwrap();
    let r = client.renew(&env, sub_id, 2, 500, 3, 10, 20260301, false);
    assert_eq!(r, Err(RenewalError::CooldownActive));
}

#[test]
fn test_event_emission_on_success() {
    let (env, mut client, _admin) = setup();
    let sub_id = 999;
    init_sub(&env, &mut client, user(), sub_id);
    client.approve_renewal(&env, sub_id, 1, 1000, 100).unwrap();
    client.acquire_renewal_lock(&env, sub_id, 200).unwrap();
    let result = client.renew(&env, sub_id, 1, 500, 3, 10, 20260315, true);
    assert_eq!(result, Ok(true));
    let data = client.get_sub(sub_id).unwrap();
    assert_eq!(data.state, SubscriptionState::Active);
    assert_eq!(data.failure_count, 0);
}

#[test]
fn test_zero_max_retries() {
    let (env, mut client, _admin) = setup();
    let sub_id = 111;
    let max_retries = 0;
    init_sub(&env, &mut client, user(), sub_id);
    client.approve_renewal(&env, sub_id, 1, 1000, 100).unwrap();
    client.acquire_renewal_lock(&env, sub_id, 200).unwrap();
    let result = client.renew(&env, sub_id, 1, 500, max_retries, 10, 20260401, false);
    assert_eq!(result, Ok(false));
    let data = client.get_sub(sub_id).unwrap();
    assert_eq!(data.state, SubscriptionState::Failed);
    assert_eq!(data.failure_count, 1);
}

#[test]
fn test_multiple_failures_then_success() {
    let (mut env, mut client, _admin) = setup();
    let sub_id = 222;
    let max_retries = 3;
    let cooldown = 10;
    init_sub(&env, &mut client, user(), sub_id);

    client.approve_renewal(&env, sub_id, 1, 1000, 200).unwrap();
    client.acquire_renewal_lock(&env, sub_id, 200).unwrap();
    client.renew(&env, sub_id, 1, 500, max_retries, cooldown, 20260501, false).unwrap();
    let data = client.get_sub(sub_id).unwrap();
    assert_eq!(data.state, SubscriptionState::Retrying);
    assert_eq!(data.failure_count, 1);

    env.sequence = 20;
    client.approve_renewal(&env, sub_id, 2, 1000, 200).unwrap();
    client.acquire_renewal_lock(&env, sub_id, 200).unwrap();
    client.renew(&env, sub_id, 2, 500, max_retries, cooldown, 20260501, false).unwrap();
    let data = client.get_sub(sub_id).unwrap();
    assert_eq!(data.state, SubscriptionState::Retrying);
    assert_eq!(data.failure_count, 2);

    env.sequence = 40;
    client.approve_renewal(&env, sub_id, 3, 1000, 200).unwrap();
    client.acquire_renewal_lock(&env, sub_id, 200).unwrap();
    let result = client.renew(&env, sub_id, 3, 500, max_retries, cooldown, 20260501, true);
    assert_eq!(result, Ok(true));
    let data = client.get_sub(sub_id).unwrap();
    assert_eq!(data.state, SubscriptionState::Active);
    assert_eq!(data.failure_count, 0);
}

#[test]
fn test_cannot_renew_failed_subscription() {
    let (mut env, mut client, _admin) = setup();
    let sub_id = 333;
    let max_retries = 1;
    let cooldown = 10;
    init_sub(&env, &mut client, user(), sub_id);

    client.approve_renewal(&env, sub_id, 1, 1000, 200).unwrap();
    client.acquire_renewal_lock(&env, sub_id, 200).unwrap();
    client.renew(&env, sub_id, 1, 500, max_retries, cooldown, 20260601, false).unwrap();

    env.sequence = 20;
    client.approve_renewal(&env, sub_id, 2, 1000, 200).unwrap();
    client.acquire_renewal_lock(&env, sub_id, 200).unwrap();
    client.renew(&env, sub_id, 2, 500, max_retries, cooldown, 20260601, false).unwrap();
    let data = client.get_sub(sub_id).unwrap();
    assert_eq!(data.state, SubscriptionState::Failed);

    env.sequence = 40;
    client.approve_renewal(&env, sub_id, 3, 1000, 200).unwrap();
    client.acquire_renewal_lock(&env, sub_id, 200).unwrap();
    let r = client.renew(&env, sub_id, 3, 500, max_retries, cooldown, 20260701, true);
    assert_eq!(r, Err(RenewalError::SubscriptionFailed));
}

// ── Approvals ──────────────────────────────────────────────────────

#[test]
fn test_approval_required_for_renewal() {
    let (env, mut client, _admin) = setup();
    let sub_id = 500;
    let approval_id = 1;
    init_sub(&env, &mut client, user(), sub_id);
    client.approve_renewal(&env, sub_id, approval_id, 1000, 100).unwrap();
    client.acquire_renewal_lock(&env, sub_id, 200).unwrap();
    let result = client.renew(&env, sub_id, approval_id, 500, 3, 10, 20260801, true);
    assert_eq!(result, Ok(true));
}

#[test]
fn test_renewal_without_approval_fails() {
    let (env, mut client, _admin) = setup();
    let sub_id = 501;
    init_sub(&env, &mut client, user(), sub_id);
    client.acquire_renewal_lock(&env, sub_id, 200).unwrap();
    let r = client.renew(&env, sub_id, 999, 500, 3, 10, 20260901, true);
    assert!(matches!(r, Err(RenewalError::InvalidApproval(rej)) if rej.reason == 4));
}

#[test]
fn test_approval_cannot_be_reused() {
    let (mut env, mut client, _admin) = setup();
    let sub_id = 502;
    let approval_id = 2;
    init_sub(&env, &mut client, user(), sub_id);
    client.approve_renewal(&env, sub_id, approval_id, 1000, 100).unwrap();

    client.acquire_renewal_lock(&env, sub_id, 200).unwrap();
    client.renew(&env, sub_id, approval_id, 500, 3, 10, 20261001, true).unwrap();

    env.sequence = 20;
    client.acquire_renewal_lock(&env, sub_id, 200).unwrap();
    let r = client.renew(&env, sub_id, approval_id, 500, 3, 10, 20261101, true);
    assert!(matches!(r, Err(RenewalError::InvalidApproval(rej)) if rej.reason == 2));
}

#[test]
fn test_expired_approval_rejected() {
    let (mut env, mut client, _admin) = setup();
    let sub_id = 503;
    let approval_id = 3;
    init_sub(&env, &mut client, user(), sub_id);
    client.approve_renewal(&env, sub_id, approval_id, 1000, 50).unwrap();
    env.sequence = 51;
    client.acquire_renewal_lock(&env, sub_id, 200).unwrap();
    let r = client.renew(&env, sub_id, approval_id, 500, 3, 10, 20261201, true);
    assert!(matches!(r, Err(RenewalError::InvalidApproval(rej)) if rej.reason == 1));
}

#[test]
fn test_amount_exceeds_max_spend() {
    let (env, mut client, _admin) = setup();
    let sub_id = 504;
    let approval_id = 4;
    init_sub(&env, &mut client, user(), sub_id);
    client.approve_renewal(&env, sub_id, approval_id, 1000, 100).unwrap();
    client.acquire_renewal_lock(&env, sub_id, 200).unwrap();
    let r = client.renew(&env, sub_id, approval_id, 1500, 3, 10, 20270101, true);
    assert!(matches!(r, Err(RenewalError::InvalidApproval(rej)) if rej.reason == 3));
}

#[test]
fn test_multiple_approvals_for_same_subscription() {
    let (mut env, mut client, _admin) = setup();
    let sub_id = 505;
    init_sub(&env, &mut client, user(), sub_id);
    client.approve_renewal(&env, sub_id, 1, 1000, 100).unwrap();
    client.approve_renewal(&env, sub_id, 2, 2000, 200).unwrap();

    client.acquire_renewal_lock(&env, sub_id, 200).unwrap();
    client.renew(&env, sub_id, 1, 500, 3, 10, 20270201, true).unwrap();

    env.sequence = 20;
    client.acquire_renewal_lock(&env, sub_id, 200).unwrap();
    let result = client.renew(&env, sub_id, 2, 1500, 3, 10, 20270301, true);
    assert_eq!(result, Ok(true));
}

// ── Cycle guard ────────────────────────────────────────────────────

#[test]
fn test_duplicate_cycle_rejected_after_success() {
    let (env, mut client, _admin) = setup();
    let sub_id = 600;
    let cycle_id = 20260315;
    init_sub(&env, &mut client, user(), sub_id);

    client.approve_renewal(&env, sub_id, 1, 1000, 100).unwrap();
    client.acquire_renewal_lock(&env, sub_id, 200).unwrap();
    let result = client.renew(&env, sub_id, 1, 500, 3, 10, cycle_id, true);
    assert_eq!(result, Ok(true));

    client.approve_renewal(&env, sub_id, 2, 1000, 100).unwrap();
    client.acquire_renewal_lock(&env, sub_id, 200).unwrap();
    let r = client.renew(&env, sub_id, 2, 500, 3, 10, cycle_id, true);
    assert!(matches!(r, Err(RenewalError::DuplicateCycle(d)) if d.sub_id == sub_id && d.cycle_id == cycle_id));
}

#[test]
fn test_retry_same_cycle_allowed_after_failure() {
    let (mut env, mut client, _admin) = setup();
    let sub_id = 601;
    let cycle_id = 20260315;
    init_sub(&env, &mut client, user(), sub_id);

    client.approve_renewal(&env, sub_id, 1, 1000, 200).unwrap();
    client.acquire_renewal_lock(&env, sub_id, 200).unwrap();
    let result = client.renew(&env, sub_id, 1, 500, 3, 10, cycle_id, false);
    assert_eq!(result, Ok(false));

    env.sequence = 20;
    client.approve_renewal(&env, sub_id, 2, 1000, 200).unwrap();
    client.acquire_renewal_lock(&env, sub_id, 200).unwrap();
    let result = client.renew(&env, sub_id, 2, 500, 3, 10, cycle_id, true);
    assert_eq!(result, Ok(true));
}

#[test]
fn test_different_cycle_allowed_after_success() {
    let (env, mut client, _admin) = setup();
    let sub_id = 602;
    init_sub(&env, &mut client, user(), sub_id);

    client.approve_renewal(&env, sub_id, 1, 1000, 100).unwrap();
    client.acquire_renewal_lock(&env, sub_id, 200).unwrap();
    let result = client.renew(&env, sub_id, 1, 500, 3, 10, 20260315, true);
    assert_eq!(result, Ok(true));

    client.approve_renewal(&env, sub_id, 2, 1000, 100).unwrap();
    client.acquire_renewal_lock(&env, sub_id, 200).unwrap();
    let result = client.renew(&env, sub_id, 2, 500, 3, 10, 20260415, true);
    assert_eq!(result, Ok(true));
}

#[test]
fn test_first_renewal_always_allowed() {
    let (env, mut client, _admin) = setup();
    let sub_id = 603;
    init_sub(&env, &mut client, user(), sub_id);
    client.approve_renewal(&env, sub_id, 1, 1000, 100).unwrap();
    client.acquire_renewal_lock(&env, sub_id, 200).unwrap();
    let result = client.renew(&env, sub_id, 1, 500, 3, 10, 20260101, true);
    assert_eq!(result, Ok(true));
    let data = client.get_sub(sub_id).unwrap();
    assert_eq!(data.state, SubscriptionState::Active);
}

// ── Cancellation ───────────────────────────────────────────────────

#[test]
fn test_cancel_sub() {
    let (env, mut client, _admin) = setup();
    let sub_id = 600;
    init_sub(&env, &mut client, user(), sub_id);
    client.cancel_sub(&env, sub_id).unwrap();
    let data = client.get_sub(sub_id).unwrap();
    assert_eq!(data.state, SubscriptionState::Cancelled);
}

#[test]
fn test_cannot_cancel_twice() {
    let (env, mut client, _admin) = setup();
    let sub_id = 601;
    init_sub(&env, &mut client, user(), sub_id);
    client.cancel_sub(&env, sub_id).unwrap();
    assert_eq!(client.cancel_sub(&env, sub_id), Err(RenewalError::AlreadyCancelled));
}

#[test]
fn test_cancel_non_existent_sub() {
    let (env, mut client, _admin) = setup();
    assert_eq!(client.cancel_sub(&env, 999), Err(RenewalError::SubscriptionNotFound));
}

// ── Renewal lock ───────────────────────────────────────────────────

#[test]
fn test_acquire_renewal_lock() {
    let (env, mut client, _admin) = setup();
    let sub_id = 700;
    client.acquire_renewal_lock(&env, sub_id, 200).unwrap();
    let lock = client.get_renewal_lock(sub_id);
    assert!(lock.is_some());
    let lock_data = lock.unwrap();
    assert_eq!(lock_data.locked_at, 0);
    assert_eq!(lock_data.lock_timeout, 200);
}

#[test]
fn test_lock_prevents_concurrent_acquisition() {
    let (env, mut client, _admin) = setup();
    let sub_id = 701;
    client.acquire_renewal_lock(&env, sub_id, 200).unwrap();
    assert_eq!(client.acquire_renewal_lock(&env, sub_id, 200), Err(RenewalError::LockActive));
}

#[test]
fn test_lock_auto_expires_and_reacquirable() {
    let (mut env, mut client, _admin) = setup();
    let sub_id = 702;
    client.acquire_renewal_lock(&env, sub_id, 50).unwrap();
    env.sequence = 60;
    client.acquire_renewal_lock(&env, sub_id, 200).unwrap();
    let lock = client.get_renewal_lock(sub_id);
    assert!(lock.is_some());
    let lock_data = lock.unwrap();
    assert_eq!(lock_data.locked_at, 60);
    assert_eq!(lock_data.lock_timeout, 200);
}

#[test]
fn test_release_renewal_lock() {
    let (env, mut client, _admin) = setup();
    let sub_id = 703;
    client.acquire_renewal_lock(&env, sub_id, 200).unwrap();
    assert!(client.get_renewal_lock(sub_id).is_some());
    client.release_renewal_lock(&env, sub_id).unwrap();
    assert!(client.get_renewal_lock(sub_id).is_none());
}

#[test]
fn test_release_nonexistent_lock_panics() {
    let (env, mut client, _admin) = setup();
    let sub_id = 704;
    assert_eq!(client.release_renewal_lock(&env, sub_id), Err(RenewalError::NoLockToRelease));
}

#[test]
fn test_renew_without_lock_panics() {
    let (env, mut client, _admin) = setup();
    let sub_id = 705;
    init_sub(&env, &mut client, user(), sub_id);
    client.approve_renewal(&env, sub_id, 1, 1000, 100).unwrap();
    let r = client.renew(&env, sub_id, 1, 500, 3, 10, 20260101, true);
    assert_eq!(r, Err(RenewalError::LockRequired));
}

#[test]
fn test_renew_with_lock_succeeds_and_auto_releases() {
    let (env, mut client, _admin) = setup();
    let sub_id = 706;
    init_sub(&env, &mut client, user(), sub_id);
    client.approve_renewal(&env, sub_id, 1, 1000, 100).unwrap();
    client.acquire_renewal_lock(&env, sub_id, 200).unwrap();
    assert!(client.get_renewal_lock(sub_id).is_some());
    let result = client.renew(&env, sub_id, 1, 500, 3, 10, 20260101, true);
    assert_eq!(result, Ok(true));
    assert!(client.get_renewal_lock(sub_id).is_none());
}

#[test]
fn test_renew_failure_also_releases_lock() {
    let (env, mut client, _admin) = setup();
    let sub_id = 707;
    init_sub(&env, &mut client, user(), sub_id);
    client.approve_renewal(&env, sub_id, 1, 1000, 200).unwrap();
    client.acquire_renewal_lock(&env, sub_id, 200).unwrap();
    assert!(client.get_renewal_lock(sub_id).is_some());
    let result = client.renew(&env, sub_id, 1, 500, 3, 10, 20260101, false);
    assert_eq!(result, Ok(false));
    assert!(client.get_renewal_lock(sub_id).is_none());
}

#[test]
fn test_renew_with_expired_lock_panics() {
    let (mut env, mut client, _admin) = setup();
    let sub_id = 708;
    init_sub(&env, &mut client, user(), sub_id);
    client.approve_renewal(&env, sub_id, 1, 1000, 200).unwrap();
    client.acquire_renewal_lock(&env, sub_id, 50).unwrap();
    env.sequence = 60;
    let r = client.renew(&env, sub_id, 1, 500, 3, 10, 20260101, true);
    assert_eq!(r, Err(RenewalError::LockExpired));
}

#[test]
fn test_acquire_lock_blocked_when_paused() {
    let (env, mut client, _admin) = setup();
    let sub_id = 709;
    client.set_paused(&env, true).unwrap();
    assert_eq!(client.acquire_renewal_lock(&env, sub_id, 200), Err(RenewalError::Paused));
}
