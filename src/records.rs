use vstd::prelude::*;

use crate::types::Address;

verus! {

/// Lifecycle state of a subscription.
#[derive(Clone, Copy, Debug, PartialEq, Eq, Structural)]
pub enum SubscriptionState {
    Active,
    Retrying,
    Failed,
    Cancelled,
}

/// The stored record of one subscription.
#[derive(Clone, Copy, Debug)]
pub struct SubscriptionData {
    pub owner: Address,
    pub merchant: Address,
    pub amount: i128,
    pub frequency: u64,
    pub spending_cap: i128,
    /// Digest of (merchant, amount, frequency, spending_cap) taken at creation.
    pub integrity_hash: [u8; 32],
    pub state: SubscriptionState,
    pub failure_count: u32,
    pub last_attempt_ledger: u32,
}

/// A consumable, amount- and height-bounded authorization for one renewal.
#[derive(Clone, Copy, Debug, PartialEq, Eq, Structural)]
pub struct RenewalApproval {
    pub sub_id: u64,
    pub max_spend: i128,
    pub expires_at: u32,
    pub used: bool,
}

/// A held renewal lock: the height at which it was taken and for how many
/// heights it stays live.
#[derive(Clone, Copy, Debug, PartialEq, Eq, Structural)]
pub struct RenewalLockData {
    pub locked_at: u32,
    pub lock_timeout: u32,
}

/// Audit timestamps (epoch seconds) of a subscription's lifecycle.
#[derive(Clone, Copy, Debug, PartialEq, Eq, Structural)]
pub struct LifecycleTimestamps {
    pub created_at: u64,
    pub activated_at: u64,
    pub last_renewed_at: u64,
    pub canceled_at: u64,
}

/// Lifecycle event kinds carried by `LifecycleTimestampUpdated`.
pub const LIFECYCLE_CREATED: u32 = 1;
pub const LIFECYCLE_ACTIVATED: u32 = 2;
pub const LIFECYCLE_RENEWED: u32 = 3;
pub const LIFECYCLE_CANCELED: u32 = 4;

/// Reason codes carried by `ApprovalRejected`.
pub const REJECT_EXPIRED: u32 = 1;
pub const REJECT_USED: u32 = 2;
pub const REJECT_AMOUNT_EXCEEDED: u32 = 3;
pub const REJECT_NOT_FOUND: u32 = 4;

#[derive(Clone, Copy, Debug)]
pub struct RenewalSuccess {
    pub sub_id: u64,
    pub owner: Address,
}

#[derive(Clone, Copy, Debug, PartialEq, Eq, Structural)]
pub struct RenewalFailed {
    pub sub_id: u64,
    pub failure_count: u32,
    pub ledger: u32,
}

#[derive(Clone, Copy, Debug, PartialEq, Eq, Structural)]
pub struct StateTransition {
    pub sub_id: u64,
    pub new_state: SubscriptionState,
}

#[derive(Clone, Copy, Debug, PartialEq, Eq, Structural)]
pub struct PauseToggled {
    pub paused: bool,
}

#[derive(Clone, Copy, Debug, PartialEq, Eq, Structural)]
pub struct ApprovalCreated {
    pub sub_id: u64,
    pub approval_id: u64,
    pub max_spend: i128,
    pub expires_at: u32,
}

#[derive(Clone, Copy, Debug, PartialEq, Eq, Structural)]
pub struct ApprovalRejected {
    pub sub_id: u64,
    pub approval_id: u64,
    /// One of the `REJECT_*` codes.
    pub reason: u32,
}

#[derive(Clone, Copy, Debug, PartialEq, Eq, Structural)]
pub struct DuplicateRenewalRejected {
    pub sub_id: u64,
    pub cycle_id: u64,
}

#[derive(Clone, Copy, Debug, PartialEq, Eq, Structural)]
pub struct IntegrityViolation {
    pub sub_id: u64,
}

#[derive(Clone, Copy, Debug, PartialEq, Eq, Structural)]
pub struct RenewalLockAcquired {
    pub sub_id: u64,
    pub locked_at: u32,
    pub lock_timeout: u32,
}

#[derive(Clone, Copy, Debug, PartialEq, Eq, Structural)]
pub struct RenewalLockReleased {
    pub sub_id: u64,
    pub released_at: u32,
}

#[derive(Clone, Copy, Debug, PartialEq, Eq, Structural)]
pub struct RenewalLockExpired {
    pub sub_id: u64,
    pub original_locked_at: u32,
    pub expired_at: u32,
}

#[derive(Clone, Copy, Debug, PartialEq, Eq, Structural)]
pub struct LifecycleTimestampUpdated {
    pub sub_id: u64,
    /// One of the `LIFECYCLE_*` kinds.
    pub event_kind: u32,
    pub timestamp: u64,
}

/// Kinds of entries kept by the logging collaborator.
#[derive(Clone, Copy, Debug, PartialEq, Eq, Structural)]
pub enum LogEvent {
    Reminder,
    Approval,
    Renewal,
    Failure,
    Retry,
    Cancellation,
}

/// A request to the logging collaborator, queued only while one is configured.
#[derive(Clone, Copy, Debug)]
pub struct LogRequest {
    pub sub_id: u64,
    pub event: LogEvent,
    pub text: &'static str,
}

/// Texts of the log requests the renewal contract queues.
pub const LOG_INITIALIZED: &'static str = "Subscription initialized";
pub const LOG_RENEWED: &'static str = "Renewal successful";
pub const LOG_RETRIES_EXHAUSTED: &'static str = "Renewal failed - max retries exceeded";
pub const LOG_RETRY_SCHEDULED: &'static str = "Renewal failed - scheduled for retry";
pub const LOG_CANCELLED: &'static str = "Subscription cancelled";

/// An event published by the renewal contract.
#[derive(Clone, Copy, Debug)]
pub enum ContractEvent {
    RenewalSuccess(RenewalSuccess),
    RenewalFailed(RenewalFailed),
    StateTransition(StateTransition),
    PauseToggled(PauseToggled),
    ApprovalCreated(ApprovalCreated),
    ApprovalRejected(ApprovalRejected),
    RenewalLockAcquired(RenewalLockAcquired),
    RenewalLockReleased(RenewalLockReleased),
    RenewalLockExpired(RenewalLockExpired),
    LifecycleTimestampUpdated(LifecycleTimestampUpdated),
    Log(LogRequest),
}

} // verus!
