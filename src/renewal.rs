use std::collections::HashMap;

use vstd::prelude::*;

use crate::digest::{integrity_digest, terms_digest};
use crate::records::{
    ApprovalCreated, ApprovalRejected, ContractEvent, DuplicateRenewalRejected, IntegrityViolation,
    LifecycleTimestampUpdated, LifecycleTimestamps, LogEvent, LogRequest, PauseToggled,
    LOG_CANCELLED, LOG_INITIALIZED, LOG_RENEWED, LOG_RETRIES_EXHAUSTED, LOG_RETRY_SCHEDULED,
    RenewalApproval, RenewalFailed, RenewalLockAcquired, RenewalLockData, RenewalLockExpired,
    RenewalLockReleased, RenewalSuccess, StateTransition, SubscriptionData, SubscriptionState,
    LIFECYCLE_ACTIVATED, LIFECYCLE_CANCELED, LIFECYCLE_CREATED, LIFECYCLE_RENEWED,
    REJECT_AMOUNT_EXCEEDED, REJECT_EXPIRED, REJECT_NOT_FOUND, REJECT_USED,
};
use crate::types::{bytes32_equal, Address, Env};

verus! {

/// The contract's singleton configuration.
#[derive(Clone, Copy, Debug)]
pub struct ContractConfig {
    pub admin: Address,
    pub paused: bool,
    /// Reserved for a settlement component; renewal never reads it.
    pub fee_percentage: u32,
    /// Reserved for a settlement component; renewal never reads it.
    pub fee_recipient: Option<Address>,
    pub logging_contract: Option<Address>,
}

/// Why an invocation of the renewal contract was aborted. An aborted
/// invocation leaves the contract exactly as it found it.
#[derive(Clone, Copy, Debug, PartialEq, Eq, Structural)]
pub enum RenewalError {
    AlreadyInitialized,
    NotInitialized,
    Unauthorized,
    Paused,
    SubscriptionNotFound,
    SubscriptionFailed,
    SubscriptionCancelled,
    AlreadyCancelled,
    LifecycleNotFound,
    LockActive,
    LockRequired,
    LockExpired,
    NoLockToRelease,
    CooldownActive,
    DuplicateCycle(DuplicateRenewalRejected),
    InvalidApproval(ApprovalRejected),
    IntegrityViolation(IntegrityViolation),
}

/// The renewal contract's persistent storage and published events. The
/// fields are the host's key-value store: whoever holds storage access can
/// write them directly, which is what the integrity digest guards against.
pub struct SubscriptionRenewalContract {
    pub config: Option<ContractConfig>,
    pub subscriptions: HashMap<u64, SubscriptionData>,
    pub lifecycles: HashMap<u64, LifecycleTimestamps>,
    /// Approvals by subscription id, then by approval id.
    pub approvals: HashMap<u64, HashMap<u64, RenewalApproval>>,
    /// Cycle id of the last successful renewal, by subscription id.
    pub cycles: HashMap<u64, u64>,
    pub locks: HashMap<u64, RenewalLockData>,
    pub events: Vec<ContractEvent>,
}

/// The abstract state of the renewal contract.
pub struct ContractView {
    pub config: Option<ContractConfig>,
    pub subscriptions: Map<u64, SubscriptionData>,
    pub lifecycles: Map<u64, LifecycleTimestamps>,
    pub approvals: Map<(u64, u64), RenewalApproval>,
    pub cycles: Map<u64, u64>,
    pub locks: Map<u64, RenewalLockData>,
    pub events: Seq<ContractEvent>,
}

/// Approvals keyed by `(subscription id, approval id)`.
pub open spec fn nested_view(m: Map<u64, HashMap<u64, RenewalApproval>>) -> Map<(u64, u64), RenewalApproval> {
    Map::new(
        |k: (u64, u64)| m.contains_key(k.0) && m[k.0]@.contains_key(k.1),
        |k: (u64, u64)| m[k.0]@[k.1],
    )
}

impl View for SubscriptionRenewalContract {
    type V = ContractView;

    open spec fn view(&self) -> ContractView {
        ContractView {
            config: self.config,
            subscriptions: self.subscriptions@,
            lifecycles: self.lifecycles@,
            approvals: nested_view(self.approvals@),
            cycles: self.cycles@,
            locks: self.locks@,
            events: self.events@,
        }
    }
}

impl ContractView {
    /// The pause flag; an uninitialized contract is not paused.
    pub open spec fn paused(self) -> bool {
        match self.config {
            Some(c) => c.paused,
            None => false,
        }
    }
}

/// A lock is live while the height is below `locked_at + lock_timeout`.
pub open spec fn lock_is_live(lock: RenewalLockData, height: u32) -> bool {
    (height as int) < lock.locked_at as int + lock.lock_timeout as int
}

/// The outcome of `acquire_renewal_lock` on a state.
pub open spec fn acquire_error(v: ContractView, height: u32, sub_id: u64) -> Option<RenewalError> {
    if v.paused() {
        Some(RenewalError::Paused)
    } else if v.locks.contains_key(sub_id) && lock_is_live(v.locks[sub_id], height) {
        Some(RenewalError::LockActive)
    } else {
        None
    }
}

/// The events `acquire_renewal_lock` publishes when it succeeds.
pub open spec fn acquire_events(v: ContractView, height: u32, sub_id: u64, lock_timeout: u32) -> Seq<ContractEvent> {
    let acquired = ContractEvent::RenewalLockAcquired(
        RenewalLockAcquired { sub_id, locked_at: height, lock_timeout },
    );
    if v.locks.contains_key(sub_id) {
        seq![
            ContractEvent::RenewalLockExpired(
                RenewalLockExpired {
                    sub_id,
                    original_locked_at: v.locks[sub_id].locked_at,
                    expired_at: height,
                },
            ),
            acquired,
        ]
    } else {
        seq![acquired]
    }
}

/// The state after a successful `acquire_renewal_lock`.
pub open spec fn acquired_view(v: ContractView, height: u32, sub_id: u64, lock_timeout: u32) -> ContractView {
    ContractView {
        locks: v.locks.insert(sub_id, RenewalLockData { locked_at: height, lock_timeout }),
        events: v.events + acquire_events(v, height, sub_id, lock_timeout),
        ..v
    }
}

impl SubscriptionRenewalContract {
    /// A contract with empty storage, not yet initialized.
    pub fn new() -> (r: SubscriptionRenewalContract)
        ensures
            r@.config.is_none(),
            r@.subscriptions.is_empty(),
            r@.lifecycles.is_empty(),
            r@.approvals.is_empty(),
            r@.cycles.is_empty(),
            r@.locks.is_empty(),
            r@.events.len() == 0,
    {
        let r = SubscriptionRenewalContract {
            config: None,
            subscriptions: HashMap::new(),
            lifecycles: HashMap::new(),
            approvals: HashMap::new(),
            cycles: HashMap::new(),
            locks: HashMap::new(),
            events: Vec::new(),
        };
        assert(r@.approvals =~= Map::empty());
        r
    }

    /// Stores the admin; fails when the contract already has one.
    pub fn init(&mut self, env: &Env, admin: Address) -> (r: Result<(), RenewalError>)
        ensures
            old(self)@.config.is_some() ==> r == Err::<(), RenewalError>(RenewalError::AlreadyInitialized)
                && final(self)@ == old(self)@,
            old(self)@.config.is_none() ==> r is Ok && final(self)@ == (ContractView {
                config: Some(
                    ContractConfig {
                        admin,
                        paused: false,
                        fee_percentage: 0,
                        fee_recipient: None,
                        logging_contract: None,
                    },
                ),
                ..old(self)@
            }),
    {
        if self.config.is_some() {
            return Err(RenewalError::AlreadyInitialized);
        }
        self.config = Some(
            ContractConfig {
                admin,
                paused: false,
                fee_percentage: 0,
                fee_recipient: None,
                logging_contract: None,
            },
        );
        Ok(())
    }

    /// Checks that the invocation is signed by the stored admin.
    pub fn require_admin(&self, env: &Env) -> (r: Result<ContractConfig, RenewalError>)
        ensures
            match self@.config {
                None => r == Err::<ContractConfig, RenewalError>(RenewalError::NotInitialized),
                Some(c) => if env.authorizes(c.admin) {
                    r == Ok::<ContractConfig, RenewalError>(c)
                } else {
                    r == Err::<ContractConfig, RenewalError>(RenewalError::Unauthorized)
                },
            },
    {
        match self.config {
            None => Err(RenewalError::NotInitialized),
            Some(c) => {
                if env.require_auth(&c.admin) {
                    Ok(c)
                } else {
                    Err(RenewalError::Unauthorized)
                }
            },
        }
    }

    /// Pauses or resumes renewal execution. Admin only.
    pub fn set_paused(&mut self, env: &Env, paused: bool) -> (r: Result<(), RenewalError>)
        ensures
            match old(self)@.config {
                None => r == Err::<(), RenewalError>(RenewalError::NotInitialized) && final(self)@
                    == old(self)@,
                Some(c) => if env.authorizes(c.admin) {
                    r is Ok && final(self)@ == (ContractView {
                        config: Some(ContractConfig { paused, ..c }),
                        events: old(self)@.events.push(
                            ContractEvent::PauseToggled(PauseToggled { paused }),
                        ),
                        ..old(self)@
                    })
                } else {
                    r == Err::<(), RenewalError>(RenewalError::Unauthorized) && final(self)@
                        == old(self)@
                },
            },
    {
        let c = self.require_admin(env)?;
        self.config = Some(ContractConfig { paused, ..c });
        self.events.push(ContractEvent::PauseToggled(PauseToggled { paused }));
        Ok(())
    }

    /// Whether renewal execution is paused; false before initialization.
    pub fn is_paused(&self) -> (r: bool)
        ensures
            r == self@.paused(),
    {
        match self.config {
            Some(c) => c.paused,
            None => false,
        }
    }

    /// Sets the address of the logging collaborator. Admin only.
    pub fn set_logging_contract(&mut self, env: &Env, address: Address) -> (r: Result<
        (),
        RenewalError,
    >)
        ensures
            match old(self)@.config {
                None => r == Err::<(), RenewalError>(RenewalError::NotInitialized) && final(self)@
                    == old(self)@,
                Some(c) => if env.authorizes(c.admin) {
                    r is Ok && final(self)@ == (ContractView {
                        config: Some(ContractConfig { logging_contract: Some(address), ..c }),
                        ..old(self)@
                    })
                } else {
                    r == Err::<(), RenewalError>(RenewalError::Unauthorized) && final(self)@
                        == old(self)@
                },
            },
    {
        let c = self.require_admin(env)?;
        self.config = Some(ContractConfig { logging_contract: Some(address), ..c });
        Ok(())
    }

    /// Takes the renewal lock of `sub_id` at the current height. Fails while
    /// the protocol is paused or another lock on the id is still live; an
    /// expired lock is replaced.
    pub fn acquire_renewal_lock(&mut self, env: &Env, sub_id: u64, lock_timeout: u32) -> (r: Result<
        (),
        RenewalError,
    >)
        ensures
            match acquire_error(old(self)@, env.sequence, sub_id) {
                Some(e) => r == Err::<(), RenewalError>(e) && final(self)@ == old(self)@,
                None => r is Ok && final(self)@ == acquired_view(
                    old(self)@,
                    env.sequence,
                    sub_id,
                    lock_timeout,
                ),
            },
    {
        if self.is_paused() {
            return Err(RenewalError::Paused);
        }
        let current = env.sequence;
        match self.locks.get(&sub_id) {
            Some(existing) => {
                let existing = *existing;
                if (current as u64) < existing.locked_at as u64 + existing.lock_timeout as u64 {
                    return Err(RenewalError::LockActive);
                }
                self.events.push(
                    ContractEvent::RenewalLockExpired(
                        RenewalLockExpired {
                            sub_id,
                            original_locked_at: existing.locked_at,
                            expired_at: current,
                        },
                    ),
                );
            },
            None => {},
        }
        self.locks.insert(sub_id, RenewalLockData { locked_at: current, lock_timeout });
        self.events.push(
            ContractEvent::RenewalLockAcquired(
                RenewalLockAcquired { sub_id, locked_at: current, lock_timeout },
            ),
        );
        assert(self@.events =~= old(self)@.events + acquire_events(
            old(self)@,
            env.sequence,
            sub_id,
            lock_timeout,
        ));
        Ok(())
    }

    /// Releases the renewal lock of `sub_id`; fails when none is held.
    pub fn release_renewal_lock(&mut self, env: &Env, sub_id: u64) -> (r: Result<(), RenewalError>)
        ensures
            !old(self)@.locks.contains_key(sub_id) ==> r == Err::<(), RenewalError>(
                RenewalError::NoLockToRelease,
            ) && final(self)@ == old(self)@,
            old(self)@.locks.contains_key(sub_id) ==> r is Ok && final(self)@ == (ContractView {
                locks: old(self)@.locks.remove(sub_id),
                events: old(self)@.events.push(
                    ContractEvent::RenewalLockReleased(
                        RenewalLockReleased { sub_id, released_at: env.sequence },
                    ),
                ),
                ..old(self)@
            }),
    {
        if !self.locks.contains_key(&sub_id) {
            return Err(RenewalError::NoLockToRelease);
        }
        self.locks.remove(&sub_id);
        self.events.push(
            ContractEvent::RenewalLockReleased(
                RenewalLockReleased { sub_id, released_at: env.sequence },
            ),
        );
        Ok(())
    }

    /// The renewal lock of `sub_id`, if one is stored (live or expired).
    pub fn get_renewal_lock(&self, sub_id: u64) -> (r: Option<RenewalLockData>)
        ensures
            r == (if self@.locks.contains_key(sub_id) {
                Some(self@.locks[sub_id])
            } else {
                None
            }),
    {
        match self.locks.get(&sub_id) {
            Some(l) => Some(*l),
            None => None,
        }
    }
}

/// The requests queued for the logging collaborator: one while a logging
/// address is configured, none otherwise.
pub open spec fn log_events(v: ContractView, sub_id: u64, event: LogEvent, text: &'static str) -> Seq<
    ContractEvent,
> {
    match v.config {
        Some(c) => match c.logging_contract {
            Some(_) => seq![ContractEvent::Log(LogRequest { sub_id, event, text })],
            None => Seq::empty(),
        },
        None => Seq::empty(),
    }
}

pub open spec fn lifecycle_event(sub_id: u64, event_kind: u32, timestamp: u64) -> ContractEvent {
    ContractEvent::LifecycleTimestampUpdated(LifecycleTimestampUpdated { sub_id, event_kind, timestamp })
}

/// The record that `init_sub` stores for the given terms.
pub open spec fn is_fresh_record(
    d: SubscriptionData,
    owner: Address,
    merchant: Address,
    amount: i128,
    frequency: u64,
    spending_cap: i128,
) -> bool {
    &&& d.owner == owner
    &&& d.merchant == merchant
    &&& d.amount == amount
    &&& d.frequency == frequency
    &&& d.spending_cap == spending_cap
    &&& d.integrity_hash@ == terms_digest(merchant, amount, frequency, spending_cap)
    &&& d.state == SubscriptionState::Active
    &&& d.failure_count == 0
    &&& d.last_attempt_ledger == 0
}

/// The stored digest still matches the record's current terms.
pub open spec fn digest_intact(d: SubscriptionData) -> bool {
    d.integrity_hash@ == terms_digest(d.merchant, d.amount, d.frequency, d.spending_cap)
}

/// Why consuming approval `approval_id` of `sub_id` for `amount` at `height`
/// is refused (a `REJECT_*` code), or `None` when it is accepted.
pub open spec fn approval_verdict(
    approvals: Map<(u64, u64), RenewalApproval>,
    height: u32,
    sub_id: u64,
    approval_id: u64,
    amount: i128,
) -> Option<u32> {
    if !approvals.contains_key((sub_id, approval_id)) {
        Some(REJECT_NOT_FOUND)
    } else if approvals[(sub_id, approval_id)].used {
        Some(REJECT_USED)
    } else if height > approvals[(sub_id, approval_id)].expires_at {
        Some(REJECT_EXPIRED)
    } else if amount > approvals[(sub_id, approval_id)].max_spend {
        Some(REJECT_AMOUNT_EXCEEDED)
    } else {
        None
    }
}

/// The approvals after `(sub_id, approval_id)` has been consumed.
pub open spec fn consumed(approvals: Map<(u64, u64), RenewalApproval>, sub_id: u64, approval_id: u64) -> Map<
    (u64, u64),
    RenewalApproval,
> {
    approvals.insert(
        (sub_id, approval_id),
        RenewalApproval { used: true, ..approvals[(sub_id, approval_id)] },
    )
}

/// A failed attempt is still cooling down.
pub open spec fn cooldown_pending(d: SubscriptionData, height: u32, cooldown_ledgers: u32) -> bool {
    d.failure_count > 0 && (height as int) < d.last_attempt_ledger as int + cooldown_ledgers as int
}

/// The first precondition of `renew` that fails, in the order they are
/// checked, or `None` when the renewal goes ahead.
pub open spec fn renew_error(
    v: ContractView,
    height: u32,
    sub_id: u64,
    approval_id: u64,
    amount: i128,
    cooldown_ledgers: u32,
    cycle_id: u64,
    succeed: bool,
) -> Option<RenewalError> {
    let d = v.subscriptions[sub_id];
    if v.paused() {
        Some(RenewalError::Paused)
    } else if !v.subscriptions.contains_key(sub_id) {
        Some(RenewalError::SubscriptionNotFound)
    } else if d.state == SubscriptionState::Failed {
        Some(RenewalError::SubscriptionFailed)
    } else if d.state == SubscriptionState::Cancelled {
        Some(RenewalError::SubscriptionCancelled)
    } else if !v.locks.contains_key(sub_id) {
        Some(RenewalError::LockRequired)
    } else if !lock_is_live(v.locks[sub_id], height) {
        Some(RenewalError::LockExpired)
    } else if v.cycles.contains_key(sub_id) && v.cycles[sub_id] == cycle_id {
        Some(RenewalError::DuplicateCycle(DuplicateRenewalRejected { sub_id, cycle_id }))
    } else if cooldown_pending(d, height, cooldown_ledgers) {
        Some(RenewalError::CooldownActive)
    } else if approval_verdict(v.approvals, height, sub_id, approval_id, amount) is Some {
        Some(
            RenewalError::InvalidApproval(
                ApprovalRejected {
                    sub_id,
                    approval_id,
                    reason: approval_verdict(v.approvals, height, sub_id, approval_id, amount)->0,
                },
            ),
        )
    } else if !digest_intact(d) {
        Some(RenewalError::IntegrityViolation(IntegrityViolation { sub_id }))
    } else if succeed && !v.lifecycles.contains_key(sub_id) {
        Some(RenewalError::LifecycleNotFound)
    } else {
        None
    }
}

/// The failure count after one more failed attempt, saturating at `u32::MAX`.
pub open spec fn next_failure_count(d: SubscriptionData) -> u32 {
    if d.failure_count == u32::MAX {
        u32::MAX
    } else {
        (d.failure_count + 1) as u32
    }
}

/// The record after an attempt at `height`. A success resets the failures; a
/// failure counts one more and moves to `Failed` once the count exceeds
/// `max_retries`, to `Retrying` before that.
pub open spec fn attempt_record(d: SubscriptionData, height: u32, max_retries: u32, succeed: bool) -> SubscriptionData {
    if succeed {
        SubscriptionData {
            state: SubscriptionState::Active,
            failure_count: 0,
            last_attempt_ledger: height,
            ..d
        }
    } else {
        SubscriptionData {
            state: if d.failure_count + 1 > max_retries {
                SubscriptionState::Failed
            } else {
                SubscriptionState::Retrying
            },
            failure_count: next_failure_count(d),
            last_attempt_ledger: height,
            ..d
        }
    }
}

/// The lifecycle timestamps after a successful renewal at `now`.
pub open spec fn renewed_lifecycle(lc: LifecycleTimestamps, previous: SubscriptionState, now: u64) -> LifecycleTimestamps {
    LifecycleTimestamps {
        last_renewed_at: now,
        activated_at: if previous == SubscriptionState::Retrying {
            now
        } else {
            lc.activated_at
        },
        ..lc
    }
}

/// The events of a successful renewal.
pub open spec fn success_events(v: ContractView, env_sequence: u32, now: u64, sub_id: u64) -> Seq<ContractEvent> {
    let d = v.subscriptions[sub_id];
    let recovering = d.state == SubscriptionState::Retrying;
    seq![ContractEvent::RenewalSuccess(RenewalSuccess { sub_id, owner: d.owner })] + (if recovering {
        seq![
            ContractEvent::StateTransition(
                StateTransition { sub_id, new_state: SubscriptionState::Active },
            ),
        ]
    } else {
        Seq::empty()
    }) + seq![lifecycle_event(sub_id, LIFECYCLE_RENEWED, now)] + (if recovering {
        seq![lifecycle_event(sub_id, LIFECYCLE_ACTIVATED, now)]
    } else {
        Seq::empty()
    }) + seq![
        ContractEvent::RenewalLockReleased(RenewalLockReleased { sub_id, released_at: env_sequence }),
    ] + log_events(v, sub_id, LogEvent::Renewal, LOG_RENEWED)
}

/// The events of a failed attempt.
pub open spec fn failure_events(v: ContractView, env_sequence: u32, sub_id: u64, max_retries: u32) -> Seq<
    ContractEvent,
> {
    let d2 = attempt_record(v.subscriptions[sub_id], env_sequence, max_retries, false);
    seq![
        ContractEvent::RenewalFailed(
            RenewalFailed { sub_id, failure_count: d2.failure_count, ledger: env_sequence },
        ),
        ContractEvent::StateTransition(StateTransition { sub_id, new_state: d2.state }),
    ] + (if d2.state == SubscriptionState::Failed {
        log_events(v, sub_id, LogEvent::Failure, LOG_RETRIES_EXHAUSTED)
    } else {
        log_events(v, sub_id, LogEvent::Retry, LOG_RETRY_SCHEDULED)
    }) + seq![
        ContractEvent::RenewalLockReleased(RenewalLockReleased { sub_id, released_at: env_sequence }),
    ]
}

/// The state after a renewal attempt that passed every precondition.
pub open spec fn renewed_view(
    v: ContractView,
    env_sequence: u32,
    now: u64,
    sub_id: u64,
    approval_id: u64,
    max_retries: u32,
    cycle_id: u64,
    succeed: bool,
) -> ContractView {
    let d = v.subscriptions[sub_id];
    ContractView {
        subscriptions: v.subscriptions.insert(
            sub_id,
            attempt_record(d, env_sequence, max_retries, succeed),
        ),
        approvals: consumed(v.approvals, sub_id, approval_id),
        cycles: if succeed {
            v.cycles.insert(sub_id, cycle_id)
        } else {
            v.cycles
        },
        lifecycles: if succeed {
            v.lifecycles.insert(sub_id, renewed_lifecycle(v.lifecycles[sub_id], d.state, now))
        } else {
            v.lifecycles
        },
        locks: v.locks.remove(sub_id),
        events: v.events + if succeed {
            success_events(v, env_sequence, now, sub_id)
        } else {
            failure_events(v, env_sequence, sub_id, max_retries)
        },
        ..v
    }
}

impl SubscriptionRenewalContract {
    /// Queues a request for the logging collaborator when one is configured.
    fn record_log(&mut self, sub_id: u64, event: LogEvent, text: &'static str)
        ensures
            final(self)@ == (ContractView {
                events: old(self)@.events + log_events(old(self)@, sub_id, event, text),
                ..old(self)@
            }),
    {
        let configured = match &self.config {
            Some(c) => c.logging_contract.is_some(),
            None => false,
        };
        if configured {
            self.events.push(ContractEvent::Log(LogRequest { sub_id, event, text }));
        }
        assert(self@.events =~= old(self)@.events + log_events(old(self)@, sub_id, event, text));
    }

    fn find_approval(&self, sub_id: u64, approval_id: u64) -> (r: Option<RenewalApproval>)
        ensures
            r == (if self@.approvals.contains_key((sub_id, approval_id)) {
                Some(self@.approvals[(sub_id, approval_id)])
            } else {
                None
            }),
    {
        match self.approvals.get(&sub_id) {
            Some(inner) => match inner.get(&approval_id) {
                Some(a) => Some(*a),
                None => None,
            },
            None => None,
        }
    }

    fn store_approval(&mut self, sub_id: u64, approval_id: u64, approval: RenewalApproval)
        ensures
            final(self)@ == (ContractView {
                approvals: old(self)@.approvals.insert((sub_id, approval_id), approval),
                ..old(self)@
            }),
    {
        let mut inner = match self.approvals.remove(&sub_id) {
            Some(m) => m,
            None => HashMap::new(),
        };
        inner.insert(approval_id, approval);
        self.approvals.insert(sub_id, inner);
        assert(self@.approvals =~= old(self)@.approvals.insert((sub_id, approval_id), approval));
    }

    fn approval_rejection(&self, env: &Env, sub_id: u64, approval_id: u64, amount: i128) -> (r: Option<u32>)
        ensures
            r == approval_verdict(self@.approvals, env.sequence, sub_id, approval_id, amount),
    {
        match self.find_approval(sub_id, approval_id) {
            None => Some(REJECT_NOT_FOUND),
            Some(a) => {
                if a.used {
                    Some(REJECT_USED)
                } else if env.sequence > a.expires_at {
                    Some(REJECT_EXPIRED)
                } else if amount > a.max_spend {
                    Some(REJECT_AMOUNT_EXCEEDED)
                } else {
                    None
                }
            },
        }
    }

    /// Creates a subscription with the given terms, in state `Active`, and
    /// stores the digest of its terms. Any earlier record under `sub_id` is
    /// replaced.
    pub fn init_sub(
        &mut self,
        env: &Env,
        owner: Address,
        merchant: Address,
        amount: i128,
        frequency: u64,
        spending_cap: i128,
        sub_id: u64,
    )
        ensures
            final(self)@.subscriptions.contains_key(sub_id),
            is_fresh_record(
                final(self)@.subscriptions[sub_id],
                owner,
                merchant,
                amount,
                frequency,
                spending_cap,
            ),
            final(self)@ == (ContractView {
                subscriptions: old(self)@.subscriptions.insert(
                    sub_id,
                    final(self)@.subscriptions[sub_id],
                ),
                lifecycles: old(self)@.lifecycles.insert(
                    sub_id,
                    LifecycleTimestamps {
                        created_at: env.timestamp,
                        activated_at: env.timestamp,
                        last_renewed_at: 0,
                        canceled_at: 0,
                    },
                ),
                events: old(self)@.events + seq![
                    lifecycle_event(sub_id, LIFECYCLE_CREATED, env.timestamp),
                    lifecycle_event(sub_id, LIFECYCLE_ACTIVATED, env.timestamp),
                ] + log_events(old(self)@, sub_id, LogEvent::Renewal, LOG_INITIALIZED),
                ..old(self)@
            }),
    {
        let integrity_hash = integrity_digest(&merchant, amount, frequency, spending_cap);
        let data = SubscriptionData {
            owner,
            merchant,
            amount,
            frequency,
            spending_cap,
            integrity_hash,
            state: SubscriptionState::Active,
            failure_count: 0,
            last_attempt_ledger: 0,
        };
        self.subscriptions.insert(sub_id, data);
        let now = env.timestamp;
        self.lifecycles.insert(
            sub_id,
            LifecycleTimestamps {
                created_at: now,
                activated_at: now,
                last_renewed_at: 0,
                canceled_at: 0,
            },
        );
        self.events.push(
            ContractEvent::LifecycleTimestampUpdated(
                LifecycleTimestampUpdated { sub_id, event_kind: LIFECYCLE_CREATED, timestamp: now },
            ),
        );
        self.events.push(
            ContractEvent::LifecycleTimestampUpdated(
                LifecycleTimestampUpdated { sub_id, event_kind: LIFECYCLE_ACTIVATED, timestamp: now },
            ),
        );
        self.record_log(sub_id, LogEvent::Renewal, LOG_INITIALIZED);
        assert(self@.events =~= old(self)@.events + seq![
            lifecycle_event(sub_id, LIFECYCLE_CREATED, env.timestamp),
            lifecycle_event(sub_id, LIFECYCLE_ACTIVATED, env.timestamp),
        ] + log_events(old(self)@, sub_id, LogEvent::Renewal, LOG_INITIALIZED));
    }
}

impl SubscriptionRenewalContract {
    /// Attempts one renewal of `sub_id` for `amount`, with the payment's
    /// outcome given by `succeed`. Every precondition is checked before any
    /// write: on an error nothing changes. Otherwise the approval is consumed,
    /// the record takes the outcome, the cycle marker moves on success only,
    /// and the lock is released on both paths. Returns `succeed`.
    pub fn renew(
        &mut self,
        env: &Env,
        sub_id: u64,
        approval_id: u64,
        amount: i128,
        max_retries: u32,
        cooldown_ledgers: u32,
        cycle_id: u64,
        succeed: bool,
    ) -> (r: Result<bool, RenewalError>)
        ensures
            match renew_error(
                old(self)@,
                env.sequence,
                sub_id,
                approval_id,
                amount,
                cooldown_ledgers,
                cycle_id,
                succeed,
            ) {
                Some(e) => r == Err::<bool, RenewalError>(e) && final(self)@ == old(self)@,
                None => r == Ok::<bool, RenewalError>(succeed) && final(self)@ == renewed_view(
                    old(self)@,
                    env.sequence,
                    env.timestamp,
                    sub_id,
                    approval_id,
                    max_retries,
                    cycle_id,
                    succeed,
                ),
            },
    {
        if self.is_paused() {
            return Err(RenewalError::Paused);
        }
        let current = env.sequence;
        let data = match self.subscriptions.get(&sub_id) {
            Some(d) => *d,
            None => return Err(RenewalError::SubscriptionNotFound),
        };
        if data.state == SubscriptionState::Failed {
            return Err(RenewalError::SubscriptionFailed);
        }
        if data.state == SubscriptionState::Cancelled {
            return Err(RenewalError::SubscriptionCancelled);
        }
        match self.locks.get(&sub_id) {
            None => return Err(RenewalError::LockRequired),
            Some(lock) => {
                if current as u64 >= lock.locked_at as u64 + lock.lock_timeout as u64 {
                    return Err(RenewalError::LockExpired);
                }
            },
        }
        match self.cycles.get(&sub_id) {
            Some(last) => {
                if *last == cycle_id {
                    return Err(
                        RenewalError::DuplicateCycle(DuplicateRenewalRejected { sub_id, cycle_id }),
                    );
                }
            },
            None => {},
        }
        if data.failure_count > 0 && (current as u64) < data.last_attempt_ledger as u64
            + cooldown_ledgers as u64 {
            return Err(RenewalError::CooldownActive);
        }
        let approval = match self.approval_rejection(env, sub_id, approval_id, amount) {
            Some(reason) => {
                return Err(
                    RenewalError::InvalidApproval(ApprovalRejected { sub_id, approval_id, reason }),
                );
            },
            None => self.find_approval(sub_id, approval_id).unwrap(),
        };
        let current_hash = integrity_digest(
            &data.merchant,
            data.amount,
            data.frequency,
            data.spending_cap,
        );
        if !bytes32_equal(&current_hash, &data.integrity_hash) {
            return Err(RenewalError::IntegrityViolation(IntegrityViolation { sub_id }));
        }
        let lifecycle = if succeed {
            match self.lifecycles.get(&sub_id) {
                Some(lc) => Some(*lc),
                None => return Err(RenewalError::LifecycleNotFound),
            }
        } else {
            None
        };

        // Every precondition holds: from here on the attempt is committed.
        self.store_approval(sub_id, approval_id, RenewalApproval { used: true, ..approval });
        if succeed {
            let previous_state = data.state;
            let mut updated = data;
            updated.state = SubscriptionState::Active;
            updated.failure_count = 0;
            updated.last_attempt_ledger = current;
            self.subscriptions.insert(sub_id, updated);
            self.cycles.insert(sub_id, cycle_id);
            self.events.push(
                ContractEvent::RenewalSuccess(RenewalSuccess { sub_id, owner: data.owner }),
            );
            let recovering = previous_state == SubscriptionState::Retrying;
            if recovering {
                self.events.push(
                    ContractEvent::StateTransition(
                        StateTransition { sub_id, new_state: SubscriptionState::Active },
                    ),
                );
            }
            let now = env.timestamp;
            let mut lc = lifecycle.unwrap();
            lc.last_renewed_at = now;
            self.events.push(
                ContractEvent::LifecycleTimestampUpdated(
                    LifecycleTimestampUpdated { sub_id, event_kind: LIFECYCLE_RENEWED, timestamp: now },
                ),
            );
            if recovering {
                lc.activated_at = now;
                self.events.push(
                    ContractEvent::LifecycleTimestampUpdated(
                        LifecycleTimestampUpdated {
                            sub_id,
                            event_kind: LIFECYCLE_ACTIVATED,
                            timestamp: now,
                        },
                    ),
                );
            }
            self.lifecycles.insert(sub_id, lc);
            self.locks.remove(&sub_id);
            self.events.push(
                ContractEvent::RenewalLockReleased(
                    RenewalLockReleased { sub_id, released_at: current },
                ),
            );
            self.record_log(sub_id, LogEvent::Renewal, LOG_RENEWED);
            assert(self@.events =~= old(self)@.events + success_events(
                old(self)@,
                env.sequence,
                env.timestamp,
                sub_id,
            ));
            assert(self@.subscriptions =~= old(self)@.subscriptions.insert(
                sub_id,
                attempt_record(data, current, max_retries, succeed),
            ));
            Ok(true)
        } else {
            let mut updated = data;
            let failed_for_good = data.failure_count as u64 + 1 > max_retries as u64;
            updated.failure_count = if data.failure_count == u32::MAX {
                u32::MAX
            } else {
                data.failure_count + 1
            };
            updated.last_attempt_ledger = current;
            self.events.push(
                ContractEvent::RenewalFailed(
                    RenewalFailed { sub_id, failure_count: updated.failure_count, ledger: current },
                ),
            );
            if failed_for_good {
                updated.state = SubscriptionState::Failed;
                self.events.push(
                    ContractEvent::StateTransition(
                        StateTransition { sub_id, new_state: SubscriptionState::Failed },
                    ),
                );
                self.record_log(sub_id, LogEvent::Failure, LOG_RETRIES_EXHAUSTED);
            } else {
                updated.state = SubscriptionState::Retrying;
                self.events.push(
                    ContractEvent::StateTransition(
                        StateTransition { sub_id, new_state: SubscriptionState::Retrying },
                    ),
                );
                self.record_log(sub_id, LogEvent::Retry, LOG_RETRY_SCHEDULED);
            }
            self.subscriptions.insert(sub_id, updated);
            self.locks.remove(&sub_id);
            self.events.push(
                ContractEvent::RenewalLockReleased(
                    RenewalLockReleased { sub_id, released_at: current },
                ),
            );
            assert(self@.events =~= old(self)@.events + failure_events(
                old(self)@,
                env.sequence,
                sub_id,
                max_retries,
            ));
            assert(self@.subscriptions =~= old(self)@.subscriptions.insert(
                sub_id,
                attempt_record(data, current, max_retries, succeed),
            ));
            Ok(false)
        }
    }
}

impl SubscriptionRenewalContract {
    /// Records an approval for one renewal of `sub_id`, spending at most
    /// `max_spend` up to height `expires_at`. Only the subscription's owner
    /// may approve; an approval under the same ids is replaced.
    pub fn approve_renewal(
        &mut self,
        env: &Env,
        sub_id: u64,
        approval_id: u64,
        max_spend: i128,
        expires_at: u32,
    ) -> (r: Result<(), RenewalError>)
        ensures
            !old(self)@.subscriptions.contains_key(sub_id) ==> r == Err::<(), RenewalError>(
                RenewalError::SubscriptionNotFound,
            ) && final(self)@ == old(self)@,
            old(self)@.subscriptions.contains_key(sub_id) && !env.authorizes(
                old(self)@.subscriptions[sub_id].owner,
            ) ==> r == Err::<(), RenewalError>(RenewalError::Unauthorized) && final(self)@ == old(
                self,
            )@,
            old(self)@.subscriptions.contains_key(sub_id) && env.authorizes(
                old(self)@.subscriptions[sub_id].owner,
            ) ==> r is Ok && final(self)@ == (ContractView {
                approvals: old(self)@.approvals.insert(
                    (sub_id, approval_id),
                    RenewalApproval { sub_id, max_spend, expires_at, used: false },
                ),
                events: old(self)@.events.push(
                    ContractEvent::ApprovalCreated(
                        ApprovalCreated { sub_id, approval_id, max_spend, expires_at },
                    ),
                ),
                ..old(self)@
            }),
    {
        let data = match self.subscriptions.get(&sub_id) {
            Some(d) => *d,
            None => return Err(RenewalError::SubscriptionNotFound),
        };
        if !env.require_auth(&data.owner) {
            return Err(RenewalError::Unauthorized);
        }
        self.store_approval(
            sub_id,
            approval_id,
            RenewalApproval { sub_id, max_spend, expires_at, used: false },
        );
        self.events.push(
            ContractEvent::ApprovalCreated(
                ApprovalCreated { sub_id, approval_id, max_spend, expires_at },
            ),
        );
        Ok(())
    }

    /// Validates approval `approval_id` of `sub_id` for `amount` at the
    /// current height and marks it used. A refusal publishes an
    /// `ApprovalRejected` event, returns it and changes nothing else; the
    /// caller decides whether it is fatal.
    pub fn consume_approval(&mut self, env: &Env, sub_id: u64, approval_id: u64, amount: i128) -> (r:
        Result<(), ApprovalRejected>)
        ensures
            match approval_verdict(old(self)@.approvals, env.sequence, sub_id, approval_id, amount) {
                Some(reason) => r == Err::<(), ApprovalRejected>(
                    ApprovalRejected { sub_id, approval_id, reason },
                ) && final(self)@ == (ContractView {
                    events: old(self)@.events.push(
                        ContractEvent::ApprovalRejected(ApprovalRejected { sub_id, approval_id, reason }),
                    ),
                    ..old(self)@
                }),
                None => r is Ok && final(self)@ == (ContractView {
                    approvals: consumed(old(self)@.approvals, sub_id, approval_id),
                    ..old(self)@
                }),
            },
    {
        match self.approval_rejection(env, sub_id, approval_id, amount) {
            Some(reason) => {
                let rejection = ApprovalRejected { sub_id, approval_id, reason };
                self.events.push(ContractEvent::ApprovalRejected(rejection));
                Err(rejection)
            },
            None => {
                let approval = self.find_approval(sub_id, approval_id).unwrap();
                self.store_approval(sub_id, approval_id, RenewalApproval { used: true, ..approval });
                Ok(())
            },
        }
    }

    /// Cancels `sub_id` for good. Only its owner may cancel, and only once.
    pub fn cancel_sub(&mut self, env: &Env, sub_id: u64) -> (r: Result<(), RenewalError>)
        ensures
            ({
                let v = old(self)@;
                let d = v.subscriptions[sub_id];
                if !v.subscriptions.contains_key(sub_id) {
                    r == Err::<(), RenewalError>(RenewalError::SubscriptionNotFound)
                        && final(self)@ == v
                } else if !env.authorizes(d.owner) {
                    r == Err::<(), RenewalError>(RenewalError::Unauthorized) && final(self)@ == v
                } else if d.state == SubscriptionState::Cancelled {
                    r == Err::<(), RenewalError>(RenewalError::AlreadyCancelled) && final(self)@
                        == v
                } else if !v.lifecycles.contains_key(sub_id) {
                    r == Err::<(), RenewalError>(RenewalError::LifecycleNotFound) && final(self)@
                        == v
                } else {
                    r is Ok && final(self)@ == (ContractView {
                        subscriptions: v.subscriptions.insert(
                            sub_id,
                            SubscriptionData { state: SubscriptionState::Cancelled, ..d },
                        ),
                        lifecycles: v.lifecycles.insert(
                            sub_id,
                            LifecycleTimestamps { canceled_at: env.timestamp, ..v.lifecycles[sub_id] },
                        ),
                        events: v.events + seq![lifecycle_event(sub_id, LIFECYCLE_CANCELED, env.timestamp)]
                            + log_events(v, sub_id, LogEvent::Cancellation, LOG_CANCELLED) + seq![
                            ContractEvent::StateTransition(
                                StateTransition { sub_id, new_state: SubscriptionState::Cancelled },
                            ),
                        ],
                        ..v
                    })
                }
            }),
    {
        let mut data = match self.subscriptions.get(&sub_id) {
            Some(d) => *d,
            None => return Err(RenewalError::SubscriptionNotFound),
        };
        if !env.require_auth(&data.owner) {
            return Err(RenewalError::Unauthorized);
        }
        if data.state == SubscriptionState::Cancelled {
            return Err(RenewalError::AlreadyCancelled);
        }
        let mut lifecycle = match self.lifecycles.get(&sub_id) {
            Some(lc) => *lc,
            None => return Err(RenewalError::LifecycleNotFound),
        };
        data.state = SubscriptionState::Cancelled;
        self.subscriptions.insert(sub_id, data);
        let now = env.timestamp;
        lifecycle.canceled_at = now;
        self.lifecycles.insert(sub_id, lifecycle);
        self.events.push(
            ContractEvent::LifecycleTimestampUpdated(
                LifecycleTimestampUpdated { sub_id, event_kind: LIFECYCLE_CANCELED, timestamp: now },
            ),
        );
        self.record_log(sub_id, LogEvent::Cancellation, LOG_CANCELLED);
        self.events.push(
            ContractEvent::StateTransition(
                StateTransition { sub_id, new_state: SubscriptionState::Cancelled },
            ),
        );
        assert(self@.events =~= old(self)@.events + seq![
            lifecycle_event(sub_id, LIFECYCLE_CANCELED, env.timestamp),
        ] + log_events(old(self)@, sub_id, LogEvent::Cancellation, LOG_CANCELLED) + seq![
            ContractEvent::StateTransition(
                StateTransition { sub_id, new_state: SubscriptionState::Cancelled },
            ),
        ]);
        Ok(())
    }

    /// The record of `sub_id`, if any.
    pub fn get_sub(&self, sub_id: u64) -> (r: Option<SubscriptionData>)
        ensures
            r == (if self@.subscriptions.contains_key(sub_id) {
                Some(self@.subscriptions[sub_id])
            } else {
                None
            }),
    {
        match self.subscriptions.get(&sub_id) {
            Some(d) => Some(*d),
            None => None,
        }
    }

    /// The lifecycle timestamps of `sub_id`, if any.
    pub fn get_lifecycle(&self, sub_id: u64) -> (r: Option<LifecycleTimestamps>)
        ensures
            r == (if self@.lifecycles.contains_key(sub_id) {
                Some(self@.lifecycles[sub_id])
            } else {
                None
            }),
    {
        match self.lifecycles.get(&sub_id) {
            Some(lc) => Some(*lc),
            None => None,
        }
    }

    /// The approval stored under `(sub_id, approval_id)`, if any.
    pub fn get_approval(&self, sub_id: u64, approval_id: u64) -> (r: Option<RenewalApproval>)
        ensures
            r == (if self@.approvals.contains_key((sub_id, approval_id)) {
                Some(self@.approvals[(sub_id, approval_id)])
            } else {
                None
            }),
    {
        self.find_approval(sub_id, approval_id)
    }
}

} // verus!
