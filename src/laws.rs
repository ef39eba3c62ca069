use vstd::prelude::*;

use crate::digest::{
    be_bytes, lemma_be_bytes_injective, lemma_be_bytes_len, lemma_terms_encoding_injective,
    lemma_u128_fits, sha256_of, terms_encoding,
};
use crate::registry::subscription_id_of;
use crate::records::{
    DuplicateRenewalRejected, IntegrityViolation, RenewalApproval, SubscriptionData,
    SubscriptionState, REJECT_AMOUNT_EXCEEDED, REJECT_EXPIRED, REJECT_USED,
};
use crate::renewal::{
    acquire_error, acquired_view, approval_verdict, attempt_record, consumed, cooldown_pending,
    digest_intact, is_fresh_record, lock_is_live, renew_error, renewed_view, ContractView,
    RenewalError,
};
use crate::types::Address;

verus! {

/// Once an approval has been consumed, every later consumption of it is
/// refused as used, at any height and for any amount.
pub proof fn law_approval_consumed_at_most_once(
    approvals: Map<(u64, u64), RenewalApproval>,
    height: u32,
    later_height: u32,
    sub_id: u64,
    approval_id: u64,
    amount: i128,
    later_amount: i128,
)
    requires
        approval_verdict(approvals, height, sub_id, approval_id, amount) is None,
    ensures
        approval_verdict(
            consumed(approvals, sub_id, approval_id),
            later_height,
            sub_id,
            approval_id,
            later_amount,
        ) == Some(REJECT_USED),
{
}

/// A renewal that went ahead has consumed its approval: in any later state
/// whose approvals are those it left (the owner has not issued the same
/// approval id anew), a renewal that presents it again aborts.
pub proof fn law_renewal_approval_single_use(
    v: ContractView,
    height: u32,
    now: u64,
    sub_id: u64,
    approval_id: u64,
    amount: i128,
    max_retries: u32,
    cooldown_ledgers: u32,
    cycle_id: u64,
    succeed: bool,
    later: ContractView,
    later_height: u32,
    later_amount: i128,
    later_cooldown: u32,
    later_cycle: u64,
    later_succeed: bool,
)
    requires
        renew_error(v, height, sub_id, approval_id, amount, cooldown_ledgers, cycle_id, succeed)
            is None,
        later.approvals == renewed_view(
            v,
            height,
            now,
            sub_id,
            approval_id,
            max_retries,
            cycle_id,
            succeed,
        ).approvals,
    ensures
        renew_error(
            later,
            later_height,
            sub_id,
            approval_id,
            later_amount,
            later_cooldown,
            later_cycle,
            later_succeed,
        ) is Some,
{
}

/// Past its expiry height an unused approval is refused as expired, never
/// as exceeding its amount.
pub proof fn law_expired_before_amount(
    approvals: Map<(u64, u64), RenewalApproval>,
    height: u32,
    sub_id: u64,
    approval_id: u64,
    amount: i128,
)
    requires
        approvals.contains_key((sub_id, approval_id)),
        height > approvals[(sub_id, approval_id)].expires_at,
    ensures
        approval_verdict(approvals, height, sub_id, approval_id, amount) != Some(
            REJECT_AMOUNT_EXCEEDED,
        ),
        !approvals[(sub_id, approval_id)].used ==> approval_verdict(
            approvals,
            height,
            sub_id,
            approval_id,
            amount,
        ) == Some(REJECT_EXPIRED),
{
}

/// A lock taken at height `locked_at` with timeout `lock_timeout` cannot be
/// taken again below `locked_at + lock_timeout`, and can be at or above it
/// (the protocol not being paused).
pub proof fn law_lock_reacquire(
    v: ContractView,
    locked_at: u32,
    sub_id: u64,
    lock_timeout: u32,
    height: u32,
)
    requires
        acquire_error(v, locked_at, sub_id) is None,
    ensures
        (height as int) < locked_at as int + lock_timeout as int ==> acquire_error(
            acquired_view(v, locked_at, sub_id, lock_timeout),
            height,
            sub_id,
        ) == Some(RenewalError::LockActive),
        (height as int) >= locked_at as int + lock_timeout as int ==> acquire_error(
            acquired_view(v, locked_at, sub_id, lock_timeout),
            height,
            sub_id,
        ) is None,
{
}

/// A renewal that goes ahead leaves no lock on its subscription, whether
/// the payment succeeded or failed.
pub proof fn law_renew_releases_lock(
    v: ContractView,
    height: u32,
    now: u64,
    sub_id: u64,
    approval_id: u64,
    amount: i128,
    max_retries: u32,
    cooldown_ledgers: u32,
    cycle_id: u64,
    succeed: bool,
)
    requires
        renew_error(v, height, sub_id, approval_id, amount, cooldown_ledgers, cycle_id, succeed)
            is None,
    ensures
        !renewed_view(
            v,
            height,
            now,
            sub_id,
            approval_id,
            max_retries,
            cycle_id,
            succeed,
        ).locks.contains_key(sub_id),
{
}

/// The record after a run of failed attempts at the given heights.
pub open spec fn after_failures(d: SubscriptionData, heights: Seq<u32>, max_retries: u32) -> SubscriptionData
    decreases heights.len(),
{
    if heights.len() == 0 {
        d
    } else {
        attempt_record(
            after_failures(d, heights.drop_last(), max_retries),
            heights.last(),
            max_retries,
            false,
        )
    }
}

/// Starting from no failures, `k` consecutive failed attempts (`k` within
/// the range of the count) leave a count of `k`; the subscription is `Retrying` while `k <= max_retries` and
/// `Failed` once `k > max_retries`.
pub proof fn law_consecutive_failures(d: SubscriptionData, heights: Seq<u32>, max_retries: u32)
    requires
        d.failure_count == 0,
        heights.len() <= max_retries as int + 1,
        heights.len() <= u32::MAX,
    ensures
        after_failures(d, heights, max_retries).failure_count == heights.len(),
        heights.len() > 0 ==> after_failures(d, heights, max_retries).state == (if heights.len()
            > max_retries {
            SubscriptionState::Failed
        } else {
            SubscriptionState::Retrying
        }),
    decreases heights.len(),
{
    if heights.len() > 0 {
        law_consecutive_failures(d, heights.drop_last(), max_retries);
    }
}

/// A failed subscription never renews again: every `renew` on it aborts.
pub proof fn law_failed_is_terminal(
    v: ContractView,
    height: u32,
    sub_id: u64,
    approval_id: u64,
    amount: i128,
    cooldown_ledgers: u32,
    cycle_id: u64,
    succeed: bool,
)
    requires
        v.subscriptions.contains_key(sub_id),
        v.subscriptions[sub_id].state == SubscriptionState::Failed,
    ensures
        renew_error(v, height, sub_id, approval_id, amount, cooldown_ledgers, cycle_id, succeed)
            is Some,
        !v.paused() ==> renew_error(
            v,
            height,
            sub_id,
            approval_id,
            amount,
            cooldown_ledgers,
            cycle_id,
            succeed,
        ) == Some(RenewalError::SubscriptionFailed),
{
}

/// The failed attempt that takes the count past `max_retries` leaves the
/// subscription `Failed`, and from then on every `renew` of it aborts.
pub proof fn law_exhausted_retries_fail_for_good(
    v: ContractView,
    height: u32,
    now: u64,
    sub_id: u64,
    approval_id: u64,
    amount: i128,
    max_retries: u32,
    cooldown_ledgers: u32,
    cycle_id: u64,
    later: ContractView,
    later_height: u32,
    later_approval: u64,
    later_amount: i128,
    later_cooldown: u32,
    later_cycle: u64,
    later_succeed: bool,
)
    requires
        renew_error(v, height, sub_id, approval_id, amount, cooldown_ledgers, cycle_id, false)
            is None,
        v.subscriptions[sub_id].failure_count >= max_retries,
        later.subscriptions.contains_key(sub_id),
        later.subscriptions[sub_id] == renewed_view(
            v,
            height,
            now,
            sub_id,
            approval_id,
            max_retries,
            cycle_id,
            false,
        ).subscriptions[sub_id],
    ensures
        later.subscriptions[sub_id].state == SubscriptionState::Failed,
        renew_error(
            later,
            later_height,
            sub_id,
            later_approval,
            later_amount,
            later_cooldown,
            later_cycle,
            later_succeed,
        ) is Some,
{
}

/// A successful renewal records its cycle id as the subscription's marker.
pub proof fn law_success_records_cycle(
    v: ContractView,
    height: u32,
    now: u64,
    sub_id: u64,
    approval_id: u64,
    amount: i128,
    max_retries: u32,
    cooldown_ledgers: u32,
    cycle_id: u64,
)
    requires
        renew_error(v, height, sub_id, approval_id, amount, cooldown_ledgers, cycle_id, true) is None,
    ensures
        ({
            let after = renewed_view(v, height, now, sub_id, approval_id, max_retries, cycle_id, true);
            after.cycles.contains_key(sub_id) && after.cycles[sub_id] == cycle_id
        }),
{
}

/// A renewal that presents the cycle id of the last successful renewal
/// aborts; once the checks before the cycle guard pass, it aborts with
/// `DuplicateCycle`.
pub proof fn law_duplicate_cycle_aborts(
    v: ContractView,
    height: u32,
    sub_id: u64,
    approval_id: u64,
    amount: i128,
    cooldown_ledgers: u32,
    cycle_id: u64,
    succeed: bool,
)
    requires
        v.cycles.contains_key(sub_id),
        v.cycles[sub_id] == cycle_id,
    ensures
        renew_error(v, height, sub_id, approval_id, amount, cooldown_ledgers, cycle_id, succeed)
            is Some,
        ({
            let d = v.subscriptions[sub_id];
            &&& !v.paused()
            &&& v.subscriptions.contains_key(sub_id)
            &&& d.state != SubscriptionState::Failed
            &&& d.state != SubscriptionState::Cancelled
            &&& v.locks.contains_key(sub_id)
            &&& lock_is_live(v.locks[sub_id], height)
        }) ==> renew_error(
            v,
            height,
            sub_id,
            approval_id,
            amount,
            cooldown_ledgers,
            cycle_id,
            succeed,
        ) == Some(RenewalError::DuplicateCycle(DuplicateRenewalRejected { sub_id, cycle_id })),
{
}

/// A failed attempt leaves the cycle marker as it was, so the cycle guard
/// still admits a retry with the same cycle id.
pub proof fn law_failure_keeps_cycle_open(
    v: ContractView,
    height: u32,
    now: u64,
    sub_id: u64,
    approval_id: u64,
    amount: i128,
    max_retries: u32,
    cooldown_ledgers: u32,
    cycle_id: u64,
)
    requires
        renew_error(v, height, sub_id, approval_id, amount, cooldown_ledgers, cycle_id, false)
            is None,
    ensures
        ({
            let after = renewed_view(v, height, now, sub_id, approval_id, max_retries, cycle_id, false);
            &&& after.cycles == v.cycles
            &&& !(after.cycles.contains_key(sub_id) && after.cycles[sub_id] == cycle_id)
        }),
{
}

/// A record whose stored digest does not match its current terms never
/// renews: `renew` aborts, with an integrity violation once the checks
/// before the digest comparison pass.
pub proof fn law_digest_mismatch_aborts(
    v: ContractView,
    height: u32,
    sub_id: u64,
    approval_id: u64,
    amount: i128,
    cooldown_ledgers: u32,
    cycle_id: u64,
    succeed: bool,
)
    requires
        v.subscriptions.contains_key(sub_id),
        !digest_intact(v.subscriptions[sub_id]),
    ensures
        renew_error(v, height, sub_id, approval_id, amount, cooldown_ledgers, cycle_id, succeed)
            is Some,
        ({
            let d = v.subscriptions[sub_id];
            &&& !v.paused()
            &&& d.state != SubscriptionState::Failed
            &&& d.state != SubscriptionState::Cancelled
            &&& v.locks.contains_key(sub_id)
            &&& lock_is_live(v.locks[sub_id], height)
            &&& !(v.cycles.contains_key(sub_id) && v.cycles[sub_id] == cycle_id)
            &&& !cooldown_pending(d, height, cooldown_ledgers)
            &&& approval_verdict(v.approvals, height, sub_id, approval_id, amount) is None
        }) ==> renew_error(
            v,
            height,
            sub_id,
            approval_id,
            amount,
            cooldown_ledgers,
            cycle_id,
            succeed,
        ) == Some(RenewalError::IntegrityViolation(IntegrityViolation { sub_id })),
{
}

/// Changing any of merchant, amount, frequency or spending cap after
/// creation changes the bytes the digest is taken over; the stored digest
/// then no longer matches unless SHA-256 maps both encodings to the same
/// value.
pub proof fn law_tampering_changes_digest_input(
    created: SubscriptionData,
    owner: Address,
    merchant: Address,
    amount: i128,
    frequency: u64,
    spending_cap: i128,
    tampered: SubscriptionData,
)
    requires
        is_fresh_record(created, owner, merchant, amount, frequency, spending_cap),
        tampered.integrity_hash == created.integrity_hash,
        tampered.merchant.key@ != merchant.key@ || tampered.amount != amount || tampered.frequency
            != frequency || tampered.spending_cap != spending_cap,
    ensures
        digest_intact(created),
        terms_encoding(tampered.merchant, tampered.amount, tampered.frequency, tampered.spending_cap)
            != terms_encoding(merchant, amount, frequency, spending_cap),
        sha256_of(
            terms_encoding(
                tampered.merchant,
                tampered.amount,
                tampered.frequency,
                tampered.spending_cap,
            ),
        ) != sha256_of(terms_encoding(merchant, amount, frequency, spending_cap)) ==> !digest_intact(
            tampered,
        ),
{
    if terms_encoding(tampered.merchant, tampered.amount, tampered.frequency, tampered.spending_cap)
        == terms_encoding(merchant, amount, frequency, spending_cap) {
        lemma_terms_encoding_injective(
            tampered.merchant,
            tampered.amount,
            tampered.frequency,
            tampered.spending_cap,
            merchant,
            amount,
            frequency,
            spending_cap,
        );
    }
}

/// A failed attempt that goes ahead counts exactly one more failure (the
/// count being below its maximum) and moves the subscription to `Failed`
/// once the count exceeds `max_retries`, to `Retrying` before that.
pub proof fn law_failure_counts_one_more(
    v: ContractView,
    height: u32,
    now: u64,
    sub_id: u64,
    approval_id: u64,
    amount: i128,
    max_retries: u32,
    cooldown_ledgers: u32,
    cycle_id: u64,
)
    requires
        renew_error(v, height, sub_id, approval_id, amount, cooldown_ledgers, cycle_id, false)
            is None,
        v.subscriptions[sub_id].failure_count < u32::MAX,
    ensures
        ({
            let before = v.subscriptions[sub_id];
            let after = renewed_view(v, height, now, sub_id, approval_id, max_retries, cycle_id, false).subscriptions[sub_id];
            &&& after.failure_count == before.failure_count + 1
            &&& after.state == if before.failure_count + 1 > max_retries {
                SubscriptionState::Failed
            } else {
                SubscriptionState::Retrying
            }
            &&& after.last_attempt_ledger == height
        }),
{
}

/// Subscriptions created under different counters get different ids,
/// whoever their users are.
pub proof fn law_subscription_ids_distinct(c1: u64, u1: Address, c2: u64, u2: Address)
    requires
        c1 != c2,
    ensures
        subscription_id_of(c1, u1) != subscription_id_of(c2, u2),
{
    lemma_be_bytes_len(c1 as nat, 8);
    lemma_be_bytes_len(c2 as nat, 8);
    if subscription_id_of(c1, u1) == subscription_id_of(c2, u2) {
        assert(subscription_id_of(c1, u1).subrange(0, 8) =~= be_bytes(c1 as nat, 8));
        assert(subscription_id_of(c2, u2).subrange(0, 8) =~= be_bytes(c2 as nat, 8));
        lemma_u128_fits();
        lemma_be_bytes_injective(c1 as nat, c2 as nat, 8);
    }
}

} // verus!
