use vstd::prelude::*;

use crate::digest::{append_key, be_bytes, lemma_be_bytes_len, push_be, sha256, sha256_of};
use crate::types::{bytes32_equal, Address};

verus! {

/// Descriptive data of a subscription in the metadata registry.
#[derive(Debug)]
pub struct SubscriptionMetadata {
    pub service_id: String,
    pub billing_interval: u64,
    pub expected_amount: i128,
    pub next_renewal: u64,
    pub is_active: bool,
}

impl SubscriptionMetadata {
    pub fn duplicate(&self) -> (r: SubscriptionMetadata)
        ensures
            r == *self,
    {
        SubscriptionMetadata {
            service_id: self.service_id.clone(),
            billing_interval: self.billing_interval,
            expected_amount: self.expected_amount,
            next_renewal: self.next_renewal,
            is_active: self.is_active,
        }
    }
}

#[derive(Clone, Copy, Debug, PartialEq, Eq, Structural)]
pub enum RegistryError {
    InvalidBillingInterval,
    InvalidAmount,
    InvalidNextRenewal,
    NotFound,
    NotActive,
    AlreadyCancelled,
    IdsExhausted,
}

/// A stored subscription: its id, the user it belongs to and its metadata.
#[derive(Debug)]
pub struct RegistryEntry {
    pub id: [u8; 32],
    pub user: Address,
    pub metadata: SubscriptionMetadata,
}

/// The id of the subscription created as number `counter` for `user`: the
/// counter in 8 big-endian bytes, then the first 24 bytes of the SHA-256
/// digest of the user's key.
pub open spec fn subscription_id_of(counter: u64, user: Address) -> Seq<u8> {
    be_bytes(counter as nat, 8) + sha256_of(user.key@).subrange(0, 24)
}

/// Index of the latest entry with id `id`.
pub open spec fn entry_index(entries: Seq<RegistryEntry>, id: Seq<u8>) -> Option<int>
    decreases entries.len(),
{
    if entries.len() == 0 {
        None
    } else if entries.last().id@ == id {
        Some(entries.len() - 1)
    } else {
        entry_index(entries.drop_last(), id)
    }
}

pub proof fn lemma_entry_index_in_range(entries: Seq<RegistryEntry>, id: Seq<u8>)
    ensures
        entry_index(entries, id) matches Some(i) ==> 0 <= i < entries.len() && entries[i].id@ == id,
    decreases entries.len(),
{
    if entries.len() > 0 {
        lemma_entry_index_in_range(entries.drop_last(), id);
    }
}

/// Ids of the entries of `user`, in creation order.
pub open spec fn ids_of_user(entries: Seq<RegistryEntry>, user: Address) -> Seq<Seq<u8>>
    decreases entries.len(),
{
    if entries.len() == 0 {
        Seq::empty()
    } else if entries.last().user.key@ == user.key@ {
        ids_of_user(entries.drop_last(), user).push(entries.last().id@)
    } else {
        ids_of_user(entries.drop_last(), user)
    }
}

#[derive(Debug)]
pub struct SubscriptionCreatedEvent {
    pub subscription_id: [u8; 32],
    pub user: Address,
    pub service_id: String,
    pub billing_interval: u64,
    pub expected_amount: i128,
    pub next_renewal: u64,
}

#[derive(Debug)]
pub struct SubscriptionUpdatedEvent {
    pub subscription_id: [u8; 32],
    pub user: Address,
    pub service_id: String,
    pub billing_interval: u64,
    pub expected_amount: i128,
    pub next_renewal: u64,
}

#[derive(Debug)]
pub struct SubscriptionCancelledEvent {
    pub subscription_id: [u8; 32],
    pub user: Address,
    pub service_id: String,
}

/// An event published by the metadata registry.
#[derive(Debug)]
pub enum RegistryEvent {
    Created(SubscriptionCreatedEvent),
    Updated(SubscriptionUpdatedEvent),
    Cancelled(SubscriptionCancelledEvent),
}

/// Metadata store for subscriptions, keyed by derived 32-byte ids.
pub struct SubscriptionRegistry {
    /// Number of subscriptions created so far.
    pub counter: u64,
    pub entries: Vec<RegistryEntry>,
    pub events: Vec<RegistryEvent>,
}

/// Computes the id of subscription number `counter` of `user`.
fn derive_id(counter: u64, user: &Address) -> (r: [u8; 32])
    ensures
        r@ == subscription_id_of(counter, *user),
{
    let mut prefix: Vec<u8> = Vec::new();
    push_be(&mut prefix, counter as u128, 8);
    proof {
        lemma_be_bytes_len(counter as nat, 8);
    }
    let mut key: Vec<u8> = Vec::new();
    append_key(&mut key, user);
    assert(key@ =~= user.key@);
    assert(key@.len() == 32);
    let digest = sha256(&key);
    let ghost target = subscription_id_of(counter, *user);
    let mut id = [0u8; 32];
    let mut i: usize = 0;
    while i < 32
        invariant
            0 <= i <= 32,
            id@.len() == 32,
            prefix@.len() == 8,
            digest@.len() == 32,
            target == prefix@ + digest@.subrange(0, 24),
            forall|j: int| 0 <= j < i ==> id@[j] == target[j],
        decreases 32 - i,
    {
        if i < 8 {
            id[i] = prefix[i];
        } else {
            id[i] = digest[i - 8];
        }
        i = i + 1;
    }
    assert(id@ =~= target);
    id
}

impl SubscriptionRegistry {
    /// The metadata stored under `id`, if any.
    pub open spec fn metadata_of(&self, id: Seq<u8>) -> Option<SubscriptionMetadata> {
        match entry_index(self.entries@, id) {
            Some(i) => Some(self.entries@[i].metadata),
            None => None,
        }
    }

    pub fn new() -> (r: SubscriptionRegistry)
        ensures
            r.counter == 0,
            r.entries@.len() == 0,
            r.events@.len() == 0,
    {
        SubscriptionRegistry { counter: 0, entries: Vec::new(), events: Vec::new() }
    }

    fn find(&self, id: &[u8; 32]) -> (r: Option<usize>)
        ensures
            r matches Some(i) ==> entry_index(self.entries@, id@) == Some(i as int),
            r is None ==> entry_index(self.entries@, id@) is None,
    {
        let mut i: usize = self.entries.len();
        assert(self.entries@.subrange(0, i as int) =~= self.entries@);
        while i > 0
            invariant
                0 <= i <= self.entries@.len(),
                entry_index(self.entries@, id@) == entry_index(
                    self.entries@.subrange(0, i as int),
                    id@,
                ),
            decreases i,
        {
            let ghost prefix = self.entries@.subrange(0, i as int);
            assert(prefix.drop_last() =~= self.entries@.subrange(0, i - 1));
            if bytes32_equal(&self.entries[i - 1].id, id) {
                return Some(i - 1);
            }
            i = i - 1;
        }
        None
    }

    /// Creates an active subscription for `user` and returns its id. The
    /// interval, the amount and the next renewal time must be positive.
    pub fn create_subscription(
        &mut self,
        user: Address,
        service_id: String,
        billing_interval: u64,
        expected_amount: i128,
        next_renewal: u64,
    ) -> (r: Result<[u8; 32], RegistryError>)
        ensures
            billing_interval == 0 ==> r == Err::<[u8; 32], RegistryError>(
                RegistryError::InvalidBillingInterval,
            ),
            billing_interval > 0 && expected_amount <= 0 ==> r == Err::<[u8; 32], RegistryError>(
                RegistryError::InvalidAmount,
            ),
            billing_interval > 0 && expected_amount > 0 && next_renewal == 0 ==> r == Err::<
                [u8; 32],
                RegistryError,
            >(RegistryError::InvalidNextRenewal),
            billing_interval > 0 && expected_amount > 0 && next_renewal > 0 && old(self).counter
                == u64::MAX ==> r == Err::<[u8; 32], RegistryError>(RegistryError::IdsExhausted),
            billing_interval > 0 && expected_amount > 0 && next_renewal > 0 && old(self).counter
                < u64::MAX ==> r is Ok,
            r is Err ==> final(self).counter == old(self).counter && final(self).entries@ == old(
                self,
            ).entries@ && final(self).events@ == old(self).events@,
            r matches Ok(id) ==> {
                &&& final(self).events@ == old(self).events@.push(
                    RegistryEvent::Created(
                        SubscriptionCreatedEvent {
                            subscription_id: id,
                            user,
                            service_id,
                            billing_interval,
                            expected_amount,
                            next_renewal,
                        },
                    ),
                )
                &&& billing_interval > 0 && expected_amount > 0 && next_renewal > 0
                &&& old(self).counter < u64::MAX
                &&& id@ == subscription_id_of(old(self).counter, user)
                &&& final(self).counter == old(self).counter + 1
                &&& final(self).entries@ == old(self).entries@.push(
                    RegistryEntry {
                        id,
                        user,
                        metadata: SubscriptionMetadata {
                            service_id,
                            billing_interval,
                            expected_amount,
                            next_renewal,
                            is_active: true,
                        },
                    },
                )
            },
    {
        if billing_interval == 0 {
            return Err(RegistryError::InvalidBillingInterval);
        }
        if expected_amount <= 0 {
            return Err(RegistryError::InvalidAmount);
        }
        if next_renewal == 0 {
            return Err(RegistryError::InvalidNextRenewal);
        }
        if self.counter == u64::MAX {
            return Err(RegistryError::IdsExhausted);
        }
        let id = derive_id(self.counter, &user);
        self.counter = self.counter + 1;
        self.events.push(
            RegistryEvent::Created(
                SubscriptionCreatedEvent {
                    subscription_id: id,
                    user,
                    service_id: service_id.clone(),
                    billing_interval,
                    expected_amount,
                    next_renewal,
                },
            ),
        );
        self.entries.push(
            RegistryEntry {
                id,
                user,
                metadata: SubscriptionMetadata {
                    service_id,
                    billing_interval,
                    expected_amount,
                    next_renewal,
                    is_active: true,
                },
            },
        );
        Ok(id)
    }

    /// Replaces the given fields of an active subscription. Each given
    /// interval, amount and renewal time must be positive; nothing changes
    /// when any check fails.
    pub fn update_subscription(
        &mut self,
        subscription_id: [u8; 32],
        user: Address,
        service_id: Option<String>,
        billing_interval: Option<u64>,
        expected_amount: Option<i128>,
        next_renewal: Option<u64>,
    ) -> (r: Result<(), RegistryError>)
        ensures
            final(self).counter == old(self).counter,
            r is Err ==> final(self).entries@ == old(self).entries@ && final(self).events@ == old(
                self,
            ).events@,
            r is Ok ==> {
                let m = final(self).entries@[entry_index(old(self).entries@, subscription_id@)->0].metadata;
                final(self).events@ == old(self).events@.push(
                    RegistryEvent::Updated(
                        SubscriptionUpdatedEvent {
                            subscription_id,
                            user,
                            service_id: m.service_id,
                            billing_interval: m.billing_interval,
                            expected_amount: m.expected_amount,
                            next_renewal: m.next_renewal,
                        },
                    ),
                )
            },
            ({
                let found = entry_index(old(self).entries@, subscription_id@);
                if found is None {
                    r == Err::<(), RegistryError>(RegistryError::NotFound)
                } else if !old(self).entries@[found->0].metadata.is_active {
                    r == Err::<(), RegistryError>(RegistryError::NotActive)
                } else if billing_interval == Some(0u64) {
                    r == Err::<(), RegistryError>(RegistryError::InvalidBillingInterval)
                } else if expected_amount matches Some(a) && a <= 0 {
                    r == Err::<(), RegistryError>(RegistryError::InvalidAmount)
                } else if next_renewal == Some(0u64) {
                    r == Err::<(), RegistryError>(RegistryError::InvalidNextRenewal)
                } else {
                    let e = old(self).entries@[found->0];
                    let m = e.metadata;
                    r is Ok && final(self).entries@ == old(self).entries@.update(
                        found->0,
                        RegistryEntry {
                            metadata: SubscriptionMetadata {
                                service_id: match service_id {
                                    Some(s) => s,
                                    None => m.service_id,
                                },
                                billing_interval: match billing_interval {
                                    Some(b) => b,
                                    None => m.billing_interval,
                                },
                                expected_amount: match expected_amount {
                                    Some(a) => a,
                                    None => m.expected_amount,
                                },
                                next_renewal: match next_renewal {
                                    Some(n) => n,
                                    None => m.next_renewal,
                                },
                                is_active: m.is_active,
                            },
                            ..e
                        },
                    )
                }
            }),
    {
        let i = match self.find(&subscription_id) {
            Some(i) => i,
            None => return Err(RegistryError::NotFound),
        };
        proof {
            lemma_entry_index_in_range(self.entries@, subscription_id@);
        }
        if !self.entries[i].metadata.is_active {
            return Err(RegistryError::NotActive);
        }
        if let Some(b) = billing_interval {
            if b == 0 {
                return Err(RegistryError::InvalidBillingInterval);
            }
        }
        if let Some(a) = expected_amount {
            if a <= 0 {
                return Err(RegistryError::InvalidAmount);
            }
        }
        if let Some(n) = next_renewal {
            if n == 0 {
                return Err(RegistryError::InvalidNextRenewal);
            }
        }
        let old_metadata = self.entries[i].metadata.duplicate();
        let metadata = SubscriptionMetadata {
            service_id: match service_id {
                Some(s) => s,
                None => old_metadata.service_id,
            },
            billing_interval: match billing_interval {
                Some(b) => b,
                None => old_metadata.billing_interval,
            },
            expected_amount: match expected_amount {
                Some(a) => a,
                None => old_metadata.expected_amount,
            },
            next_renewal: match next_renewal {
                Some(n) => n,
                None => old_metadata.next_renewal,
            },
            is_active: old_metadata.is_active,
        };
        self.events.push(
            RegistryEvent::Updated(
                SubscriptionUpdatedEvent {
                    subscription_id,
                    user,
                    service_id: metadata.service_id.clone(),
                    billing_interval: metadata.billing_interval,
                    expected_amount: metadata.expected_amount,
                    next_renewal: metadata.next_renewal,
                },
            ),
        );
        let entry = RegistryEntry { id: self.entries[i].id, user: self.entries[i].user, metadata };
        self.entries.set(i, entry);
        Ok(())
    }

    /// Marks a subscription inactive; fails when it is unknown or already
    /// inactive.
    pub fn cancel_subscription(&mut self, subscription_id: [u8; 32], user: Address) -> (r: Result<
        (),
        RegistryError,
    >)
        ensures
            final(self).counter == old(self).counter,
            r is Err ==> final(self).entries@ == old(self).entries@ && final(self).events@ == old(
                self,
            ).events@,
            r is Ok ==> final(self).events@ == old(self).events@.push(
                RegistryEvent::Cancelled(
                    SubscriptionCancelledEvent {
                        subscription_id,
                        user,
                        service_id: old(self).entries@[entry_index(
                            old(self).entries@,
                            subscription_id@,
                        )->0].metadata.service_id,
                    },
                ),
            ),
            ({
                let found = entry_index(old(self).entries@, subscription_id@);
                if found is None {
                    r == Err::<(), RegistryError>(RegistryError::NotFound)
                } else if !old(self).entries@[found->0].metadata.is_active {
                    r == Err::<(), RegistryError>(RegistryError::AlreadyCancelled)
                } else {
                    let e = old(self).entries@[found->0];
                    r is Ok && final(self).entries@ == old(self).entries@.update(
                        found->0,
                        RegistryEntry {
                            metadata: SubscriptionMetadata { is_active: false, ..e.metadata },
                            ..e
                        },
                    )
                }
            }),
    {
        let i = match self.find(&subscription_id) {
            Some(i) => i,
            None => return Err(RegistryError::NotFound),
        };
        proof {
            lemma_entry_index_in_range(self.entries@, subscription_id@);
        }
        if !self.entries[i].metadata.is_active {
            return Err(RegistryError::AlreadyCancelled);
        }
        let mut metadata = self.entries[i].metadata.duplicate();
        metadata.is_active = false;
        self.events.push(
            RegistryEvent::Cancelled(
                SubscriptionCancelledEvent {
                    subscription_id,
                    user,
                    service_id: metadata.service_id.clone(),
                },
            ),
        );
        let entry = RegistryEntry { id: self.entries[i].id, user: self.entries[i].user, metadata };
        self.entries.set(i, entry);
        Ok(())
    }

    /// The metadata of a subscription, if it exists.
    pub fn get_subscription(&self, subscription_id: [u8; 32]) -> (r: Option<SubscriptionMetadata>)
        ensures
            r == self.metadata_of(subscription_id@),
    {
        match self.find(&subscription_id) {
            Some(i) => {
                proof {
                    lemma_entry_index_in_range(self.entries@, subscription_id@);
                }
                Some(self.entries[i].metadata.duplicate())
            },
            None => None,
        }
    }

    /// The ids of the subscriptions of `user`, oldest first.
    pub fn get_user_subscriptions(&self, user: Address) -> (r: Vec<[u8; 32]>)
        ensures
            r@.map_values(|id: [u8; 32]| id@) == ids_of_user(self.entries@, user),
    {
        let mut out: Vec<[u8; 32]> = Vec::new();
        let mut i: usize = 0;
        while i < self.entries.len()
            invariant
                0 <= i <= self.entries@.len(),
                out@.map_values(|id: [u8; 32]| id@) == ids_of_user(
                    self.entries@.subrange(0, i as int),
                    user,
                ),
            decreases self.entries@.len() - i,
        {
            let ghost before = out@;
            let ghost next = self.entries@.subrange(0, i + 1);
            assert(next.drop_last() =~= self.entries@.subrange(0, i as int));
            if bytes32_equal(&self.entries[i].user.key, &user.key) {
                out.push(self.entries[i].id);
                assert(out@.map_values(|id: [u8; 32]| id@) =~= before.map_values(
                    |id: [u8; 32]| id@,
                ).push(self.entries@[i as int].id@));
            }
            i = i + 1;
        }
        assert(self.entries@.subrange(0, self.entries@.len() as int) =~= self.entries@);
        out
    }
}

} // verus!
