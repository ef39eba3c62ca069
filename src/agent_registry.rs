use vstd::prelude::*;

use crate::types::{bytes32_equal, Address, Env};

verus! {

#[derive(Clone, Copy, Debug, PartialEq, Eq, Structural)]
pub enum Error {
    AlreadyInitialized,
    NotInitialized,
    Unauthorized,
    InvalidScope,
}

/// A permission that an automated caller may hold.
#[derive(Clone, Copy, Debug, PartialEq, Eq, Structural)]
pub enum Scope {
    Renewals,
    GiftCards,
    Approvals,
}

impl Scope {
    pub open spec fn spec_bit(self) -> u32 {
        match self {
            Scope::Renewals => 1,
            Scope::GiftCards => 2,
            Scope::Approvals => 4,
        }
    }

    /// The scope's flag in a permission bitmask.
    pub fn bit(self) -> (r: u32)
        ensures
            r == self.spec_bit(),
    {
        match self {
            Scope::Renewals => 1,
            Scope::GiftCards => 2,
            Scope::Approvals => 4,
        }
    }
}

/// A registered agent and its permission bitmask.
#[derive(Clone, Copy, Debug)]
pub struct AgentEntry {
    pub agent: Address,
    pub scopes: u32,
}

/// The bitmask that the latest entry for `key` holds, if any.
pub open spec fn scopes_in(entries: Seq<AgentEntry>, key: Seq<u8>) -> Option<u32>
    decreases entries.len(),
{
    if entries.len() == 0 {
        None
    } else if entries.last().agent.key@ == key {
        Some(entries.last().scopes)
    } else {
        scopes_in(entries.drop_last(), key)
    }
}

/// Allow-list of automated callers with a permission bitmask each.
pub struct AgentRegistry {
    pub admin: Option<Address>,
    pub agents: Vec<AgentEntry>,
}

impl AgentRegistry {
    /// The bitmask of `agent`, or `None` when it is not registered.
    pub open spec fn scopes_of(&self, agent: Address) -> Option<u32> {
        scopes_in(self.agents@, agent.key@)
    }

    pub fn new() -> (r: AgentRegistry)
        ensures
            r.admin.is_none(),
            forall|a: Address| #[trigger] r.scopes_of(a) is None,
    {
        AgentRegistry { admin: None, agents: Vec::new() }
    }

    /// Stores the admin; fails when the registry already has one.
    pub fn init(&mut self, env: &Env, admin: Address) -> (r: Result<(), Error>)
        ensures
            old(self).admin.is_some() ==> r == Err::<(), Error>(Error::AlreadyInitialized)
                && final(self).admin == old(self).admin,
            old(self).admin.is_none() ==> r is Ok && final(self).admin == Some(admin),
            final(self).agents@ == old(self).agents@,
    {
        if self.admin.is_some() {
            return Err(Error::AlreadyInitialized);
        }
        self.admin = Some(admin);
        Ok(())
    }

    /// Checks that the invocation is signed by the stored admin.
    pub fn require_admin(&self, env: &Env) -> (r: Result<Address, Error>)
        ensures
            match self.admin {
                None => r == Err::<Address, Error>(Error::NotInitialized),
                Some(a) => if env.authorizes(a) {
                    r == Ok::<Address, Error>(a)
                } else {
                    r == Err::<Address, Error>(Error::Unauthorized)
                },
            },
    {
        match self.admin {
            None => Err(Error::NotInitialized),
            Some(a) => {
                if env.require_auth(&a) {
                    Ok(a)
                } else {
                    Err(Error::Unauthorized)
                }
            },
        }
    }

    /// The bitmask of `agent`, if registered.
    fn find_scopes(&self, agent: &Address) -> (r: Option<u32>)
        ensures
            r == self.scopes_of(*agent),
    {
        let mut i: usize = self.agents.len();
        assert(self.agents@.subrange(0, i as int) =~= self.agents@);
        while i > 0
            invariant
                0 <= i <= self.agents@.len(),
                scopes_in(self.agents@.subrange(0, i as int), agent.key@) == self.scopes_of(*agent),
            decreases i,
        {
            let ghost prefix = self.agents@.subrange(0, i as int);
            assert(prefix.drop_last() =~= self.agents@.subrange(0, i - 1));
            if bytes32_equal(&self.agents[i - 1].agent.key, &agent.key) {
                return Some(self.agents[i - 1].scopes);
            }
            i = i - 1;
        }
        None
    }

    /// Drops every entry of `key`.
    fn remove_entries(&mut self, key: &[u8; 32])
        ensures
            final(self).admin == old(self).admin,
            forall|k: Seq<u8>| #[trigger]
                scopes_in(final(self).agents@, k) == if k == key@ {
                    None
                } else {
                    scopes_in(old(self).agents@, k)
                },
    {
        let mut kept: Vec<AgentEntry> = Vec::new();
        let mut i: usize = 0;
        while i < self.agents.len()
            invariant
                0 <= i <= self.agents@.len(),
                forall|k: Seq<u8>| #[trigger]
                    scopes_in(kept@, k) == if k == key@ {
                        None
                    } else {
                        scopes_in(self.agents@.subrange(0, i as int), k)
                    },
            decreases self.agents@.len() - i,
        {
            let e = self.agents[i];
            let ghost before = kept@;
            let ghost next = self.agents@.subrange(0, i + 1);
            assert(next.drop_last() =~= self.agents@.subrange(0, i as int));
            if !bytes32_equal(&e.agent.key, key) {
                kept.push(e);
                assert(kept@.drop_last() =~= before);
            }
            assert forall|k: Seq<u8>| #[trigger]
                scopes_in(kept@, k) == if k == key@ {
                    None
                } else {
                    scopes_in(next, k)
                } by {
                assert(scopes_in(before, k) == if k == key@ {
                    None
                } else {
                    scopes_in(self.agents@.subrange(0, i as int), k)
                });
            }
            i = i + 1;
        }
        assert(self.agents@.subrange(0, self.agents@.len() as int) =~= self.agents@);
        self.agents = kept;
    }

    /// Sets the bitmask of `agent`, replacing any earlier one.
    fn put_entry(&mut self, agent: Address, scopes: u32)
        ensures
            final(self).admin == old(self).admin,
            forall|a: Address| #[trigger]
                final(self).scopes_of(a) == if a.key@ == agent.key@ {
                    Some(scopes)
                } else {
                    old(self).scopes_of(a)
                },
    {
        self.remove_entries(&agent.key);
        let ghost cleared = self.agents@;
        self.agents.push(AgentEntry { agent, scopes });
        assert(self.agents@.drop_last() =~= cleared);
        assert forall|a: Address| #[trigger]
            self.scopes_of(a) == if a.key@ == agent.key@ {
                Some(scopes)
            } else {
                old(self).scopes_of(a)
            } by {
            assert(scopes_in(cleared, a.key@) == if a.key@ == agent.key@ {
                None
            } else {
                scopes_in(old(self).agents@, a.key@)
            });
        }
    }

    /// Registers `agent` with no scopes. Admin only.
    pub fn register(&mut self, env: &Env, agent: Address) -> (r: Result<(), Error>)
        ensures
            final(self).admin == old(self).admin,
            r is Ok <==> self_admin_signed(*old(self), env),
            r is Err ==> final(self).agents@ == old(self).agents@ && r == Err::<(), Error>(
                admin_error(*old(self), env),
            ),
            r is Ok ==> forall|a: Address| #[trigger]
                final(self).scopes_of(a) == if a.key@ == agent.key@ {
                    Some(0u32)
                } else {
                    old(self).scopes_of(a)
                },
    {
        self.require_admin(env)?;
        self.put_entry(agent, 0);
        Ok(())
    }

    /// Replaces the bitmask of a registered agent. Admin only; an unknown
    /// agent is refused as unauthorized.
    pub fn update_scopes(&mut self, env: &Env, agent: Address, scopes: u32) -> (r: Result<(), Error>)
        ensures
            final(self).admin == old(self).admin,
            !self_admin_signed(*old(self), env) ==> r == Err::<(), Error>(admin_error(*old(self), env))
                && final(self).agents@ == old(self).agents@,
            self_admin_signed(*old(self), env) && old(self).scopes_of(agent) is None ==> r == Err::<
                (),
                Error,
            >(Error::Unauthorized) && final(self).agents@ == old(self).agents@,
            self_admin_signed(*old(self), env) && old(self).scopes_of(agent) is Some ==> r is Ok
                && forall|a: Address| #[trigger]
                final(self).scopes_of(a) == if a.key@ == agent.key@ {
                    Some(scopes)
                } else {
                    old(self).scopes_of(a)
                },
    {
        self.require_admin(env)?;
        if self.find_scopes(&agent).is_none() {
            return Err(Error::Unauthorized);
        }
        self.put_entry(agent, scopes);
        Ok(())
    }

    /// Removes `agent` from the allow-list. Admin only.
    pub fn revoke_agent(&mut self, env: &Env, agent: Address) -> (r: Result<(), Error>)
        ensures
            final(self).admin == old(self).admin,
            r is Ok <==> self_admin_signed(*old(self), env),
            r is Err ==> final(self).agents@ == old(self).agents@ && r == Err::<(), Error>(
                admin_error(*old(self), env),
            ),
            r is Ok ==> forall|a: Address| #[trigger]
                final(self).scopes_of(a) == if a.key@ == agent.key@ {
                    None
                } else {
                    old(self).scopes_of(a)
                },
    {
        self.require_admin(env)?;
        self.remove_entries(&agent.key);
        Ok(())
    }

    /// Whether `agent` is registered.
    pub fn is_authorized(&self, agent: Address) -> (r: bool)
        ensures
            r == self.scopes_of(agent) is Some,
    {
        self.find_scopes(&agent).is_some()
    }

    /// Fails unless `agent` is registered.
    pub fn require_authorized(&self, agent: Address) -> (r: Result<(), Error>)
        ensures
            r is Ok <==> self.scopes_of(agent) is Some,
            r is Err ==> r == Err::<(), Error>(Error::Unauthorized),
    {
        if self.is_authorized(agent) {
            Ok(())
        } else {
            Err(Error::Unauthorized)
        }
    }

    /// Whether `agent` holds `scope`.
    pub fn has_scope(&self, agent: Address, scope: Scope) -> (r: bool)
        ensures
            r == match self.scopes_of(agent) {
                Some(mask) => mask & scope.spec_bit() != 0,
                None => false,
            },
    {
        match self.find_scopes(&agent) {
            Some(mask) => mask & scope.bit() != 0,
            None => false,
        }
    }

    /// Fails unless the invocation is signed by `agent` and `agent` holds
    /// `scope`.
    pub fn require_scope(&self, env: &Env, agent: Address, scope: Scope) -> (r: Result<(), Error>)
        ensures
            !env.authorizes(agent) ==> r == Err::<(), Error>(Error::Unauthorized),
            env.authorizes(agent) ==> (r is Ok <==> match self.scopes_of(agent) {
                Some(mask) => mask & scope.spec_bit() != 0,
                None => false,
            }),
            env.authorizes(agent) && r is Err ==> r == Err::<(), Error>(Error::InvalidScope),
    {
        if !env.require_auth(&agent) {
            return Err(Error::Unauthorized);
        }
        if !self.has_scope(agent, scope) {
            return Err(Error::InvalidScope);
        }
        Ok(())
    }
}

/// The registry has an admin and the invocation carries its signature.
pub open spec fn self_admin_signed(reg: AgentRegistry, env: &Env) -> bool {
    match reg.admin {
        Some(a) => env.authorizes(a),
        None => false,
    }
}

/// Why an admin-only call is refused.
pub open spec fn admin_error(reg: AgentRegistry, env: &Env) -> Error {
    match reg.admin {
        Some(_) => Error::Unauthorized,
        None => Error::NotInitialized,
    }
}

} // verus!
