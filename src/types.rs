use vstd::prelude::*;

verus! {

/// An account identifier: the 32-byte key of an account or of a contract.
#[derive(Clone, Copy, Debug)]
pub struct Address {
    pub key: [u8; 32],
}

/// Byte-for-byte comparison of two 32-byte values.
pub fn bytes32_equal(a: &[u8; 32], b: &[u8; 32]) -> (r: bool)
    ensures
        r == (a@ == b@),
{
    let mut i: usize = 0;
    while i < 32
        invariant
            0 <= i <= 32,
            a@.len() == 32,
            b@.len() == 32,
            forall|j: int| 0 <= j < i ==> a@[j] == b@[j],
        decreases 32 - i,
    {
        if a[i] != b[i] {
            return false;
        }
        i = i + 1;
    }
    assert(a@ =~= b@);
    true
}

impl Address {
    pub fn from_key(key: [u8; 32]) -> (r: Address)
        ensures
            r.key@ == key@,
    {
        Address { key }
    }
}

impl PartialEq for Address {
    fn eq(&self, other: &Address) -> (r: bool) {
        bytes32_equal(&self.key, &other.key)
    }
}

impl vstd::std_specs::cmp::PartialEqSpecImpl for Address {
    open spec fn obeys_eq_spec() -> bool {
        true
    }

    open spec fn eq_spec(&self, other: &Address) -> bool {
        self.key@ == other.key@
    }
}

impl Eq for Address {}

/// What the ledger host hands to one invocation: the current height, the
/// wall-clock time, and the accounts whose signatures accompany the call.
#[derive(Debug)]
pub struct Env {
    /// Monotonic ledger height; all lock and cooldown arithmetic uses it.
    pub sequence: u32,
    /// Epoch seconds, used for audit timestamps only.
    pub timestamp: u64,
    /// Accounts that authorized this invocation.
    pub signers: Vec<Address>,
}

impl Env {
    pub fn new(sequence: u32, timestamp: u64) -> (r: Env)
        ensures
            r.sequence == sequence,
            r.timestamp == timestamp,
            r.signers@.len() == 0,
    {
        Env { sequence, timestamp, signers: Vec::new() }
    }

    /// Attaches a signature proof for `account` to the invocation.
    pub fn authorize(&mut self, account: Address)
        ensures
            final(self).sequence == old(self).sequence,
            final(self).timestamp == old(self).timestamp,
            final(self).signers@ == old(self).signers@.push(account),
            final(self).authorizes(account),
    {
        self.signers.push(account);
        assert(self.signers@[self.signers@.len() - 1].key@ == account.key@);
    }

    /// True when some signer of the invocation has the key of `account`.
    pub open spec fn authorizes(&self, account: Address) -> bool {
        exists|i: int| 0 <= i < self.signers@.len() && #[trigger] self.signers@[i].key@ == account.key@
    }

    /// The host's authentication primitive: does the invocation carry a
    /// signature of `account`?
    pub fn require_auth(&self, account: &Address) -> (r: bool)
        ensures
            r == self.authorizes(*account),
    {
        let mut i: usize = 0;
        while i < self.signers.len()
            invariant
                0 <= i <= self.signers@.len(),
                forall|j: int| 0 <= j < i ==> self.signers@[j].key@ != account.key@,
            decreases self.signers@.len() - i,
        {
            if bytes32_equal(&self.signers[i].key, &account.key) {
                return true;
            }
            i = i + 1;
        }
        false
    }
}

} // verus!
