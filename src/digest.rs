use vstd::prelude::*;

use crate::types::Address;

verus! {

/// The SHA-256 digest of a byte string.
pub uninterp spec fn sha256_of(data: Seq<u8>) -> Seq<u8>;

/// Relies on soroban_sdk's `Crypto::sha256`, the host's SHA-256 primitive,
/// called on a fresh host environment: 32 bytes that depend on the input
/// bytes alone. The host charges the hash to its default budget (10^8 CPU
/// instructions) and panics when that runs out; inputs are kept small.
#[verifier::external_body]
pub(crate) fn sha256(data: &Vec<u8>) -> (r: [u8; 32])
    requires
        data@.len() <= 1024,
    ensures
        r@ == sha256_of(data@),
{
    let env = soroban_sdk::Env::default();
    let bytes = soroban_sdk::Bytes::from_slice(&env, data.as_slice());
    env.crypto().sha256(&bytes).to_array()
}

/// The last `n` base-256 digits of `v`, most significant first.
pub open spec fn be_bytes(v: nat, n: nat) -> Seq<u8>
    decreases n,
{
    if n == 0 {
        Seq::empty()
    } else {
        be_bytes(v / 256, (n - 1) as nat).push((v % 256) as u8)
    }
}

/// The canonical encoding of a subscription's economic terms: the merchant's
/// 32-byte key, then the amount (16 bytes, two's complement), the frequency
/// (8 bytes) and the spending cap (16 bytes, two's complement), all big-endian.
pub open spec fn terms_encoding(merchant: Address, amount: i128, frequency: u64, spending_cap: i128) -> Seq<u8> {
    merchant.key@ + be_bytes((#[verifier::truncate] (amount as u128)) as nat, 16) + be_bytes(frequency as nat, 8) + be_bytes(
        (#[verifier::truncate] (spending_cap as u128)) as nat,
        16,
    )
}

/// The tamper-evidence digest of a subscription's economic terms.
pub open spec fn terms_digest(merchant: Address, amount: i128, frequency: u64, spending_cap: i128) -> Seq<u8> {
    sha256_of(terms_encoding(merchant, amount, frequency, spending_cap))
}

/// Appends the last `n` base-256 digits of `v` to `buf`, most significant first.
pub(crate) fn push_be(buf: &mut Vec<u8>, v: u128, n: usize)
    ensures
        final(buf)@ == old(buf)@ + be_bytes(v as nat, n as nat),
    decreases n,
{
    if n > 0 {
        push_be(buf, v / 256, n - 1);
        buf.push((v % 256) as u8);
        assert(final(buf)@ =~= old(buf)@ + be_bytes(v as nat, n as nat));
    }
}

/// Appends the 32-byte key of `account` to `buf`.
pub(crate) fn append_key(buf: &mut Vec<u8>, account: &Address)
    ensures
        final(buf)@ == old(buf)@ + account.key@,
{
    let ghost start = buf@;
    let mut i: usize = 0;
    while i < 32
        invariant
            0 <= i <= 32,
            account.key@.len() == 32,
            buf@ == start + account.key@.subrange(0, i as int),
        decreases 32 - i,
    {
        buf.push(account.key[i]);
        i = i + 1;
        assert(buf@ =~= start + account.key@.subrange(0, i as int));
    }
    assert(account.key@.subrange(0, 32) =~= account.key@);
}

/// Builds the canonical encoding of the terms.
pub fn encode_terms(merchant: &Address, amount: i128, frequency: u64, spending_cap: i128) -> (r: Vec<u8>)
    ensures
        r@ == terms_encoding(*merchant, amount, frequency, spending_cap),
{
    let mut buf: Vec<u8> = Vec::new();
    append_key(&mut buf, merchant);
    assert(buf@ =~= merchant.key@);
    push_be(&mut buf, amount as u128, 16);
    push_be(&mut buf, frequency as u128, 8);
    push_be(&mut buf, spending_cap as u128, 16);
    buf
}

/// Computes the tamper-evidence digest of a subscription's economic terms.
pub fn integrity_digest(merchant: &Address, amount: i128, frequency: u64, spending_cap: i128) -> (r: [u8; 32])
    ensures
        r@ == terms_digest(*merchant, amount, frequency, spending_cap),
{
    let encoded = encode_terms(merchant, amount, frequency, spending_cap);
    proof {
        lemma_be_bytes_len((#[verifier::truncate] (amount as u128)) as nat, 16);
        lemma_be_bytes_len(frequency as nat, 8);
        lemma_be_bytes_len((#[verifier::truncate] (spending_cap as u128)) as nat, 16);
        assert(merchant.key@.len() == 32);
    }
    sha256(&encoded)
}

/// `256` to the power `n`.
pub open spec fn pow256(n: nat) -> nat
    decreases n,
{
    if n == 0 {
        1
    } else {
        256 * pow256((n - 1) as nat)
    }
}

pub proof fn lemma_be_bytes_len(v: nat, n: nat)
    ensures
        be_bytes(v, n).len() == n,
    decreases n,
{
    if n > 0 {
        lemma_be_bytes_len(v / 256, (n - 1) as nat);
    }
}

/// Below `256^n`, distinct values have distinct `n`-byte encodings.
pub proof fn lemma_be_bytes_injective(a: nat, b: nat, n: nat)
    requires
        a < pow256(n),
        b < pow256(n),
        be_bytes(a, n) == be_bytes(b, n),
    ensures
        a == b,
    decreases n,
{
    if n > 0 {
        let m = (n - 1) as nat;
        assert(be_bytes(a, n).last() == (a % 256) as u8);
        assert(be_bytes(b, n).last() == (b % 256) as u8);
        assert(be_bytes(a, n).drop_last() =~= be_bytes(a / 256, m));
        assert(be_bytes(b, n).drop_last() =~= be_bytes(b / 256, m));
        assert(a / 256 < pow256(m)) by (nonlinear_arith)
            requires
                a < 256 * pow256(m),
        ;
        assert(b / 256 < pow256(m)) by (nonlinear_arith)
            requires
                b < 256 * pow256(m),
        ;
        lemma_be_bytes_injective(a / 256, b / 256, m);
    }
}

pub proof fn lemma_u128_fits()
    ensures
        pow256(8) == 0x1_0000_0000_0000_0000,
        pow256(16) == 0x1_0000_0000_0000_0000_0000_0000_0000_0000,
{
    reveal_with_fuel(pow256, 17);
}

/// Distinct terms have distinct encodings, so the digests of distinct terms
/// differ unless SHA-256 collides.
pub proof fn lemma_terms_encoding_injective(
    m1: Address,
    a1: i128,
    f1: u64,
    c1: i128,
    m2: Address,
    a2: i128,
    f2: u64,
    c2: i128,
)
    requires
        terms_encoding(m1, a1, f1, c1) == terms_encoding(m2, a2, f2, c2),
    ensures
        m1.key@ == m2.key@,
        a1 == a2,
        f1 == f2,
        c1 == c2,
{
    let e1 = terms_encoding(m1, a1, f1, c1);
    let e2 = terms_encoding(m2, a2, f2, c2);
    let ea1 = be_bytes((#[verifier::truncate] (a1 as u128)) as nat, 16);
    let ea2 = be_bytes((#[verifier::truncate] (a2 as u128)) as nat, 16);
    let ef1 = be_bytes(f1 as nat, 8);
    let ef2 = be_bytes(f2 as nat, 8);
    let ec1 = be_bytes((#[verifier::truncate] (c1 as u128)) as nat, 16);
    let ec2 = be_bytes((#[verifier::truncate] (c2 as u128)) as nat, 16);
    lemma_be_bytes_len((#[verifier::truncate] (a1 as u128)) as nat, 16);
    lemma_be_bytes_len((#[verifier::truncate] (a2 as u128)) as nat, 16);
    lemma_be_bytes_len(f1 as nat, 8);
    lemma_be_bytes_len(f2 as nat, 8);
    lemma_be_bytes_len((#[verifier::truncate] (c1 as u128)) as nat, 16);
    lemma_be_bytes_len((#[verifier::truncate] (c2 as u128)) as nat, 16);
    assert(m1.key@.len() == 32);
    assert(m2.key@.len() == 32);
    assert(e1.subrange(0, 32) =~= m1.key@);
    assert(e2.subrange(0, 32) =~= m2.key@);
    assert(e1.subrange(32, 48) =~= ea1);
    assert(e2.subrange(32, 48) =~= ea2);
    assert(e1.subrange(48, 56) =~= ef1);
    assert(e2.subrange(48, 56) =~= ef2);
    assert(e1.subrange(56, 72) =~= ec1);
    assert(e2.subrange(56, 72) =~= ec2);
    lemma_u128_fits();
    lemma_be_bytes_injective((#[verifier::truncate] (a1 as u128)) as nat, (#[verifier::truncate] (a2 as u128)) as nat, 16);
    lemma_be_bytes_injective(f1 as nat, f2 as nat, 8);
    lemma_be_bytes_injective((#[verifier::truncate] (c1 as u128)) as nat, (#[verifier::truncate] (c2 as u128)) as nat, 16);
    assert((#[verifier::truncate] (a1 as u128)) == (#[verifier::truncate] (a2 as u128)) ==> a1 == a2) by (bit_vector);
    assert((#[verifier::truncate] (c1 as u128)) == (#[verifier::truncate] (c2 as u128)) ==> c1 == c2) by (bit_vector);
}

} // verus!
