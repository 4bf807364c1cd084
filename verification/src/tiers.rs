use std::collections::HashMap;
use vstd::prelude::*;

use crate::pairs::{export_map, import_map, keys_distinct, pairs_map};
use crate::types::TierPolicy;

verus! {

broadcast use vstd::std_specs::hash::group_hash_axioms;

/// The tier value that stands for "any tier" in a policy key.
pub const TIER_WILDCARD: u32 = 0xffff_ffffu32;

/// The key under which the policy for a (sender tier, receiver tier) pair is
/// stored: the sender tier in the high 32 bits, the receiver tier in the low.
pub open spec fn tier_key(from_tier: u32, to_tier: u32) -> u64 {
    (from_tier as int * 0x1_0000_0000 + to_tier as int) as u64
}

/// Distinct tier pairs have distinct keys.
pub proof fn lemma_tier_key_injective(f1: u32, t1: u32, f2: u32, t2: u32)
    ensures
        tier_key(f1, t1) == tier_key(f2, t2) ==> f1 == f2 && t1 == t2,
{
    assert(f1 as int * 0x1_0000_0000 + t1 as int <= u64::MAX);
    assert(f2 as int * 0x1_0000_0000 + t2 as int <= u64::MAX);
    if f1 < f2 {
        assert(f1 as int * 0x1_0000_0000 + t1 < f2 as int * 0x1_0000_0000);
    }
    if f2 < f1 {
        assert(f2 as int * 0x1_0000_0000 + t2 < f1 as int * 0x1_0000_0000);
    }
}

/// The policy stored under a key, if any.
pub open spec fn policy_at(m: Map<u64, TierPolicy>, key: u64) -> Option<TierPolicy> {
    if m.contains_key(key) {
        Some(m[key])
    } else {
        None
    }
}

/// The policy that governs a transfer from `from_tier` to `to_tier`: the exact
/// pair first, then the sender tier with any receiver, then any sender with
/// the receiver tier, then the pair of wildcards.
pub open spec fn governing_policy(m: Map<u64, TierPolicy>, from_tier: u32, to_tier: u32) -> Option<
    TierPolicy,
> {
    if m.contains_key(tier_key(from_tier, to_tier)) {
        Some(m[tier_key(from_tier, to_tier)])
    } else if m.contains_key(tier_key(from_tier, TIER_WILDCARD)) {
        Some(m[tier_key(from_tier, TIER_WILDCARD)])
    } else if m.contains_key(tier_key(TIER_WILDCARD, to_tier)) {
        Some(m[tier_key(TIER_WILDCARD, to_tier)])
    } else {
        policy_at(m, tier_key(TIER_WILDCARD, TIER_WILDCARD))
    }
}

/// Tier-pair policies, keyed by `tier_key`.
pub struct TierPolicyTable {
    policies: HashMap<u64, TierPolicy>,
}

impl View for TierPolicyTable {
    type V = Map<u64, TierPolicy>;

    closed spec fn view(&self) -> Map<u64, TierPolicy> {
        self.policies@
    }
}

impl TierPolicyTable {
    pub fn new() -> (t: Self)
        ensures
            t@ == Map::<u64, TierPolicy>::empty(),
    {
        TierPolicyTable { policies: HashMap::new() }
    }

    fn key(from_tier: u32, to_tier: u32) -> (k: u64)
        ensures
            k == tier_key(from_tier, to_tier),
    {
        (from_tier as u64) * 0x1_0000_0000u64 + (to_tier as u64)
    }

    pub fn len(&self) -> (n: usize)
        ensures
            n == self@.len(),
    {
        self.policies.len()
    }

    /// Stores `policy` for the pair, replacing any earlier one.
    pub fn set(&mut self, from_tier: u32, to_tier: u32, policy: TierPolicy)
        ensures
            final(self)@ == old(self)@.insert(tier_key(from_tier, to_tier), policy),
    {
        let k = Self::key(from_tier, to_tier);
        self.policies.insert(k, policy);
    }

    /// Stores `policy` under `key` unless a policy is stored there already;
    /// returns whether it did.
    pub fn insert_new(&mut self, key: u64, policy: TierPolicy) -> (added: bool)
        ensures
            added == !old(self)@.contains_key(key),
            final(self)@ == (if added {
                old(self)@.insert(key, policy)
            } else {
                old(self)@
            }),
    {
        if self.policies.contains_key(&key) {
            return false;
        }
        self.policies.insert(key, policy);
        true
    }

    /// The table a list of (key, policy) pairs stands for, or `None` where a
    /// key occurs twice.
    pub fn from_pairs(v: &Vec<(u64, TierPolicy)>) -> (r: Option<Self>)
        ensures
            r is Some <==> keys_distinct(v@),
            r matches Some(t) ==> t@ == pairs_map(v@),
    {
        match import_map(v) {
            Some(policies) => Some(TierPolicyTable { policies }),
            None => None,
        }
    }

    /// The stored policies as (key, policy) pairs, in no particular order.
    pub fn to_pairs(&self) -> (r: Vec<(u64, TierPolicy)>)
        ensures
            keys_distinct(r@),
            pairs_map(r@) == self@,
            r@.len() == self@.len(),
    {
        export_map(&self.policies)
    }

    /// The policy stored for exactly this pair.
    pub fn get(&self, from_tier: u32, to_tier: u32) -> (r: Option<TierPolicy>)
        ensures
            r == policy_at(self@, tier_key(from_tier, to_tier)),
    {
        let k = Self::key(from_tier, to_tier);
        match self.policies.get(&k) {
            Some(p) => Some(*p),
            None => None,
        }
    }

    /// The policy that governs a transfer between the two tiers.
    pub fn governing(&self, from_tier: u32, to_tier: u32) -> (r: Option<TierPolicy>)
        ensures
            r == governing_policy(self@, from_tier, to_tier),
    {
        let exact = self.get(from_tier, to_tier);
        if exact.is_some() {
            return exact;
        }
        let from_any = self.get(from_tier, TIER_WILDCARD);
        if from_any.is_some() {
            return from_any;
        }
        let any_to = self.get(TIER_WILDCARD, to_tier);
        if any_to.is_some() {
            return any_to;
        }
        self.get(TIER_WILDCARD, TIER_WILDCARD)
    }
}

} // verus!
