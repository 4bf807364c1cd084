use vstd::prelude::*;

use crate::engine::{migration_views, pending_view, record_views};
use crate::model::EngineView;
use crate::pairs::{keys_distinct, lemma_pairs_map_len, pairs_map};
use crate::risk::owned_pairs;
use crate::types::{
    ComplianceRules, MigrationRecord, PendingRulesProposal, PolicyRecord, RiskConfig, TierPolicy,
};

verus! {

/// The state of an engine laid out as plain lists, for storage between
/// calls. Holders are (account, holding start) pairs, tier policies are keyed
/// by `tier_key`, and risk scores are (jurisdiction, score) pairs.
pub struct EngineParts {
    pub admin: u64,
    pub kyc_registry: u64,
    pub activation_delay: u64,
    pub rules: ComplianceRules,
    pub pending: Option<PendingRulesProposal>,
    pub history: Vec<PolicyRecord>,
    pub blocklist: Vec<u64>,
    pub allowlist: Vec<u64>,
    pub holders: Vec<(u64, u64)>,
    pub tier_policies: Vec<(u64, TierPolicy)>,
    pub risk_config: Option<RiskConfig>,
    pub risk_scores: Vec<(String, u32)>,
    pub schema_version: u32,
    pub migrations: Vec<MigrationRecord>,
}

impl EngineParts {
    /// Whether these lists describe a reachable engine state: the history is
    /// numbered from 0 and ends with the rules in force, no list holds an
    /// entry or a key twice, and every count fits its `u32`.
    pub open spec fn consistent(&self) -> bool {
        &&& 1 <= self.history@.len() <= u32::MAX
        &&& forall|i: int|
            0 <= i < self.history@.len() ==> #[trigger] self.history@[i].version == i
        &&& self.history@.last().rules == self.rules
        &&& self.blocklist@.no_duplicates()
        &&& self.blocklist@.len() <= u32::MAX
        &&& self.allowlist@.no_duplicates()
        &&& self.allowlist@.len() <= u32::MAX
        &&& keys_distinct(self.holders@)
        &&& self.holders@.len() <= u32::MAX
        &&& keys_distinct(self.tier_policies@)
        &&& keys_distinct(owned_pairs(self.risk_scores@))
        &&& self.migrations@.len() <= u32::MAX
    }

    /// The engine state these lists describe.
    pub open spec fn state(&self) -> EngineView {
        EngineView {
            admin: self.admin,
            kyc_registry: self.kyc_registry,
            activation_delay: self.activation_delay,
            rules: self.rules,
            pending: pending_view(self.pending),
            history: record_views(self.history@),
            blocklist: self.blocklist@,
            allowlist: self.allowlist@,
            holders: pairs_map(self.holders@),
            tier_policies: pairs_map(self.tier_policies@),
            risk_config: self.risk_config,
            risk_scores: pairs_map(owned_pairs(self.risk_scores@)),
            schema_version: self.schema_version,
            migrations: migration_views(self.migrations@),
        }
    }
}

/// Consistent parts describe a valid state.
pub proof fn law_consistent_parts_describe_valid_state(p: EngineParts)
    requires
        p.consistent(),
    ensures
        p.state().valid(),
{
    let s = p.state();
    lemma_pairs_map_len(p.holders@);
    lemma_pairs_map_len(p.tier_policies@);
    assert forall|i: int| 0 <= i < s.history.len() implies #[trigger] s.history[i].version == i by {
        assert(s.history[i] == p.history@[i]@);
    }
    assert(s.history.last() == p.history@.last()@);
}

} // verus!
