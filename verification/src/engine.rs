use std::collections::HashMap;
use vstd::prelude::*;

use crate::address_set::{page_of, AddressSet};
use crate::model::{
    initial_state, kyc_failure, kyc_view, EngineView, HISTORY_PAGE_LIMIT, INITIAL_SCHEMA_VERSION,
    MAX_MIN_HOLDING_PERIOD,
};
use crate::pairs::{export_map, import_map};
use crate::risk::RiskScoreTable;
use crate::snapshot::{law_consistent_parts_describe_valid_state, EngineParts};
use crate::tiers::{policy_at, tier_key, TierPolicyTable};
use crate::types::{
    ComplianceError, ComplianceRules, DenyReason, KycRecord, KycStatus, MigrationRecord,
    MigrationView, PendingRulesProposal, PendingView, PolicyChangeKind, PolicyRecord,
    PolicyRecordView, RiskConfig, TierPolicy, TransferDecision,
};

verus! {

broadcast use vstd::std_specs::hash::group_hash_axioms;

/// What an operation that may be refused did: the new state where it
/// succeeded, the error where it did not.
pub open spec fn outcome(res: Result<(), ComplianceError>, after: EngineView) -> Result<
    EngineView,
    ComplianceError,
> {
    match res {
        Ok(_) => Ok(after),
        Err(e) => Err(e),
    }
}

/// The view of an optional pending proposal.
pub open spec fn pending_view(p: Option<PendingRulesProposal>) -> Option<PendingView> {
    match p {
        Some(q) => Some(q@),
        None => None,
    }
}

/// The views of a list of policy records.
pub open spec fn record_views(s: Seq<PolicyRecord>) -> Seq<PolicyRecordView> {
    s.map_values(|r: PolicyRecord| r@)
}

/// The views of a list of migration records.
pub open spec fn migration_views(s: Seq<MigrationRecord>) -> Seq<MigrationView> {
    s.map_values(|m: MigrationRecord| m@)
}

/// The compliance engine of a security token: the rules every transfer is
/// checked against, the lists and holder register those rules read, and the
/// history of every policy change.
pub struct ComplianceEngine {
    admin: u64,
    kyc_registry: u64,
    activation_delay: u64,
    rules: ComplianceRules,
    pending: Option<PendingRulesProposal>,
    history: Vec<PolicyRecord>,
    blocklist: AddressSet,
    allowlist: AddressSet,
    holders: HashMap<u64, u64>,
    tier_policies: TierPolicyTable,
    risk_config: Option<RiskConfig>,
    risk_scores: RiskScoreTable,
    schema_version: u32,
    migrations: Vec<MigrationRecord>,
}

impl View for ComplianceEngine {
    type V = EngineView;

    closed spec fn view(&self) -> EngineView {
        EngineView {
            admin: self.admin,
            kyc_registry: self.kyc_registry,
            activation_delay: self.activation_delay,
            rules: self.rules,
            pending: pending_view(self.pending),
            history: record_views(self.history@),
            blocklist: self.blocklist@,
            allowlist: self.allowlist@,
            holders: self.holders@,
            tier_policies: self.tier_policies@,
            risk_config: self.risk_config,
            risk_scores: self.risk_scores.scores(),
            schema_version: self.schema_version,
            migrations: migration_views(self.migrations@),
        }
    }
}

impl ComplianceEngine {
    /// The internal indexes agree with the lists, and the state is valid.
    pub closed spec fn wf(&self) -> bool {
        &&& self.blocklist.wf()
        &&& self.allowlist.wf()
        &&& self.risk_scores.wf()
        &&& self@.valid()
    }

    /// Every engine this module builds is in a valid state, so the laws over
    /// valid states apply to it.
    pub proof fn law_engine_state_is_valid(&self)
        requires
            self.wf(),
        ensures
            self@.valid(),
    {
    }

    /// A new engine with default rules, empty lists, and version 0 of the
    /// policy history recorded at `now`.
    pub fn initialize(admin: u64, kyc_registry: u64, activation_delay: u64, now: u64) -> (e: Self)
        ensures
            e.wf(),
            e@ == initial_state(admin, kyc_registry, activation_delay, now),
    {
        let rules = ComplianceRules {
            max_transfer_amount: 0,
            min_holding_period: 0,
            max_holders: 0,
            require_same_jurisdiction: false,
            paused: false,
            allowlist_mode: false,
            max_holding_period: 0,
        };
        let mut history: Vec<PolicyRecord> = Vec::new();
        history.push(
            PolicyRecord {
                version: 0,
                change_kind: PolicyChangeKind::ImmediateRuleUpdate,
                rules,
                activation_timestamp: now,
                description: String::new(),
            },
        );
        let e = ComplianceEngine {
            admin,
            kyc_registry,
            activation_delay,
            rules,
            pending: None,
            history,
            blocklist: AddressSet::new(),
            allowlist: AddressSet::new(),
            holders: HashMap::new(),
            tier_policies: TierPolicyTable::new(),
            risk_config: None,
            risk_scores: RiskScoreTable::new(),
            schema_version: INITIAL_SCHEMA_VERSION,
            migrations: Vec::new(),
        };
        proof {
            assert(e@.history =~= initial_state(admin, kyc_registry, activation_delay, now).history);
            assert(e@.migrations =~= Seq::<MigrationView>::empty());
            assert(e@ =~= initial_state(admin, kyc_registry, activation_delay, now));
        }
        e
    }

    /// Appends a record of the rules in force to the history.
    fn push_record(&mut self, kind: PolicyChangeKind, now: u64, description: String)
        requires
            old(self)@.history.len() < u32::MAX,
            forall|i: int|
                0 <= i < old(self)@.history.len() ==> #[trigger] old(self)@.history[i].version == i,
        ensures
            final(self)@ == old(self)@.record(kind, now, description@),
            final(self).blocklist == old(self).blocklist,
            final(self).allowlist == old(self).allowlist,
            final(self).risk_scores == old(self).risk_scores,
    {
        let version = self.history.len() as u32;
        let ghost old_history = self.history@;
        self.history.push(
            PolicyRecord {
                version,
                change_kind: kind,
                rules: self.rules,
                activation_timestamp: now,
                description,
            },
        );
        proof {
            assert(record_views(self.history@) =~= record_views(old_history).push(
                self.history@.last()@,
            ));
        }
    }

    /// The reason `r` may not come into force now, if any.
    fn rules_error(&self, r: &ComplianceRules) -> (e: Option<ComplianceError>)
        requires
            self.wf(),
        ensures
            e == self@.rules_error(*r),
    {
        if r.min_holding_period > MAX_MIN_HOLDING_PERIOD {
            Some(ComplianceError::MinHoldingPeriodExceeds365Days)
        } else if r.max_transfer_amount < 0 {
            Some(ComplianceError::NegativeMaxTransferAmount)
        } else if r.max_holders != 0 && (r.max_holders as usize) < self.holders.len() {
            Some(ComplianceError::MaxHoldersBelowCurrentCount)
        } else if r.paused != self.rules.paused {
            Some(ComplianceError::PauseFlagMismatch)
        } else {
            None
        }
    }

    /// Puts `r` in force at once and records an immediate rule update.
    pub fn set_rules(&mut self, r: ComplianceRules, now: u64) -> (res: Result<(), ComplianceError>)
        requires
            old(self).wf(),
            old(self)@.history.len() < u32::MAX,
        ensures
            final(self).wf(),
            old(self)@.after_set_rules(r, now) == outcome(res, final(self)@),
            res is Err ==> final(self)@ == old(self)@,
    {
        match self.rules_error(&r) {
            Some(e) => Err(e),
            None => {
                self.rules = r;
                self.push_record(PolicyChangeKind::ImmediateRuleUpdate, now, String::new());
                Ok(())
            },
        }
    }

    /// Proposes `r`, replacing any earlier proposal; it may be activated once
    /// `activation_delay` seconds have passed.
    pub fn propose_rules(&mut self, r: ComplianceRules, description: String, now: u64) -> (res: Result<
        (),
        ComplianceError,
    >)
        requires
            old(self).wf(),
        ensures
            final(self).wf(),
            old(self)@.after_propose_rules(r, description@, now) == outcome(res, final(self)@),
            res is Err ==> final(self)@ == old(self)@,
    {
        if description.as_str().is_empty() {
            return Err(ComplianceError::EmptyDescription);
        }
        match self.rules_error(&r) {
            Some(e) => Err(e),
            None => {
                let activate_at = now.saturating_add(self.activation_delay);
                self.pending = Some(
                    PendingRulesProposal { rules: r, description, proposed_at: now, activate_at },
                );
                Ok(())
            },
        }
    }

    /// Puts the pending proposal in force, once its activation time has come,
    /// and records a delayed rule activation.
    pub fn activate_rules(&mut self, now: u64) -> (res: Result<(), ComplianceError>)
        requires
            old(self).wf(),
            old(self)@.history.len() < u32::MAX,
        ensures
            final(self).wf(),
            old(self)@.after_activate_rules(now) == outcome(res, final(self)@),
            res is Err ==> final(self)@ == old(self)@,
    {
        let (proposed, description) = match &self.pending {
            None => {
                return Err(ComplianceError::NoRulesPending);
            },
            Some(p) => {
                if now < p.activate_at {
                    return Err(ComplianceError::TooEarlyToActivate);
                }
                (p.rules, p.description.clone())
            },
        };
        match self.rules_error(&proposed) {
            Some(e) => Err(e),
            None => {
                self.rules = proposed;
                self.pending = None;
                self.push_record(PolicyChangeKind::DelayedRuleActivation, now, description);
                Ok(())
            },
        }
    }

    /// Halts all transfers and records a pause.
    pub fn pause(&mut self, now: u64)
        requires
            old(self).wf(),
            old(self)@.history.len() < u32::MAX,
        ensures
            final(self).wf(),
            final(self)@ == old(self)@.after_pause(now),
    {
        self.rules.paused = true;
        self.push_record(PolicyChangeKind::Pause, now, String::new());
    }

    /// Resumes transfers and records an unpause.
    pub fn unpause(&mut self, now: u64)
        requires
            old(self).wf(),
            old(self)@.history.len() < u32::MAX,
        ensures
            final(self).wf(),
            final(self)@ == old(self)@.after_unpause(now),
    {
        self.rules.paused = false;
        self.push_record(PolicyChangeKind::Unpause, now, String::new());
    }

    /// Blocklists `a`; a new entry is recorded in the history, a repeated one
    /// changes nothing.
    pub fn add_to_blocklist(&mut self, a: u64, now: u64)
        requires
            old(self).wf(),
            old(self)@.history.len() < u32::MAX,
            old(self)@.blocklist.len() < u32::MAX,
        ensures
            final(self).wf(),
            final(self)@ == old(self)@.after_add_to_blocklist(a, now),
    {
        if self.blocklist.insert(a) {
            self.push_record(PolicyChangeKind::BlocklistAdd, now, String::new());
        }
    }

    /// Takes `a` off the blocklist; the last entry fills its slot. Removing
    /// an absent account changes nothing.
    pub fn remove_from_blocklist(&mut self, a: u64, now: u64)
        requires
            old(self).wf(),
            old(self)@.history.len() < u32::MAX,
        ensures
            final(self).wf(),
            final(self)@ == old(self)@.after_remove_from_blocklist(a, now),
    {
        if self.blocklist.remove(a) {
            self.push_record(PolicyChangeKind::BlocklistRemove, now, String::new());
        }
    }

    /// Allowlists `a`, unless it is blocklisted; a new entry is recorded in
    /// the history, a repeated one changes nothing.
    pub fn add_to_allowlist(&mut self, a: u64, now: u64) -> (res: Result<(), ComplianceError>)
        requires
            old(self).wf(),
            old(self)@.history.len() < u32::MAX,
            old(self)@.allowlist.len() < u32::MAX,
        ensures
            final(self).wf(),
            old(self)@.after_add_to_allowlist(a, now) == outcome(res, final(self)@),
            res is Err ==> final(self)@ == old(self)@,
    {
        if self.blocklist.contains(a) {
            return Err(ComplianceError::BlocklistedAddressOnAllowlist);
        }
        if self.allowlist.insert(a) {
            self.push_record(PolicyChangeKind::AllowlistAdd, now, String::new());
        }
        Ok(())
    }

    /// Takes `a` off the allowlist; the last entry fills its slot. Removing
    /// an absent account changes nothing.
    pub fn remove_from_allowlist(&mut self, a: u64, now: u64)
        requires
            old(self).wf(),
            old(self)@.history.len() < u32::MAX,
        ensures
            final(self).wf(),
            final(self)@ == old(self)@.after_remove_from_allowlist(a, now),
    {
        if self.allowlist.remove(a) {
            self.push_record(PolicyChangeKind::AllowlistRemove, now, String::new());
        }
    }

    /// Registers `a` as a holder from `now`; a registered holder keeps the
    /// time its holding began.
    pub fn register_holder(&mut self, a: u64, now: u64)
        requires
            old(self).wf(),
            old(self)@.holders.len() < u32::MAX,
        ensures
            final(self).wf(),
            final(self)@ == old(self)@.after_register_holder(a, now),
    {
        if !self.holders.contains_key(&a) {
            self.holders.insert(a, now);
        }
    }

    /// Takes `a` off the holder register.
    pub fn unregister_holder(&mut self, a: u64)
        requires
            old(self).wf(),
        ensures
            final(self).wf(),
            final(self)@ == old(self)@.after_unregister_holder(a),
    {
        self.holders.remove(&a);
    }

    /// Stores the policy for transfers from `from_tier` to `to_tier`
    /// (`TIER_WILDCARD` for any tier), unless its cap is negative.
    pub fn set_tier_policy(&mut self, from_tier: u32, to_tier: u32, policy: TierPolicy) -> (res:
        Result<(), ComplianceError>)
        requires
            old(self).wf(),
        ensures
            final(self).wf(),
            old(self)@.after_set_tier_policy(from_tier, to_tier, policy) == outcome(
                res,
                final(self)@,
            ),
            res is Err ==> final(self)@ == old(self)@,
    {
        if policy.max_transfer_amount < 0 {
            return Err(ComplianceError::NegativeTierTransferAmount);
        }
        self.tier_policies.set(from_tier, to_tier, policy);
        Ok(())
    }

    /// Turns jurisdiction risk scoring on with configuration `c`.
    pub fn set_risk_config(&mut self, c: RiskConfig)
        requires
            old(self).wf(),
        ensures
            final(self).wf(),
            final(self)@ == (EngineView { risk_config: Some(c), ..old(self)@ }),
    {
        self.risk_config = Some(c);
    }

    /// Records the risk score of a jurisdiction.
    pub fn set_jurisdiction_risk_score(&mut self, jurisdiction: String, score: u32)
        requires
            old(self).wf(),
        ensures
            final(self).wf(),
            final(self)@ == (EngineView {
                risk_scores: old(self)@.risk_scores.insert(jurisdiction@, score),
                ..old(self)@
            }),
    {
        self.risk_scores.set(jurisdiction, score);
    }

    /// Moves the storage schema one version up and logs the migration.
    pub fn migrate_schema(&mut self, to_version: u32, description: String, now: u64) -> (res: Result<
        (),
        ComplianceError,
    >)
        requires
            old(self).wf(),
            old(self)@.migrations.len() < u32::MAX,
        ensures
            final(self).wf(),
            old(self)@.after_migrate_schema(to_version, description@, now) == outcome(
                res,
                final(self)@,
            ),
            res is Err ==> final(self)@ == old(self)@,
    {
        if to_version == self.schema_version {
            return Err(ComplianceError::AlreadyAtSchemaVersion);
        }
        if self.schema_version == u32::MAX || to_version != self.schema_version + 1 {
            return Err(ComplianceError::MigrationVersionNotSequential);
        }
        let ghost old_migrations = self.migrations@;
        self.migrations.push(
            MigrationRecord {
                from_version: self.schema_version,
                to_version,
                migrated_at: now,
                description,
            },
        );
        self.schema_version = to_version;
        proof {
            assert(migration_views(self.migrations@) =~= migration_views(old_migrations).push(
                self.migrations@.last()@,
            ));
        }
        Ok(())
    }

    /// Whether the sender's holding is younger than the minimum holding period.
    fn holding_too_short(&self, from: u64, now: u64) -> (r: bool)
        requires
            self.wf(),
        ensures
            r == self@.holding_too_short(from, now),
    {
        if self.rules.min_holding_period == 0 {
            return false;
        }
        match self.holders.get(&from) {
            None => false,
            Some(since) => (now as u128) < (*since as u128) + (self.rules.min_holding_period as u128),
        }
    }

    /// Whether a receiver that is not yet a holder would exceed the holder limit.
    fn holder_limit_reached(&self, to: u64) -> (r: bool)
        requires
            self.wf(),
        ensures
            r == self@.holder_limit_reached(to),
    {
        self.rules.max_holders > 0 && !self.holders.contains_key(&to) && self.holders.len()
            >= self.rules.max_holders as usize
    }

    /// Whether the receiver has held for longer than the maximum holding period.
    fn held_too_long(&self, to: u64, now: u64) -> (r: bool)
        requires
            self.wf(),
        ensures
            r == self@.held_too_long(to, now),
    {
        if self.rules.max_holding_period == 0 {
            return false;
        }
        match self.holders.get(&to) {
            None => false,
            Some(since) => (now as u128) > (*since as u128) + (self.rules.max_holding_period as u128),
        }
    }

    /// Whether the rules ask for one jurisdiction and the records differ.
    fn jurisdictions_differ(&self, from_kyc: &Option<KycRecord>, to_kyc: &Option<KycRecord>) -> (r:
        bool)
        ensures
            r == self@.jurisdictions_differ(kyc_view(*from_kyc), kyc_view(*to_kyc)),
    {
        if !self.rules.require_same_jurisdiction {
            return false;
        }
        match (from_kyc, to_kyc) {
            (Some(f), Some(t)) => !(f.jurisdiction == t.jurisdiction),
            _ => false,
        }
    }

    /// The tier-pair policy violation of the transfer, if any.
    fn tier_failure(&self, from_kyc: &Option<KycRecord>, to_kyc: &Option<KycRecord>, amount: i128) -> (r:
        Option<DenyReason>)
        ensures
            r == self@.tier_failure(kyc_view(*from_kyc), kyc_view(*to_kyc), amount),
    {
        match (from_kyc, to_kyc) {
            (Some(f), Some(t)) => match self.tier_policies.governing(f.tier, t.tier) {
                None => None,
                Some(p) => if p.blocked {
                    Some(DenyReason::TierBlocked)
                } else if p.max_transfer_amount > 0 && amount > p.max_transfer_amount {
                    Some(DenyReason::TierAmountExceeded)
                } else if f.tier < p.min_from_tier {
                    Some(DenyReason::FromTierTooLow)
                } else if t.tier < p.min_to_tier {
                    Some(DenyReason::ToTierTooLow)
                } else {
                    None
                },
            },
            _ => None,
        }
    }

    /// The risk score of a jurisdiction under configuration `c`.
    fn risk_score(&self, jurisdiction: &String, c: RiskConfig) -> (r: u32)
        requires
            self.wf(),
        ensures
            r == self@.risk_score(jurisdiction@, c),
    {
        match self.risk_scores.get(jurisdiction) {
            Some(score) => score,
            None => c.default_score,
        }
    }

    /// The party whose jurisdiction scores above the limit, if scoring is on.
    fn risk_failure(&self, from_kyc: &Option<KycRecord>, to_kyc: &Option<KycRecord>) -> (r: Option<
        DenyReason,
    >)
        requires
            self.wf(),
        ensures
            r == self@.risk_failure(kyc_view(*from_kyc), kyc_view(*to_kyc)),
    {
        match self.risk_config {
            None => None,
            Some(c) => {
                if let Some(f) = from_kyc {
                    if self.risk_score(&f.jurisdiction, c) > c.max_score {
                        return Some(DenyReason::FromRiskTooHigh);
                    }
                }
                if let Some(t) = to_kyc {
                    if self.risk_score(&t.jurisdiction, c) > c.max_score {
                        return Some(DenyReason::ToRiskTooHigh);
                    }
                }
                None
            },
        }
    }

    /// The verdict on a transfer; with `require_kyc`, each party needs a
    /// standing KYC approval.
    fn evaluate_transfer_inner(
        &self,
        from: u64,
        to: u64,
        amount: i128,
        now: u64,
        from_kyc: &Option<KycRecord>,
        to_kyc: &Option<KycRecord>,
        require_kyc: bool,
    ) -> (d: TransferDecision)
        requires
            self.wf(),
        ensures
            d == self@.decide(from, to, amount, now, kyc_view(*from_kyc), kyc_view(*to_kyc), require_kyc),
    {
        if self.rules.paused {
            return TransferDecision::Deny(DenyReason::CompliancePaused);
        }
        if self.blocklist.contains(from) {
            return TransferDecision::Deny(DenyReason::FromBlocklisted);
        }
        if self.blocklist.contains(to) {
            return TransferDecision::Deny(DenyReason::ToBlocklisted);
        }
        if require_kyc {
            if let Some(reason) = check_kyc(from_kyc, now, true) {
                return TransferDecision::Deny(reason);
            }
            if let Some(reason) = check_kyc(to_kyc, now, false) {
                return TransferDecision::Deny(reason);
            }
        }
        if self.rules.allowlist_mode && !self.allowlist.contains(from) {
            return TransferDecision::Deny(DenyReason::FromNotAllowlisted);
        }
        if self.rules.allowlist_mode && !self.allowlist.contains(to) {
            return TransferDecision::Deny(DenyReason::ToNotAllowlisted);
        }
        if self.rules.max_transfer_amount > 0 && amount > self.rules.max_transfer_amount {
            return TransferDecision::Deny(DenyReason::AmountExceeded);
        }
        if self.holding_too_short(from, now) {
            return TransferDecision::Deny(DenyReason::HoldingPeriodNotMet);
        }
        if self.holder_limit_reached(to) {
            return TransferDecision::Deny(DenyReason::MaxHoldersReached);
        }
        if self.held_too_long(to, now) {
            return TransferDecision::Deny(DenyReason::HoldingPeriodExceeded);
        }
        if self.jurisdictions_differ(from_kyc, to_kyc) {
            return TransferDecision::Deny(DenyReason::JurisdictionMismatch);
        }
        if let Some(reason) = self.tier_failure(from_kyc, to_kyc, amount) {
            return TransferDecision::Deny(reason);
        }
        if let Some(reason) = self.risk_failure(from_kyc, to_kyc) {
            return TransferDecision::Deny(reason);
        }
        TransferDecision::Allow
    }

    /// The verdict on a transfer of `amount` from `from` to `to` at second
    /// `now`, given the KYC registry's records for the two parties: each
    /// party needs a standing KYC approval, and every rule is checked.
    pub fn evaluate_transfer(
        &self,
        from: u64,
        to: u64,
        amount: i128,
        now: u64,
        from_kyc: &Option<KycRecord>,
        to_kyc: &Option<KycRecord>,
    ) -> (d: TransferDecision)
        requires
            self.wf(),
        ensures
            d == self@.decide(from, to, amount, now, kyc_view(*from_kyc), kyc_view(*to_kyc), true),
    {
        self.evaluate_transfer_inner(from, to, amount, now, from_kyc, to_kyc, true)
    }

    /// Whether a transfer may go ahead. A party without a KYC record is not
    /// refused for that; the KYC data that is present is still used.
    pub fn can_transfer(
        &self,
        from: u64,
        to: u64,
        amount: i128,
        now: u64,
        from_kyc: &Option<KycRecord>,
        to_kyc: &Option<KycRecord>,
    ) -> (ok: bool)
        requires
            self.wf(),
        ensures
            ok == (self@.decide(from, to, amount, now, kyc_view(*from_kyc), kyc_view(*to_kyc), false)
                == TransferDecision::Allow),
    {
        let d = self.evaluate_transfer_inner(from, to, amount, now, from_kyc, to_kyc, false);
        match d {
            TransferDecision::Allow => true,
            TransferDecision::Deny(_) => false,
        }
    }
}

impl ComplianceEngine {
    pub fn admin(&self) -> (a: u64)
        ensures
            a == self@.admin,
    {
        self.admin
    }

    pub fn kyc_registry(&self) -> (k: u64)
        ensures
            k == self@.kyc_registry,
    {
        self.kyc_registry
    }

    pub fn activation_delay(&self) -> (d: u64)
        ensures
            d == self@.activation_delay,
    {
        self.activation_delay
    }

    /// The rules in force.
    pub fn get_rules(&self) -> (r: ComplianceRules)
        ensures
            r == self@.rules,
    {
        self.rules
    }

    /// The proposal waiting for activation, if any.
    pub fn get_pending_proposal(&self) -> (p: Option<PendingRulesProposal>)
        ensures
            pending_view(p) == self@.pending,
    {
        match &self.pending {
            Some(q) => Some(q.duplicate()),
            None => None,
        }
    }

    /// How many policy versions the history holds.
    pub fn policy_version_count(&self) -> (n: u32)
        requires
            self.wf(),
        ensures
            n == self@.history.len(),
    {
        self.history.len() as u32
    }

    /// Policy version `version`, if the history holds it.
    pub fn get_policy_version(&self, version: u32) -> (r: Option<PolicyRecord>)
        requires
            self.wf(),
        ensures
            match r {
                Some(rec) => version < self@.history.len() && rec@ == self@.history[version as int],
                None => version >= self@.history.len(),
            },
    {
        if (version as usize) < self.history.len() {
            let rec = self.history[version as usize].duplicate();
            assert(rec@ == self@.history[version as int]);
            Some(rec)
        } else {
            None
        }
    }

    /// The newest policy version.
    pub fn get_current_policy_version(&self) -> (r: PolicyRecord)
        requires
            self.wf(),
        ensures
            r@ == self@.current_record(),
    {
        let last = self.history.len() - 1;
        self.history[last].duplicate()
    }

    /// Up to `limit` policy versions from version `start` on, never more
    /// than 20, oldest first.
    pub fn get_policy_history(&self, start: u32, limit: u32) -> (page: Vec<PolicyRecord>)
        requires
            self.wf(),
        ensures
            record_views(page@) == self@.history_page(start, limit),
    {
        let n: u32 = if limit > HISTORY_PAGE_LIMIT {
            HISTORY_PAGE_LIMIT
        } else {
            limit
        };
        let len = self.history.len();
        let mut page: Vec<PolicyRecord> = Vec::new();
        if (start as usize) >= len {
            assert(record_views(page@) =~= self@.history_page(start, limit));
            return page;
        }
        let end: usize = if (start as u64) + (n as u64) >= len as u64 {
            len
        } else {
            (start + n) as usize
        };
        let mut k: usize = start as usize;
        while k < end
            invariant
                start <= k <= end <= len == self.history@.len(),
                record_views(page@) == record_views(self.history@).subrange(start as int, k as int),
            decreases end - k,
        {
            let ghost before = page@;
            page.push(self.history[k].duplicate());
            assert(record_views(page@) =~= record_views(before).push(self.history@[k as int]@));
            k = k + 1;
            assert(record_views(page@) =~= record_views(self.history@).subrange(
                start as int,
                k as int,
            ));
        }
        page
    }

    pub fn is_blocklisted(&self, a: u64) -> (r: bool)
        requires
            self.wf(),
        ensures
            r == self@.blocklist.contains(a),
    {
        self.blocklist.contains(a)
    }

    pub fn blocklist_count(&self) -> (n: u32)
        requires
            self.wf(),
        ensures
            n == self@.blocklist.len(),
    {
        self.blocklist.len() as u32
    }

    /// Page `page` of the blocklist, `page_size` entries to a page.
    pub fn get_blocklist(&self, page: u32, page_size: u32) -> (r: Vec<u64>)
        ensures
            r@ == page_of(self@.blocklist, page, page_size),
    {
        self.blocklist.page(page, page_size)
    }

    pub fn is_allowlisted(&self, a: u64) -> (r: bool)
        requires
            self.wf(),
        ensures
            r == self@.allowlist.contains(a),
    {
        self.allowlist.contains(a)
    }

    pub fn allowlist_count(&self) -> (n: u32)
        requires
            self.wf(),
        ensures
            n == self@.allowlist.len(),
    {
        self.allowlist.len() as u32
    }

    /// Page `page` of the allowlist, `page_size` entries to a page.
    pub fn get_allowlist(&self, page: u32, page_size: u32) -> (r: Vec<u64>)
        ensures
            r@ == page_of(self@.allowlist, page, page_size),
    {
        self.allowlist.page(page, page_size)
    }

    pub fn holder_count(&self) -> (n: u32)
        requires
            self.wf(),
        ensures
            n == self@.holders.len(),
    {
        self.holders.len() as u32
    }

    /// The second `a`'s holding began, if `a` is a registered holder.
    pub fn holding_since(&self, a: u64) -> (r: Option<u64>)
        requires
            self.wf(),
        ensures
            r == (if self@.holders.contains_key(a) {
                Some(self@.holders[a])
            } else {
                None
            }),
    {
        match self.holders.get(&a) {
            Some(since) => Some(*since),
            None => None,
        }
    }

    /// The policy stored for exactly this tier pair, if any.
    pub fn get_tier_policy(&self, from_tier: u32, to_tier: u32) -> (r: Option<TierPolicy>)
        ensures
            r == policy_at(self@.tier_policies, tier_key(from_tier, to_tier)),
    {
        self.tier_policies.get(from_tier, to_tier)
    }

    /// How many tier-pair policies are stored.
    pub fn tier_policy_count(&self) -> (n: usize)
        ensures
            n == self@.tier_policies.len(),
    {
        self.tier_policies.len()
    }

    pub fn get_risk_config(&self) -> (c: Option<RiskConfig>)
        ensures
            c == self@.risk_config,
    {
        self.risk_config
    }

    /// The risk score recorded for a jurisdiction, if any.
    pub fn get_jurisdiction_risk_score(&self, jurisdiction: &String) -> (r: Option<u32>)
        requires
            self.wf(),
        ensures
            r == (if self@.risk_scores.contains_key(jurisdiction@) {
                Some(self@.risk_scores[jurisdiction@])
            } else {
                None
            }),
    {
        self.risk_scores.get(jurisdiction)
    }

    pub fn schema_version(&self) -> (v: u32)
        ensures
            v == self@.schema_version,
    {
        self.schema_version
    }

    pub fn migration_count(&self) -> (n: u32)
        requires
            self.wf(),
        ensures
            n == self@.migrations.len(),
    {
        self.migrations.len() as u32
    }

    /// Entry `index` of the migration log, if there is one.
    pub fn get_migration_record(&self, index: u32) -> (r: Option<MigrationRecord>)
        requires
            self.wf(),
        ensures
            match r {
                Some(rec) => index < self@.migrations.len() && rec@ == self@.migrations[index as int],
                None => index >= self@.migrations.len(),
            },
    {
        if (index as usize) < self.migrations.len() {
            let rec = self.migrations[index as usize].duplicate();
            assert(rec@ == self@.migrations[index as int]);
            Some(rec)
        } else {
            None
        }
    }

    /// The engine's release version.
    pub fn version(&self) -> (v: &'static str)
        ensures
            v@ == "0.1.0"@,
    {
        "0.1.0"
    }
}

/// Copies of a list of policy records.
fn copy_records(v: &Vec<PolicyRecord>) -> (r: Vec<PolicyRecord>)
    ensures
        record_views(r@) == record_views(v@),
{
    let mut out: Vec<PolicyRecord> = Vec::new();
    let mut k: usize = 0;
    while k < v.len()
        invariant
            k <= v.len(),
            record_views(out@) == record_views(v@).subrange(0, k as int),
        decreases v.len() - k,
    {
        let ghost before = out@;
        out.push(v[k].duplicate());
        assert(record_views(out@) =~= record_views(before).push(v@[k as int]@));
        k = k + 1;
        assert(record_views(out@) =~= record_views(v@).subrange(0, k as int));
    }
    assert(record_views(v@).subrange(0, k as int) =~= record_views(v@));
    out
}

/// Copies of a list of migration records.
fn copy_migrations(v: &Vec<MigrationRecord>) -> (r: Vec<MigrationRecord>)
    ensures
        migration_views(r@) == migration_views(v@),
{
    let mut out: Vec<MigrationRecord> = Vec::new();
    let mut k: usize = 0;
    while k < v.len()
        invariant
            k <= v.len(),
            migration_views(out@) == migration_views(v@).subrange(0, k as int),
        decreases v.len() - k,
    {
        let ghost before = out@;
        out.push(v[k].duplicate());
        assert(migration_views(out@) =~= migration_views(before).push(v@[k as int]@));
        k = k + 1;
        assert(migration_views(out@) =~= migration_views(v@).subrange(0, k as int));
    }
    assert(migration_views(v@).subrange(0, k as int) =~= migration_views(v@));
    out
}

impl ComplianceEngine {
    /// The state laid out as plain lists, for storage.
    pub fn to_parts(&self) -> (p: EngineParts)
        requires
            self.wf(),
        ensures
            p.consistent(),
            p.state() == self@,
    {
        let pending = match &self.pending {
            Some(q) => Some(q.duplicate()),
            None => None,
        };
        let p = EngineParts {
            admin: self.admin,
            kyc_registry: self.kyc_registry,
            activation_delay: self.activation_delay,
            rules: self.rules,
            pending,
            history: copy_records(&self.history),
            blocklist: self.blocklist.to_vec(),
            allowlist: self.allowlist.to_vec(),
            holders: export_map(&self.holders),
            tier_policies: self.tier_policies.to_pairs(),
            risk_config: self.risk_config,
            risk_scores: self.risk_scores.to_pairs(),
            schema_version: self.schema_version,
            migrations: copy_migrations(&self.migrations),
        };
        proof {
            assert(p.history@.len() == self.history@.len());
            assert forall|i: int| 0 <= i < p.history@.len() implies #[trigger] p.history@[i].version
                == i by {
                assert(record_views(p.history@)[i] == p.history@[i]@);
                assert(record_views(self.history@)[i] == self.history@[i]@);
                assert(self@.history[i].version == i);
            }
            assert(record_views(p.history@).last() == p.history@.last()@);
            assert(record_views(self.history@).last() == self.history@.last()@);
            assert(p.migrations@.len() == self.migrations@.len());
            assert(p.state() =~= self@);
        }
        p
    }

    /// The engine the stored parts describe, or `None` where they do not
    /// describe a reachable state.
    pub fn from_parts(p: EngineParts) -> (r: Option<Self>)
        ensures
            r is Some <==> p.consistent(),
            r matches Some(e) ==> e.wf() && e@ == p.state(),
    {
        let ghost gp = p;
        let n = p.history.len();
        if n == 0 || n > 0xffff_ffffusize {
            return None;
        }
        let mut i: usize = 0;
        while i < n
            invariant
                i <= n == p.history@.len(),
                forall|j: int| 0 <= j < i ==> #[trigger] p.history@[j].version == j,
            decreases n - i,
        {
            if p.history[i].version as usize != i {
                return None;
            }
            i = i + 1;
        }
        if p.history[n - 1].rules != p.rules {
            return None;
        }
        if p.blocklist.len() > 0xffff_ffffusize || p.allowlist.len() > 0xffff_ffffusize
            || p.holders.len() > 0xffff_ffffusize || p.migrations.len() > 0xffff_ffffusize {
            return None;
        }
        let blocklist = match AddressSet::from_vec(&p.blocklist) {
            Some(s) => s,
            None => {
                return None;
            },
        };
        let allowlist = match AddressSet::from_vec(&p.allowlist) {
            Some(s) => s,
            None => {
                return None;
            },
        };
        let holders = match import_map(&p.holders) {
            Some(m) => m,
            None => {
                return None;
            },
        };
        let tier_policies = match TierPolicyTable::from_pairs(&p.tier_policies) {
            Some(t) => t,
            None => {
                return None;
            },
        };
        let risk_scores = match RiskScoreTable::from_pairs(&p.risk_scores) {
            Some(t) => t,
            None => {
                return None;
            },
        };
        let e = ComplianceEngine {
            admin: p.admin,
            kyc_registry: p.kyc_registry,
            activation_delay: p.activation_delay,
            rules: p.rules,
            pending: p.pending,
            history: p.history,
            blocklist,
            allowlist,
            holders,
            tier_policies,
            risk_config: p.risk_config,
            risk_scores,
            schema_version: p.schema_version,
            migrations: p.migrations,
        };
        proof {
            assert(gp.consistent());
            law_consistent_parts_describe_valid_state(gp);
            assert(e@ =~= gp.state());
        }
        Some(e)
    }
}

/// Why a party's KYC record does not stand at `now`, if it does not.
fn check_kyc(k: &Option<KycRecord>, now: u64, sender: bool) -> (r: Option<DenyReason>)
    ensures
        r == kyc_failure(kyc_view(*k), now, sender),
{
    match k {
        None => Some(
            if sender {
                DenyReason::FromKycMissing
            } else {
                DenyReason::ToKycMissing
            },
        ),
        Some(rec) => {
            if rec.status == KycStatus::Revoked {
                Some(
                    if sender {
                        DenyReason::FromKycRevoked
                    } else {
                        DenyReason::ToKycRevoked
                    },
                )
            } else if rec.expires_at != 0 && now >= rec.expires_at {
                Some(
                    if sender {
                        DenyReason::FromKycExpired
                    } else {
                        DenyReason::ToKycExpired
                    },
                )
            } else {
                None
            }
        },
    }
}

} // verus!
