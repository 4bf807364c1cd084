use vstd::prelude::*;

use crate::address_set::without;
use crate::tiers::{governing_policy, tier_key};
use crate::types::{
    ComplianceError, ComplianceRules, DenyReason, KycRecord, KycStatus, KycView, MigrationView,
    PendingView, PolicyChangeKind, PolicyRecordView, RiskConfig, TierPolicy, TransferDecision,
};

verus! {

/// The longest minimum holding period a rule set may ask for: 365 days.
pub const MAX_MIN_HOLDING_PERIOD: u64 = 31_536_000u64;

/// The most policy records one history page returns.
pub const HISTORY_PAGE_LIMIT: u32 = 20u32;

/// The storage schema version a freshly initialized engine is at.
pub const INITIAL_SCHEMA_VERSION: u32 = 1u32;

/// The whole state of a compliance engine, as plain mathematical values.
pub ghost struct EngineView {
    pub admin: u64,
    pub kyc_registry: u64,
    /// Seconds between proposing a rule set and being allowed to activate it.
    pub activation_delay: u64,
    pub rules: ComplianceRules,
    pub pending: Option<PendingView>,
    pub history: Seq<PolicyRecordView>,
    pub blocklist: Seq<u64>,
    pub allowlist: Seq<u64>,
    /// Registered holders, each with the second their holding began.
    pub holders: Map<u64, u64>,
    /// Tier-pair policies, keyed by `tier_key`.
    pub tier_policies: Map<u64, TierPolicy>,
    pub risk_config: Option<RiskConfig>,
    pub risk_scores: Map<Seq<char>, u32>,
    pub schema_version: u32,
    pub migrations: Seq<MigrationView>,
}

/// The rules a freshly initialized engine starts with: every check off.
pub open spec fn default_rules() -> ComplianceRules {
    ComplianceRules {
        max_transfer_amount: 0,
        min_holding_period: 0,
        max_holders: 0,
        require_same_jurisdiction: false,
        paused: false,
        allowlist_mode: false,
        max_holding_period: 0,
    }
}

/// `a + b`, or `u64::MAX` where the sum does not fit.
pub open spec fn saturating_sum(a: u64, b: u64) -> u64 {
    if a + b > u64::MAX {
        u64::MAX
    } else {
        (a + b) as u64
    }
}

/// The state right after initialization: default rules, empty lists, and a
/// history holding version 0.
pub open spec fn initial_state(admin: u64, kyc_registry: u64, activation_delay: u64, now: u64) -> EngineView {
    EngineView {
        admin,
        kyc_registry,
        activation_delay,
        rules: default_rules(),
        pending: None,
        history: seq![
            PolicyRecordView {
                version: 0,
                change_kind: PolicyChangeKind::ImmediateRuleUpdate,
                rules: default_rules(),
                activation_timestamp: now,
                description: Seq::empty(),
            },
        ],
        blocklist: Seq::empty(),
        allowlist: Seq::empty(),
        holders: Map::empty(),
        tier_policies: Map::empty(),
        risk_config: None,
        risk_scores: Map::empty(),
        schema_version: INITIAL_SCHEMA_VERSION,
        migrations: Seq::empty(),
    }
}

impl EngineView {
    /// What every reachable state satisfies: record `i` of the history is
    /// version `i`, the newest record holds the rules in force, no list holds
    /// an account twice, and every count fits its `u32`.
    pub open spec fn valid(self) -> bool {
        &&& 1 <= self.history.len() <= u32::MAX
        &&& forall|i: int| 0 <= i < self.history.len() ==> #[trigger] self.history[i].version == i
        &&& self.history.last().rules == self.rules
        &&& self.blocklist.no_duplicates()
        &&& self.allowlist.no_duplicates()
        &&& self.blocklist.len() <= u32::MAX
        &&& self.allowlist.len() <= u32::MAX
        &&& self.holders.dom().finite()
        &&& self.holders.len() <= u32::MAX
        &&& self.tier_policies.dom().finite()
        &&& self.migrations.len() <= u32::MAX
    }

    /// `self` with a history record of the kind given appended; the record
    /// holds the rules in force.
    pub open spec fn record(self, kind: PolicyChangeKind, now: u64, description: Seq<char>) -> EngineView {
        EngineView {
            history: self.history.push(
                PolicyRecordView {
                    version: self.history.len() as u32,
                    change_kind: kind,
                    rules: self.rules,
                    activation_timestamp: now,
                    description,
                },
            ),
            ..self
        }
    }

    /// The newest history record.
    pub open spec fn current_record(self) -> PolicyRecordView {
        self.history.last()
    }

    /// The reason a rule set may not come into force in this state, if any.
    pub open spec fn rules_error(self, r: ComplianceRules) -> Option<ComplianceError> {
        if r.min_holding_period > MAX_MIN_HOLDING_PERIOD {
            Some(ComplianceError::MinHoldingPeriodExceeds365Days)
        } else if r.max_transfer_amount < 0 {
            Some(ComplianceError::NegativeMaxTransferAmount)
        } else if r.max_holders != 0 && r.max_holders < self.holders.len() {
            Some(ComplianceError::MaxHoldersBelowCurrentCount)
        } else if r.paused != self.rules.paused {
            Some(ComplianceError::PauseFlagMismatch)
        } else {
            None
        }
    }

    /// Putting `r` in force at once.
    pub open spec fn after_set_rules(self, r: ComplianceRules, now: u64) -> Result<EngineView, ComplianceError> {
        match self.rules_error(r) {
            Some(e) => Err(e),
            None => Ok(
                EngineView { rules: r, ..self }.record(
                    PolicyChangeKind::ImmediateRuleUpdate,
                    now,
                    Seq::empty(),
                ),
            ),
        }
    }

    /// Proposing `r`; it may be activated `activation_delay` seconds later.
    pub open spec fn after_propose_rules(self, r: ComplianceRules, description: Seq<char>, now: u64) -> Result<
        EngineView,
        ComplianceError,
    > {
        if description.len() == 0 {
            Err(ComplianceError::EmptyDescription)
        } else {
            match self.rules_error(r) {
                Some(e) => Err(e),
                None => Ok(
                    EngineView {
                        pending: Some(
                            PendingView {
                                rules: r,
                                description,
                                proposed_at: now,
                                activate_at: saturating_sum(now, self.activation_delay),
                            },
                        ),
                        ..self
                    },
                ),
            }
        }
    }

    /// Activating the pending proposal.
    pub open spec fn after_activate_rules(self, now: u64) -> Result<EngineView, ComplianceError> {
        match self.pending {
            None => Err(ComplianceError::NoRulesPending),
            Some(p) => if now < p.activate_at {
                Err(ComplianceError::TooEarlyToActivate)
            } else {
                match self.rules_error(p.rules) {
                    Some(e) => Err(e),
                    None => Ok(
                        EngineView { rules: p.rules, pending: None, ..self }.record(
                            PolicyChangeKind::DelayedRuleActivation,
                            now,
                            p.description,
                        ),
                    ),
                }
            },
        }
    }

    /// Halting all transfers.
    pub open spec fn after_pause(self, now: u64) -> EngineView {
        EngineView { rules: ComplianceRules { paused: true, ..self.rules }, ..self }.record(
            PolicyChangeKind::Pause,
            now,
            Seq::empty(),
        )
    }

    /// Resuming transfers.
    pub open spec fn after_unpause(self, now: u64) -> EngineView {
        EngineView { rules: ComplianceRules { paused: false, ..self.rules }, ..self }.record(
            PolicyChangeKind::Unpause,
            now,
            Seq::empty(),
        )
    }

    pub open spec fn after_add_to_blocklist(self, a: u64, now: u64) -> EngineView {
        if self.blocklist.contains(a) {
            self
        } else {
            EngineView { blocklist: self.blocklist.push(a), ..self }.record(
                PolicyChangeKind::BlocklistAdd,
                now,
                Seq::empty(),
            )
        }
    }

    pub open spec fn after_remove_from_blocklist(self, a: u64, now: u64) -> EngineView {
        if self.blocklist.contains(a) {
            EngineView { blocklist: without(self.blocklist, a), ..self }.record(
                PolicyChangeKind::BlocklistRemove,
                now,
                Seq::empty(),
            )
        } else {
            self
        }
    }

    pub open spec fn after_add_to_allowlist(self, a: u64, now: u64) -> Result<EngineView, ComplianceError> {
        if self.blocklist.contains(a) {
            Err(ComplianceError::BlocklistedAddressOnAllowlist)
        } else if self.allowlist.contains(a) {
            Ok(self)
        } else {
            Ok(
                EngineView { allowlist: self.allowlist.push(a), ..self }.record(
                    PolicyChangeKind::AllowlistAdd,
                    now,
                    Seq::empty(),
                ),
            )
        }
    }

    pub open spec fn after_remove_from_allowlist(self, a: u64, now: u64) -> EngineView {
        if self.allowlist.contains(a) {
            EngineView { allowlist: without(self.allowlist, a), ..self }.record(
                PolicyChangeKind::AllowlistRemove,
                now,
                Seq::empty(),
            )
        } else {
            self
        }
    }

    /// Registering a holder; one already registered keeps its start time.
    pub open spec fn after_register_holder(self, a: u64, now: u64) -> EngineView {
        if self.holders.contains_key(a) {
            self
        } else {
            EngineView { holders: self.holders.insert(a, now), ..self }
        }
    }

    pub open spec fn after_unregister_holder(self, a: u64) -> EngineView {
        EngineView { holders: self.holders.remove(a), ..self }
    }

    pub open spec fn after_set_tier_policy(self, from_tier: u32, to_tier: u32, p: TierPolicy) -> Result<
        EngineView,
        ComplianceError,
    > {
        if p.max_transfer_amount < 0 {
            Err(ComplianceError::NegativeTierTransferAmount)
        } else {
            Ok(
                EngineView {
                    tier_policies: self.tier_policies.insert(tier_key(from_tier, to_tier), p),
                    ..self
                },
            )
        }
    }

    pub open spec fn after_migrate_schema(self, to_version: u32, description: Seq<char>, now: u64) -> Result<
        EngineView,
        ComplianceError,
    > {
        if to_version == self.schema_version {
            Err(ComplianceError::AlreadyAtSchemaVersion)
        } else if to_version != self.schema_version + 1 {
            Err(ComplianceError::MigrationVersionNotSequential)
        } else {
            Ok(
                EngineView {
                    schema_version: to_version,
                    migrations: self.migrations.push(
                        MigrationView {
                            from_version: self.schema_version,
                            to_version,
                            migrated_at: now,
                            description,
                        },
                    ),
                    ..self
                },
            )
        }
    }

    /// Records `start` up to `start + min(limit, 20)` of the history, cut at
    /// its end.
    pub open spec fn history_page(self, start: u32, limit: u32) -> Seq<PolicyRecordView> {
        let n = if limit > HISTORY_PAGE_LIMIT {
            HISTORY_PAGE_LIMIT
        } else {
            limit
        };
        if start >= self.history.len() {
            Seq::empty()
        } else if start + n >= self.history.len() {
            self.history.subrange(start as int, self.history.len() as int)
        } else {
            self.history.subrange(start as int, start + n)
        }
    }

    /// Whether the sender's holding is younger than the minimum holding period.
    pub open spec fn holding_too_short(self, from: u64, now: u64) -> bool {
        &&& self.rules.min_holding_period > 0
        &&& self.holders.contains_key(from)
        &&& now < self.holders[from] + self.rules.min_holding_period
    }

    /// Whether a receiver that is not yet a holder would exceed the holder limit.
    pub open spec fn holder_limit_reached(self, to: u64) -> bool {
        &&& self.rules.max_holders > 0
        &&& !self.holders.contains_key(to)
        &&& self.holders.len() >= self.rules.max_holders
    }

    /// Whether the receiver has held for longer than the maximum holding period.
    pub open spec fn held_too_long(self, to: u64, now: u64) -> bool {
        &&& self.rules.max_holding_period > 0
        &&& self.holders.contains_key(to)
        &&& now > self.holders[to] + self.rules.max_holding_period
    }

    /// Whether the rules ask for one jurisdiction and the two KYC records
    /// name different ones.
    pub open spec fn jurisdictions_differ(self, from_kyc: Option<KycView>, to_kyc: Option<KycView>) -> bool {
        &&& self.rules.require_same_jurisdiction
        &&& from_kyc is Some
        &&& to_kyc is Some
        &&& from_kyc->0.jurisdiction != to_kyc->0.jurisdiction
    }

    /// The tier-pair policy violation of a transfer between two KYC'd
    /// parties, if any.
    pub open spec fn tier_failure(self, from_kyc: Option<KycView>, to_kyc: Option<KycView>, amount: i128) -> Option<
        DenyReason,
    > {
        match (from_kyc, to_kyc) {
            (Some(f), Some(t)) => match governing_policy(self.tier_policies, f.tier, t.tier) {
                None => None,
                Some(p) => if p.blocked {
                    Some(DenyReason::TierBlocked)
                } else if p.max_transfer_amount > 0 && amount > p.max_transfer_amount {
                    Some(DenyReason::TierAmountExceeded)
                } else if f.tier < p.min_from_tier {
                    Some(DenyReason::FromTierTooLow)
                } else if t.tier < p.min_to_tier {
                    Some(DenyReason::ToTierTooLow)
                } else {
                    None
                },
            },
            _ => None,
        }
    }

    /// The risk score of a jurisdiction under configuration `c`.
    pub open spec fn risk_score(self, jurisdiction: Seq<char>, c: RiskConfig) -> u32 {
        if self.risk_scores.contains_key(jurisdiction) {
            self.risk_scores[jurisdiction]
        } else {
            c.default_score
        }
    }

    /// The party whose jurisdiction scores above the limit, if scoring is on.
    pub open spec fn risk_failure(self, from_kyc: Option<KycView>, to_kyc: Option<KycView>) -> Option<
        DenyReason,
    > {
        match self.risk_config {
            None => None,
            Some(c) => if from_kyc is Some && self.risk_score(from_kyc->0.jurisdiction, c)
                > c.max_score {
                Some(DenyReason::FromRiskTooHigh)
            } else if to_kyc is Some && self.risk_score(to_kyc->0.jurisdiction, c) > c.max_score {
                Some(DenyReason::ToRiskTooHigh)
            } else {
                None
            },
        }
    }

    /// The verdict on a transfer of `amount` from `from` to `to` at second
    /// `now`, given what the KYC registry holds for each party. With
    /// `require_kyc`, a party without a standing approval is refused; without
    /// it, KYC data is used where present. The first failing check, in this
    /// order, gives the reason.
    pub open spec fn decide(
        self,
        from: u64,
        to: u64,
        amount: i128,
        now: u64,
        from_kyc: Option<KycView>,
        to_kyc: Option<KycView>,
        require_kyc: bool,
    ) -> TransferDecision {
        if self.rules.paused {
            TransferDecision::Deny(DenyReason::CompliancePaused)
        } else if self.blocklist.contains(from) {
            TransferDecision::Deny(DenyReason::FromBlocklisted)
        } else if self.blocklist.contains(to) {
            TransferDecision::Deny(DenyReason::ToBlocklisted)
        } else if require_kyc && kyc_failure(from_kyc, now, true) is Some {
            TransferDecision::Deny(kyc_failure(from_kyc, now, true)->0)
        } else if require_kyc && kyc_failure(to_kyc, now, false) is Some {
            TransferDecision::Deny(kyc_failure(to_kyc, now, false)->0)
        } else if self.rules.allowlist_mode && !self.allowlist.contains(from) {
            TransferDecision::Deny(DenyReason::FromNotAllowlisted)
        } else if self.rules.allowlist_mode && !self.allowlist.contains(to) {
            TransferDecision::Deny(DenyReason::ToNotAllowlisted)
        } else if self.rules.max_transfer_amount > 0 && amount > self.rules.max_transfer_amount {
            TransferDecision::Deny(DenyReason::AmountExceeded)
        } else if self.holding_too_short(from, now) {
            TransferDecision::Deny(DenyReason::HoldingPeriodNotMet)
        } else if self.holder_limit_reached(to) {
            TransferDecision::Deny(DenyReason::MaxHoldersReached)
        } else if self.held_too_long(to, now) {
            TransferDecision::Deny(DenyReason::HoldingPeriodExceeded)
        } else if self.jurisdictions_differ(from_kyc, to_kyc) {
            TransferDecision::Deny(DenyReason::JurisdictionMismatch)
        } else if self.tier_failure(from_kyc, to_kyc, amount) is Some {
            TransferDecision::Deny(self.tier_failure(from_kyc, to_kyc, amount)->0)
        } else if self.risk_failure(from_kyc, to_kyc) is Some {
            TransferDecision::Deny(self.risk_failure(from_kyc, to_kyc)->0)
        } else {
            TransferDecision::Allow
        }
    }
}

/// Whether a KYC approval has lapsed at second `now`.
pub open spec fn kyc_expired(k: KycView, now: u64) -> bool {
    k.expires_at != 0 && now >= k.expires_at
}

/// Why a party's KYC record does not stand, if it does not; `sender` picks
/// the sender's or the receiver's reasons.
pub open spec fn kyc_failure(k: Option<KycView>, now: u64, sender: bool) -> Option<DenyReason> {
    match k {
        None => Some(
            if sender {
                DenyReason::FromKycMissing
            } else {
                DenyReason::ToKycMissing
            },
        ),
        Some(r) => if r.status == KycStatus::Revoked {
            Some(
                if sender {
                    DenyReason::FromKycRevoked
                } else {
                    DenyReason::ToKycRevoked
                },
            )
        } else if kyc_expired(r, now) {
            Some(
                if sender {
                    DenyReason::FromKycExpired
                } else {
                    DenyReason::ToKycExpired
                },
            )
        } else {
            None
        },
    }
}

/// The view of an optional KYC record.
pub open spec fn kyc_view(k: Option<KycRecord>) -> Option<KycView> {
    match k {
        Some(r) => Some(r@),
        None => None,
    }
}

} // verus!
