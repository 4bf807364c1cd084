use vstd::prelude::*;

verus! {

/// The rule set that every transfer is checked against.
#[derive(Clone, Copy, Debug, PartialEq, Eq, Structural)]
pub struct ComplianceRules {
    /// Largest amount a single transfer may move; 0 disables the cap.
    pub max_transfer_amount: i128,
    /// Seconds a sender must have held before sending; 0 disables the check.
    pub min_holding_period: u64,
    /// Largest number of registered holders; 0 means unlimited.
    pub max_holders: u32,
    /// Whether sender and receiver must share a KYC jurisdiction.
    pub require_same_jurisdiction: bool,
    /// Whether all transfers are halted.
    pub paused: bool,
    /// Whether both parties must be on the allowlist.
    pub allowlist_mode: bool,
    /// Seconds after which a holder can no longer receive; 0 means unlimited.
    pub max_holding_period: u64,
}

/// A rule set with the given cap, holding period, holder limit and pause
/// flag, and every other switch off.
pub fn rules(max: i128, min_hold: u64, max_hold_cnt: u32, paused: bool) -> (r: ComplianceRules)
    ensures
        r == (ComplianceRules {
            max_transfer_amount: max,
            min_holding_period: min_hold,
            max_holders: max_hold_cnt,
            require_same_jurisdiction: false,
            paused,
            allowlist_mode: false,
            max_holding_period: 0,
        }),
{
    ComplianceRules {
        max_transfer_amount: max,
        min_holding_period: min_hold,
        max_holders: max_hold_cnt,
        require_same_jurisdiction: false,
        paused,
        allowlist_mode: false,
        max_holding_period: 0,
    }
}


/// Whether a KYC record currently stands.
#[derive(Clone, Copy, Debug, PartialEq, Eq, Structural)]
pub enum KycStatus {
    Approved,
    Revoked,
}

/// What the KYC registry holds for one account.
#[derive(Clone, Debug, PartialEq, Eq)]
pub struct KycRecord {
    /// Investor tier assigned by the verifier.
    pub tier: u32,
    /// Second at which the approval lapses; 0 means it never does.
    pub expires_at: u64,
    /// Jurisdiction code, such as "US".
    pub jurisdiction: String,
    pub status: KycStatus,
}

pub ghost struct KycView {
    pub tier: u32,
    pub expires_at: u64,
    pub jurisdiction: Seq<char>,
    pub status: KycStatus,
}

impl View for KycRecord {
    type V = KycView;

    open spec fn view(&self) -> KycView {
        KycView {
            tier: self.tier,
            expires_at: self.expires_at,
            jurisdiction: self.jurisdiction@,
            status: self.status,
        }
    }
}

/// Restrictions on transfers between one sender tier and one receiver tier.
#[derive(Clone, Copy, Debug, PartialEq, Eq, Structural)]
pub struct TierPolicy {
    /// Whether such transfers are refused outright.
    pub blocked: bool,
    /// Largest amount such a transfer may move; 0 disables the cap.
    pub max_transfer_amount: i128,
    /// Lowest tier the sender must have.
    pub min_from_tier: u32,
    /// Lowest tier the receiver must have.
    pub min_to_tier: u32,
}

/// Jurisdiction risk scoring: a party whose jurisdiction scores above
/// `max_score` is refused; jurisdictions without a score get `default_score`.
#[derive(Clone, Copy, Debug, PartialEq, Eq, Structural)]
pub struct RiskConfig {
    pub max_score: u32,
    pub default_score: u32,
}

/// The kind of change a policy record documents.
#[derive(Clone, Copy, Debug, PartialEq, Eq, Structural)]
pub enum PolicyChangeKind {
    ImmediateRuleUpdate,
    DelayedRuleActivation,
    Pause,
    Unpause,
    BlocklistAdd,
    BlocklistRemove,
    AllowlistAdd,
    AllowlistRemove,
}

/// One entry of the policy history: the rules in force after a change.
#[derive(Clone, Debug, PartialEq, Eq)]
pub struct PolicyRecord {
    pub version: u32,
    pub change_kind: PolicyChangeKind,
    pub rules: ComplianceRules,
    pub activation_timestamp: u64,
    pub description: String,
}

pub ghost struct PolicyRecordView {
    pub version: u32,
    pub change_kind: PolicyChangeKind,
    pub rules: ComplianceRules,
    pub activation_timestamp: u64,
    pub description: Seq<char>,
}

impl View for PolicyRecord {
    type V = PolicyRecordView;

    open spec fn view(&self) -> PolicyRecordView {
        PolicyRecordView {
            version: self.version,
            change_kind: self.change_kind,
            rules: self.rules,
            activation_timestamp: self.activation_timestamp,
            description: self.description@,
        }
    }
}

impl PolicyRecord {
    /// A copy of this record.
    pub fn duplicate(&self) -> (r: PolicyRecord)
        ensures
            r@ == self@,
    {
        PolicyRecord {
            version: self.version,
            change_kind: self.change_kind,
            rules: self.rules,
            activation_timestamp: self.activation_timestamp,
            description: self.description.clone(),
        }
    }
}

/// A rule set waiting for its activation time.
#[derive(Clone, Debug, PartialEq, Eq)]
pub struct PendingRulesProposal {
    pub rules: ComplianceRules,
    pub description: String,
    pub proposed_at: u64,
    pub activate_at: u64,
}

pub ghost struct PendingView {
    pub rules: ComplianceRules,
    pub description: Seq<char>,
    pub proposed_at: u64,
    pub activate_at: u64,
}

impl View for PendingRulesProposal {
    type V = PendingView;

    open spec fn view(&self) -> PendingView {
        PendingView {
            rules: self.rules,
            description: self.description@,
            proposed_at: self.proposed_at,
            activate_at: self.activate_at,
        }
    }
}

impl PendingRulesProposal {
    /// A copy of this proposal.
    pub fn duplicate(&self) -> (r: PendingRulesProposal)
        ensures
            r@ == self@,
    {
        PendingRulesProposal {
            rules: self.rules,
            description: self.description.clone(),
            proposed_at: self.proposed_at,
            activate_at: self.activate_at,
        }
    }
}

/// An entry of the schema migration log.
#[derive(Clone, Debug, PartialEq, Eq)]
pub struct MigrationRecord {
    pub from_version: u32,
    pub to_version: u32,
    pub migrated_at: u64,
    pub description: String,
}

pub ghost struct MigrationView {
    pub from_version: u32,
    pub to_version: u32,
    pub migrated_at: u64,
    pub description: Seq<char>,
}

impl View for MigrationRecord {
    type V = MigrationView;

    open spec fn view(&self) -> MigrationView {
        MigrationView {
            from_version: self.from_version,
            to_version: self.to_version,
            migrated_at: self.migrated_at,
            description: self.description@,
        }
    }
}

impl MigrationRecord {
    /// A copy of this record.
    pub fn duplicate(&self) -> (r: MigrationRecord)
        ensures
            r@ == self@,
    {
        MigrationRecord {
            from_version: self.from_version,
            to_version: self.to_version,
            migrated_at: self.migrated_at,
            description: self.description.clone(),
        }
    }
}

/// Why a transfer is refused.
#[derive(Clone, Copy, Debug, PartialEq, Eq, Structural)]
pub enum DenyReason {
    CompliancePaused,
    FromBlocklisted,
    ToBlocklisted,
    FromKycMissing,
    FromKycRevoked,
    FromKycExpired,
    ToKycMissing,
    ToKycRevoked,
    ToKycExpired,
    FromNotAllowlisted,
    ToNotAllowlisted,
    AmountExceeded,
    HoldingPeriodNotMet,
    MaxHoldersReached,
    HoldingPeriodExceeded,
    JurisdictionMismatch,
    TierBlocked,
    TierAmountExceeded,
    FromTierTooLow,
    ToTierTooLow,
    FromRiskTooHigh,
    ToRiskTooHigh,
}

/// The verdict on a transfer.
#[derive(Clone, Copy, Debug, PartialEq, Eq, Structural)]
pub enum TransferDecision {
    Allow,
    Deny(DenyReason),
}

/// Why an administrative request is refused.
#[derive(Clone, Copy, Debug, PartialEq, Eq, Structural)]
pub enum ComplianceError {
    MinHoldingPeriodExceeds365Days,
    NegativeMaxTransferAmount,
    MaxHoldersBelowCurrentCount,
    PauseFlagMismatch,
    EmptyDescription,
    NoRulesPending,
    TooEarlyToActivate,
    AlreadyAtSchemaVersion,
    MigrationVersionNotSequential,
    BlocklistedAddressOnAllowlist,
    NegativeTierTransferAmount,
}

} // verus!
