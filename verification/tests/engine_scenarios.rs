use std::collections::HashMap;

use compliance_engine::engine::ComplianceEngine;
use compliance_engine::types::{
    rules, ComplianceError, ComplianceRules, DenyReason, KycRecord, KycStatus, PolicyChangeKind,
    RiskConfig, TierPolicy, TransferDecision,
};

/// The ledger, the KYC registry and the engine, driven the way the contract
/// host drives them.
struct Ledger {
    now: u64,
    next_account: u64,
    kyc: HashMap<u64, KycRecord>,
    ce: ComplianceEngine,
}

impl Ledger {
    fn generate(&mut self) -> u64 {
        self.next_account += 1;
        self.next_account
    }

    fn set_timestamp(&mut self, t: u64) {
        self.now = t;
    }

    fn approve(&mut self, who: u64, tier: u32, expires_at: u64, jurisdiction: &str) {
        self.kyc.insert(
            who,
            KycRecord {
                tier,
                expires_at,
                jurisdiction: jurisdiction.to_string(),
                status: KycStatus::Approved,
            },
        );
    }

    fn revoke(&mut self, who: u64) {
        if let Some(r) = self.kyc.get_mut(&who) {
            r.status = KycStatus::Revoked;
        }
    }

    fn can_transfer(&self, from: u64, to: u64, amount: i128) -> bool {
        let fk = self.kyc.get(&from).cloned();
        let tk = self.kyc.get(&to).cloned();
        self.ce.can_transfer(from, to, amount, self.now, &fk, &tk)
    }

    fn evaluate_transfer(&self, from: u64, to: u64, amount: i128) -> TransferDecision {
        let fk = self.kyc.get(&from).cloned();
        let tk = self.kyc.get(&to).cloned();
        self.ce.evaluate_transfer(from, to, amount, self.now, &fk, &tk)
    }

    fn set_rules(&mut self, r: ComplianceRules) -> Result<(), ComplianceError> {
        self.ce.set_rules(r, self.now)
    }

    fn propose_rules(&mut self, r: ComplianceRules, d: &str) -> Result<(), ComplianceError> {
        self.ce.propose_rules(r, d.to_string(), self.now)
    }

    fn activate_rules(&mut self) -> Result<(), ComplianceError> {
        self.ce.activate_rules(self.now)
    }

    fn pause(&mut self) {
        self.ce.pause(self.now)
    }

    fn unpause(&mut self) {
        self.ce.unpause(self.now)
    }

    fn add_to_blocklist(&mut self, a: u64) {
        self.ce.add_to_blocklist(a, self.now)
    }

    fn remove_from_blocklist(&mut self, a: u64) {
        self.ce.remove_from_blocklist(a, self.now)
    }

    fn add_to_allowlist(&mut self, a: u64) -> Result<(), ComplianceError> {
        self.ce.add_to_allowlist(a, self.now)
    }

    fn remove_from_allowlist(&mut self, a: u64) {
        self.ce.remove_from_allowlist(a, self.now)
    }

    fn register_holder(&mut self, a: u64) {
        self.ce.register_holder(a, self.now)
    }

    fn migrate_schema(&mut self, to: u32, d: &str) -> Result<(), ComplianceError> {
        self.ce.migrate_schema(to, d.to_string(), self.now)
    }
}

fn setup_with_delay(delay: u64) -> Ledger {
    let admin = 1_000_000;
    let kyc_registry = 1_000_001;
    Ledger {
        now: 0,
        next_account: 0,
        kyc: HashMap::new(),
        ce: ComplianceEngine::initialize(admin, kyc_registry, delay, 0),
    }
}

fn setup() -> Ledger {
    setup_with_delay(0)
}

fn tier(blocked: bool, max: i128) -> TierPolicy {
    TierPolicy { blocked, max_transfer_amount: max, min_from_tier: 0, min_to_tier: 0 }
}

// ── Basic transfer / pause / blocklist ────────────────────────────────────────

#[test]
fn test_default_rules_allow_transfer() {
    let mut l = setup();
    let (a, b) = (l.generate(), l.generate());
    assert!(l.can_transfer(a, b, 1_000));
}

#[test]
fn test_pause_blocks_all_transfers() {
    let mut l = setup();
    let from = l.generate();
    let to = l.generate();
    l.pause();
    assert!(!l.can_transfer(from, to, 1));
    l.unpause();
    assert!(l.can_transfer(from, to, 1));
}

#[test]
fn test_blocklist() {
    let mut l = setup();
    let from = l.generate();
    let to = l.generate();
    assert!(!l.ce.is_blocklisted(from));
    l.add_to_blocklist(from);
    assert!(l.ce.is_blocklisted(from));
    assert!(!l.can_transfer(from, to, 1));
    assert!(!l.can_transfer(to, from, 1));
    l.remove_from_blocklist(from);
    assert!(!l.ce.is_blocklisted(from));
    assert!(l.can_transfer(from, to, 1));
}

#[test]
fn test_max_transfer_amount() {
    let mut l = setup();
    let from = l.generate();
    let to = l.generate();
    l.set_rules(rules(100, 0, 0, false)).unwrap();
    assert!(l.can_transfer(from, to, 100));
    assert!(!l.can_transfer(from, to, 101));
}

#[test]
fn test_min_holding_period() {
    let mut l = setup();
    let from = l.generate();
    let to = l.generate();
    l.set_rules(rules(0, 1_000, 0, false)).unwrap();
    l.set_timestamp(5_000);
    l.register_holder(from);
    l.set_timestamp(5_500);
    assert!(!l.can_transfer(from, to, 1));
    l.set_timestamp(6_001);
    assert!(l.can_transfer(from, to, 1));
}

#[test]
fn test_max_holders_blocks_new_but_allows_existing() {
    let mut l = setup();
    let h1 = l.generate();
    let h2 = l.generate();
    let new = l.generate();
    l.set_rules(rules(0, 0, 2, false)).unwrap();
    l.register_holder(h1);
    l.register_holder(h2);
    assert!(!l.can_transfer(h1, new, 1));
    assert!(l.can_transfer(h1, h2, 1));
}

// ── Validation errors ─────────────────────────────────────────────────────────

#[test]
fn test_set_rules_rejects_min_holding_exceeds_365_days() {
    let mut l = setup();
    assert_eq!(
        l.set_rules(rules(0, 31_536_001, 0, false)),
        Err(ComplianceError::MinHoldingPeriodExceeds365Days)
    );
}

#[test]
fn test_propose_rules_max_holding_period() {
    let mut l = setup();
    l.propose_rules(rules(0, 365 * 86_400, 0, false), "365-day holding period").unwrap();
}

#[test]
fn test_propose_rules_rejects_holding_period_over_365_days() {
    let mut l = setup();
    assert_eq!(
        l.propose_rules(rules(0, 366 * 86_400, 0, false), "366-day holding period"),
        Err(ComplianceError::MinHoldingPeriodExceeds365Days)
    );
}

#[test]
fn test_set_rules_rejects_negative_max_transfer() {
    let mut l = setup();
    assert_eq!(
        l.set_rules(rules(-1, 0, 0, false)),
        Err(ComplianceError::NegativeMaxTransferAmount)
    );
}

#[test]
fn test_set_rules_rejects_max_holders_below_current_count() {
    let mut l = setup();
    let (a, b) = (l.generate(), l.generate());
    l.register_holder(a);
    l.register_holder(b);
    assert_eq!(
        l.set_rules(rules(0, 0, 1, false)),
        Err(ComplianceError::MaxHoldersBelowCurrentCount)
    );
}

// ── Delayed rule activation ───────────────────────────────────────────────────

#[test]
fn test_propose_then_activate_after_delay() {
    let mut l = setup_with_delay(100);
    l.set_timestamp(1_000);
    let proposed = ComplianceRules {
        max_transfer_amount: 500,
        min_holding_period: 0,
        max_holders: 0,
        require_same_jurisdiction: false,
        paused: false,
        allowlist_mode: false,
        max_holding_period: 0,
    };
    l.propose_rules(proposed, "cap 500").unwrap();

    l.set_timestamp(1_050);
    assert_eq!(l.activate_rules(), Err(ComplianceError::TooEarlyToActivate));

    l.set_timestamp(1_100);
    l.activate_rules().unwrap();

    let r = l.ce.get_rules();
    assert_eq!(r.max_transfer_amount, 500);
}

#[test]
fn test_activate_rules_fails_when_no_proposal_pending() {
    let mut l = setup();
    assert_eq!(l.activate_rules(), Err(ComplianceError::NoRulesPending));
}

#[test]
fn test_propose_zero_delay_activates_immediately() {
    let mut l = setup();
    let r = ComplianceRules {
        max_transfer_amount: 999,
        min_holding_period: 0,
        max_holders: 0,
        require_same_jurisdiction: false,
        paused: false,
        allowlist_mode: false,
        max_holding_period: 0,
    };
    l.propose_rules(r, "imm").unwrap();
    l.activate_rules().unwrap();
    assert_eq!(l.ce.get_rules().max_transfer_amount, 999);
}

#[test]
fn test_get_pending_proposal_returns_some_after_propose() {
    let mut l = setup();
    assert!(l.ce.get_pending_proposal().is_none());
    l.propose_rules(rules(0, 0, 0, false), "p").unwrap();
    let p = l.ce.get_pending_proposal().expect("should have pending proposal");
    assert_eq!(p.description, "p".to_string());
}

#[test]
fn test_get_pending_proposal_cleared_after_activate() {
    let mut l = setup();
    l.propose_rules(rules(0, 0, 0, false), "x").unwrap();
    l.activate_rules().unwrap();
    assert!(l.ce.get_pending_proposal().is_none());
}

// ── Policy version / history ──────────────────────────────────────────────────

#[test]
fn test_initialize_creates_version_zero() {
    let l = setup();
    assert_eq!(l.ce.policy_version_count(), 1);
    let v = l.ce.get_policy_version(0).unwrap();
    assert_eq!(v.version, 0);
    assert_eq!(v.change_kind, PolicyChangeKind::ImmediateRuleUpdate);
    assert!(!v.rules.paused);
}

#[test]
fn test_set_rules_increments_policy_version() {
    let mut l = setup();
    l.set_rules(rules(100, 0, 0, false)).unwrap();
    assert_eq!(l.ce.policy_version_count(), 2);
    let v = l.ce.get_policy_version(1).unwrap();
    assert_eq!(v.change_kind, PolicyChangeKind::ImmediateRuleUpdate);
    assert_eq!(v.rules.max_transfer_amount, 100);
}

#[test]
fn test_delayed_activation_creates_delayed_version_kind() {
    let mut l = setup();
    l.propose_rules(rules(777, 0, 0, false), "desc").unwrap();
    l.activate_rules().unwrap();
    let v = l.ce.get_current_policy_version();
    assert_eq!(v.change_kind, PolicyChangeKind::DelayedRuleActivation);
    assert_eq!(v.rules.max_transfer_amount, 777);
    assert_eq!(v.description, "desc".to_string());
}

#[test]
fn test_pause_creates_pause_version() {
    let mut l = setup();
    l.pause();
    let v = l.ce.get_current_policy_version();
    assert_eq!(v.change_kind, PolicyChangeKind::Pause);
    assert!(v.rules.paused);
}

#[test]
fn test_unpause_creates_unpause_version() {
    let mut l = setup();
    l.pause();
    l.unpause();
    let v = l.ce.get_current_policy_version();
    assert_eq!(v.change_kind, PolicyChangeKind::Unpause);
    assert!(!v.rules.paused);
}

#[test]
fn test_blocklist_add_creates_blocklist_add_version() {
    let mut l = setup();
    let addr = l.generate();
    l.add_to_blocklist(addr);
    let v = l.ce.get_current_policy_version();
    assert_eq!(v.change_kind, PolicyChangeKind::BlocklistAdd);
}

#[test]
fn test_blocklist_remove_creates_blocklist_remove_version() {
    let mut l = setup();
    let addr = l.generate();
    l.add_to_blocklist(addr);
    let before = l.ce.policy_version_count();
    l.remove_from_blocklist(addr);
    assert_eq!(l.ce.policy_version_count(), before + 1);
    assert_eq!(
        l.ce.get_current_policy_version().change_kind,
        PolicyChangeKind::BlocklistRemove
    );
}

#[test]
fn test_duplicate_blocklist_add_does_not_create_version() {
    let mut l = setup();
    let addr = l.generate();
    l.add_to_blocklist(addr);
    let count = l.ce.policy_version_count();
    l.add_to_blocklist(addr);
    assert_eq!(l.ce.policy_version_count(), count);
}

#[test]
fn test_allowlist_add_creates_allowlist_add_version() {
    let mut l = setup();
    let addr = l.generate();
    l.add_to_allowlist(addr).unwrap();
    assert_eq!(
        l.ce.get_current_policy_version().change_kind,
        PolicyChangeKind::AllowlistAdd
    );
}

#[test]
fn test_policy_history_pagination() {
    let mut l = setup();
    l.pause();
    l.unpause();
    let all = l.ce.get_policy_history(0, 20);
    assert_eq!(all.len(), 3);
    let page1 = l.ce.get_policy_history(0, 2);
    assert_eq!(page1.len(), 2);
    let page2 = l.ce.get_policy_history(2, 2);
    assert_eq!(page2.len(), 1);
    let empty = l.ce.get_policy_history(100, 10);
    assert_eq!(empty.len(), 0);
}

#[test]
fn test_policy_history_limit_capped_at_20() {
    let l = setup();
    let page = l.ce.get_policy_history(0, 999);
    assert!(page.len() <= 20);
}

#[test]
fn test_policy_version_ordering_is_ascending() {
    let mut l = setup();
    l.pause();
    l.unpause();
    let history = l.ce.get_policy_history(0, 20);
    for i in 0..history.len() {
        assert_eq!(history[i].version as usize, i);
    }
}

#[test]
fn test_get_current_policy_version_matches_latest() {
    let mut l = setup();
    l.pause();
    l.unpause();
    let count = l.ce.policy_version_count();
    let current = l.ce.get_current_policy_version();
    let last = l.ce.get_policy_version(count - 1).unwrap();
    assert_eq!(current, last);
}

#[test]
fn test_policy_record_snapshot_matches_active_rules() {
    let mut l = setup();
    l.set_rules(rules(1234, 0, 0, false)).unwrap();
    let snap = l.ce.get_current_policy_version();
    let live = l.ce.get_rules();
    assert_eq!(snap.rules.max_transfer_amount, live.max_transfer_amount);
    assert_eq!(snap.rules.paused, live.paused);
}

#[test]
fn test_activation_timestamp_recorded_correctly() {
    let mut l = setup();
    l.set_timestamp(42_000);
    l.set_rules(rules(0, 0, 0, false)).unwrap();
    let v = l.ce.get_current_policy_version();
    assert_eq!(v.activation_timestamp, 42_000);
}

// ── State transition hardening ────────────────────────────────────────────────

#[test]
fn test_pause_then_set_rules_keeps_pause_flag() {
    let mut l = setup();
    l.pause();
    let mut r = rules(500, 0, 0, false);
    r.paused = true;
    l.set_rules(r).unwrap();
    assert!(l.ce.get_rules().paused);
}

#[test]
fn test_unpause_then_blocklist_change_preserved() {
    let mut l = setup();
    let addr = l.generate();
    let from = l.generate();
    let to = l.generate();
    l.pause();
    l.unpause();
    l.add_to_blocklist(addr);
    assert!(!l.can_transfer(addr, to, 1));
    assert!(l.can_transfer(from, to, 1));
}

#[test]
fn test_blocklist_then_pause_then_blocklist_remove() {
    let mut l = setup();
    let blocked = l.generate();
    let other = l.generate();
    l.add_to_blocklist(blocked);
    l.pause();
    assert!(!l.can_transfer(other, blocked, 1));
    l.unpause();
    assert!(!l.can_transfer(other, blocked, 1));
    l.remove_from_blocklist(blocked);
    assert!(l.can_transfer(other, blocked, 1));
    assert_eq!(l.ce.policy_version_count(), 5);
}

#[test]
fn test_multiple_sequential_rule_updates_have_correct_versions() {
    let mut l = setup();
    l.set_rules(rules(100, 0, 0, false)).unwrap();
    l.set_rules(rules(200, 0, 0, false)).unwrap();
    l.set_rules(rules(300, 0, 0, false)).unwrap();
    assert_eq!(l.ce.policy_version_count(), 4);
    assert_eq!(l.ce.get_policy_version(1).unwrap().rules.max_transfer_amount, 100);
    assert_eq!(l.ce.get_policy_version(2).unwrap().rules.max_transfer_amount, 200);
    assert_eq!(l.ce.get_policy_version(3).unwrap().rules.max_transfer_amount, 300);
}

#[test]
fn test_activation_before_delay_fails_and_leaves_state_unchanged() {
    let mut l = setup_with_delay(500);
    l.set_timestamp(1_000);
    let proposed = ComplianceRules {
        max_transfer_amount: 9999,
        min_holding_period: 0,
        max_holders: 0,
        require_same_jurisdiction: false,
        paused: false,
        allowlist_mode: false,
        max_holding_period: 0,
    };
    l.propose_rules(proposed, "too early").unwrap();

    l.set_timestamp(1_499);
    assert!(l.activate_rules().is_err());

    assert_eq!(l.ce.get_rules().max_transfer_amount, 0);
    assert!(l.ce.get_pending_proposal().is_some());
    assert_eq!(l.ce.policy_version_count(), 1);
}

#[test]
fn test_propose_overwrites_previous_pending_proposal() {
    let mut l = setup();
    l.propose_rules(rules(100, 0, 0, false), "first").unwrap();
    l.propose_rules(rules(200, 0, 0, false), "second").unwrap();
    let p = l.ce.get_pending_proposal().unwrap();
    assert_eq!(p.rules.max_transfer_amount, 200);
    l.activate_rules().unwrap();
    assert_eq!(l.ce.get_rules().max_transfer_amount, 200);
}

// ── Activation boundary ───────────────────────────────────────────────────────

#[test]
fn test_activate_rules_at_boundary() {
    let mut l = setup();
    l.set_timestamp(500);
    l.propose_rules(rules(100, 0, 0, false), "boundary").unwrap();
    assert_eq!(l.activate_rules(), Ok(()));
    assert_eq!(l.ce.get_rules().max_transfer_amount, 100);
}

#[test]
fn test_activate_rules_one_second_before_boundary_fails() {
    let mut l = setup_with_delay(1);
    l.set_timestamp(500);
    l.propose_rules(rules(100, 0, 0, false), "one-before").unwrap();
    assert_eq!(l.activate_rules(), Err(ComplianceError::TooEarlyToActivate));
}

// ── evaluate_transfer / KYC integration ───────────────────────────────────────

#[test]
fn test_evaluate_transfer_approved_kyc_allow() {
    let mut l = setup();
    let alice = l.generate();
    let bob = l.generate();
    l.approve(alice, 0, 0, "US");
    l.approve(bob, 0, 0, "US");
    assert_eq!(l.evaluate_transfer(alice, bob, 100), TransferDecision::Allow);
}

#[test]
fn test_evaluate_transfer_missing_kyc_from_denied() {
    let mut l = setup();
    let alice = l.generate();
    let bob = l.generate();
    l.approve(bob, 0, 0, "US");
    assert_eq!(
        l.evaluate_transfer(alice, bob, 100),
        TransferDecision::Deny(DenyReason::FromKycMissing)
    );
}

#[test]
fn test_evaluate_transfer_missing_kyc_to_denied() {
    let mut l = setup();
    let alice = l.generate();
    let bob = l.generate();
    l.approve(alice, 0, 0, "US");
    assert_eq!(
        l.evaluate_transfer(alice, bob, 100),
        TransferDecision::Deny(DenyReason::ToKycMissing)
    );
}

#[test]
fn test_evaluate_transfer_expired_kyc_denied() {
    let mut l = setup();
    let alice = l.generate();
    let bob = l.generate();
    l.approve(alice, 0, 1, "US");
    l.approve(bob, 0, 0, "US");
    l.set_timestamp(100);
    assert_eq!(
        l.evaluate_transfer(alice, bob, 100),
        TransferDecision::Deny(DenyReason::FromKycExpired)
    );
}

#[test]
fn test_evaluate_transfer_revoked_kyc_denied() {
    let mut l = setup();
    let alice = l.generate();
    let bob = l.generate();
    l.approve(alice, 0, 0, "US");
    l.approve(bob, 0, 0, "US");
    l.revoke(alice);
    assert_eq!(
        l.evaluate_transfer(alice, bob, 100),
        TransferDecision::Deny(DenyReason::FromKycRevoked)
    );
}

#[test]
fn test_evaluate_transfer_paused_returns_compliance_paused() {
    let mut l = setup();
    let alice = l.generate();
    let bob = l.generate();
    l.approve(alice, 0, 0, "US");
    l.approve(bob, 0, 0, "US");
    l.pause();
    assert_eq!(
        l.evaluate_transfer(alice, bob, 100),
        TransferDecision::Deny(DenyReason::CompliancePaused)
    );
}

#[test]
fn test_evaluate_transfer_blocklisted_from_denied() {
    let mut l = setup();
    let alice = l.generate();
    let bob = l.generate();
    l.approve(alice, 0, 0, "US");
    l.approve(bob, 0, 0, "US");
    l.add_to_blocklist(alice);
    assert_eq!(
        l.evaluate_transfer(alice, bob, 100),
        TransferDecision::Deny(DenyReason::FromBlocklisted)
    );
}

#[test]
fn test_can_transfer_ignores_kyc_for_backward_compat() {
    let mut l = setup();
    let alice = l.generate();
    let bob = l.generate();
    assert!(l.can_transfer(alice, bob, 100));
}

#[test]
fn test_evaluate_transfer_amount_exceeded() {
    let mut l = setup();
    let alice = l.generate();
    let bob = l.generate();
    l.approve(alice, 0, 0, "US");
    l.approve(bob, 0, 0, "US");
    l.set_rules(ComplianceRules {
        max_transfer_amount: 500,
        min_holding_period: 0,
        max_holders: 0,
        require_same_jurisdiction: false,
        paused: false,
        allowlist_mode: false,
        max_holding_period: 0,
    })
    .unwrap();
    assert_eq!(
        l.evaluate_transfer(alice, bob, 501),
        TransferDecision::Deny(DenyReason::AmountExceeded)
    );
}

// ── Jurisdiction ──────────────────────────────────────────────────────────────

#[test]
fn test_same_jurisdiction_blocks_cross_border() {
    let mut l = setup();
    let alice = l.generate();
    let bob = l.generate();
    l.approve(alice, 1, 0, "US");
    l.approve(bob, 1, 0, "GB");
    l.set_rules(ComplianceRules {
        max_transfer_amount: 0,
        min_holding_period: 0,
        max_holders: 0,
        require_same_jurisdiction: true,
        paused: false,
        allowlist_mode: false,
        max_holding_period: 0,
    })
    .unwrap();
    assert!(!l.can_transfer(alice, bob, 100));
}

#[test]
fn test_same_jurisdiction_allows_matching() {
    let mut l = setup();
    let alice = l.generate();
    let bob = l.generate();
    l.approve(alice, 1, 0, "US");
    l.approve(bob, 1, 0, "US");
    l.set_rules(ComplianceRules {
        max_transfer_amount: 0,
        min_holding_period: 0,
        max_holders: 0,
        require_same_jurisdiction: true,
        paused: false,
        allowlist_mode: false,
        max_holding_period: 0,
    })
    .unwrap();
    assert!(l.can_transfer(alice, bob, 100));
}

// ── Max holding period ────────────────────────────────────────────────────────

#[test]
fn test_max_holding_period_blocks_over_held_receiver() {
    let mut l = setup();
    let sender = l.generate();
    let over_held = l.generate();
    let fresh = l.generate();
    l.set_rules(ComplianceRules {
        max_transfer_amount: 0,
        min_holding_period: 0,
        max_holders: 0,
        require_same_jurisdiction: false,
        paused: false,
        allowlist_mode: false,
        max_holding_period: 1_000,
    })
    .unwrap();
    l.set_timestamp(1_000);
    l.register_holder(over_held);
    l.set_timestamp(2_001);
    assert!(l.can_transfer(over_held, fresh, 1));
    assert!(!l.can_transfer(sender, over_held, 1));
}

#[test]
fn test_max_holding_period_zero_means_unlimited() {
    let mut l = setup();
    let sender = l.generate();
    let long_holder = l.generate();
    l.set_rules(rules(0, 0, 0, false)).unwrap();
    l.set_timestamp(0);
    l.register_holder(long_holder);
    l.set_timestamp(u64::MAX / 2);
    assert!(l.can_transfer(sender, long_holder, 1));
}

// ── Tier policy ───────────────────────────────────────────────────────────────

#[test]
fn test_tier_policy_blocked_pair() {
    let mut l = setup();
    let alice = l.generate();
    let bob = l.generate();
    l.approve(alice, 0, 0, "US");
    l.approve(bob, 2, 0, "US");
    l.ce.set_tier_policy(0u32, 2u32, tier(true, 0)).unwrap();
    assert!(!l.can_transfer(alice, bob, 100));
    assert!(l.can_transfer(bob, alice, 100));
}

#[test]
fn test_tier_policy_exact_match_overrides_wildcard() {
    let mut l = setup();
    let alice = l.generate();
    let bob = l.generate();
    l.approve(alice, 1, 0, "US");
    l.approve(bob, 1, 0, "US");
    l.ce.set_tier_policy(u32::MAX, u32::MAX, tier(true, 0)).unwrap();
    l.ce.set_tier_policy(1u32, 1u32, tier(false, 0)).unwrap();
    assert!(l.can_transfer(alice, bob, 100));
}

// ── Risk scoring ──────────────────────────────────────────────────────────────

#[test]
fn test_risk_scoring_inactive_by_default() {
    let mut l = setup();
    let alice = l.generate();
    let bob = l.generate();
    l.approve(alice, 0, 0, "KP");
    l.approve(bob, 0, 0, "US");
    assert!(l.can_transfer(alice, bob, 100));
    assert!(l.ce.get_risk_config().is_none());
}

#[test]
fn test_high_risk_jurisdiction_blocks_sender() {
    let mut l = setup();
    let alice = l.generate();
    let bob = l.generate();
    l.approve(alice, 0, 0, "KP");
    l.approve(bob, 0, 0, "US");
    l.ce.set_risk_config(RiskConfig { max_score: 49, default_score: 0 });
    l.ce.set_jurisdiction_risk_score("KP".to_string(), 100u32);
    l.ce.set_jurisdiction_risk_score("US".to_string(), 10u32);
    assert!(!l.can_transfer(alice, bob, 100));
}

// ── Schema migration ──────────────────────────────────────────────────────────

#[test]
fn test_schema_version_initialized_to_one() {
    let l = setup();
    assert_eq!(l.ce.schema_version(), 1u32);
}

#[test]
fn test_migration_count_starts_at_zero() {
    let l = setup();
    assert_eq!(l.ce.migration_count(), 0u32);
}

#[test]
fn test_migrate_schema_success_v1_to_v2() {
    let mut l = setup();
    l.migrate_schema(2, "v1->v2").unwrap();
    assert_eq!(l.ce.schema_version(), 2);
    assert_eq!(l.ce.migration_count(), 1);
}

#[test]
fn test_migrate_schema_already_at_version_rejected() {
    let mut l = setup();
    assert_eq!(
        l.migrate_schema(1, "dup"),
        Err(ComplianceError::AlreadyAtSchemaVersion)
    );
}

#[test]
fn test_migrate_schema_version_skip_rejected() {
    let mut l = setup();
    assert_eq!(
        l.migrate_schema(3, "skip"),
        Err(ComplianceError::MigrationVersionNotSequential)
    );
}

#[test]
fn test_migrate_schema_state_continuity() {
    let mut l = setup();
    l.set_rules(rules(1_000_000, 0, 100, false)).unwrap();
    l.migrate_schema(2, "v1->v2").unwrap();
    let r = l.ce.get_rules();
    assert_eq!(r.max_transfer_amount, 1_000_000);
    assert_eq!(r.max_holders, 100);
}

// ── Property-style consistency ────────────────────────────────────────────────

#[test]
fn test_policy_snapshot_consistent_with_active_rules_after_mutations() {
    let mut l = setup();
    let from = l.generate();
    let to = l.generate();

    l.set_rules(rules(100, 0, 0, false)).unwrap();
    let snap = l.ce.get_current_policy_version();
    assert_eq!(snap.rules.max_transfer_amount, l.ce.get_rules().max_transfer_amount);
    assert_eq!(snap.rules.paused, l.ce.get_rules().paused);
    assert_eq!(l.can_transfer(from, to, 1), !snap.rules.paused);

    l.pause();
    let snap = l.ce.get_current_policy_version();
    assert_eq!(snap.rules.paused, l.ce.get_rules().paused);
    assert_eq!(l.can_transfer(from, to, 1), !snap.rules.paused);

    l.unpause();
    let snap = l.ce.get_current_policy_version();
    assert_eq!(snap.rules.paused, l.ce.get_rules().paused);
    assert_eq!(l.can_transfer(from, to, 1), !snap.rules.paused);

    l.set_rules(rules(0, 0, 0, false)).unwrap();
    let snap = l.ce.get_current_policy_version();
    assert_eq!(snap.rules.max_transfer_amount, l.ce.get_rules().max_transfer_amount);
    assert_eq!(snap.rules.paused, l.ce.get_rules().paused);
    assert_eq!(l.can_transfer(from, to, 1), !snap.rules.paused);
}

#[test]
fn test_evaluation_consistent_with_historical_snapshot_replay() {
    let mut l = setup();
    let from = l.generate();
    let to = l.generate();

    l.set_rules(rules(50, 0, 0, false)).unwrap();
    let snap_v1 = l.ce.get_current_policy_version();
    assert!(l.can_transfer(from, to, 30));
    assert!(!l.can_transfer(from, to, 51));

    l.set_rules(rules(1000, 0, 0, false)).unwrap();
    assert!(l.can_transfer(from, to, 51));

    let v1 = l.ce.get_policy_version(1u32).unwrap();
    assert_eq!(v1.rules.max_transfer_amount, snap_v1.rules.max_transfer_amount);
    assert_eq!(v1.rules.max_transfer_amount, 50);
}

#[test]
fn test_blocklist_changes_reflected_in_policy_history() {
    let mut l = setup();
    let addr = l.generate();

    l.add_to_blocklist(addr);
    l.remove_from_blocklist(addr);
    l.add_to_blocklist(addr);

    let history = l.ce.get_policy_history(0, 20);
    assert_eq!(history.len(), 4);
    assert_eq!(history[1].change_kind, PolicyChangeKind::BlocklistAdd);
    assert_eq!(history[2].change_kind, PolicyChangeKind::BlocklistRemove);
    assert_eq!(history[3].change_kind, PolicyChangeKind::BlocklistAdd);
}

#[test]
fn test_register_holder_is_idempotent() {
    let mut l = setup();
    let h = l.generate();
    l.register_holder(h);
    l.register_holder(h);
    assert_eq!(l.ce.holder_count(), 1);
}

#[test]
fn test_unregister_holder_decrements_count() {
    let mut l = setup();
    let h = l.generate();
    l.register_holder(h);
    assert_eq!(l.ce.holder_count(), 1);
    l.ce.unregister_holder(h);
    assert_eq!(l.ce.holder_count(), 0);
}

#[test]
fn test_blocklist_count_accuracy() {
    let mut l = setup();
    let a = l.generate();
    let b = l.generate();
    assert_eq!(l.ce.blocklist_count(), 0);
    l.add_to_blocklist(a);
    assert_eq!(l.ce.blocklist_count(), 1);
    l.add_to_blocklist(b);
    assert_eq!(l.ce.blocklist_count(), 2);
    l.add_to_blocklist(a);
    assert_eq!(l.ce.blocklist_count(), 2);
    l.remove_from_blocklist(a);
    assert_eq!(l.ce.blocklist_count(), 1);
    l.remove_from_blocklist(a);
    assert_eq!(l.ce.blocklist_count(), 1);
}

#[test]
fn test_version_returns_nonempty() {
    let l = setup();
    assert!(!l.ce.version().is_empty());
}

// ── Blocklist / allowlist storage ─────────────────────────────────────────────

#[test]
fn test_is_blocklisted_single_persistent_lookup() {
    let mut l = setup();
    let addr = l.generate();
    assert!(!l.ce.is_blocklisted(addr));
    l.add_to_blocklist(addr);
    assert!(l.ce.is_blocklisted(addr));
    l.remove_from_blocklist(addr);
    assert!(!l.ce.is_blocklisted(addr));
}

#[test]
fn test_blocklist_get_paginated_25_addresses() {
    let mut l = setup();
    for _ in 0..25 {
        let a = l.generate();
        l.add_to_blocklist(a);
    }
    assert_eq!(l.ce.blocklist_count(), 25);

    let page0 = l.ce.get_blocklist(0, 10);
    assert_eq!(page0.len(), 10);
    let page1 = l.ce.get_blocklist(1, 10);
    assert_eq!(page1.len(), 10);
    let page2 = l.ce.get_blocklist(2, 10);
    assert_eq!(page2.len(), 5);
    let page3 = l.ce.get_blocklist(3, 10);
    assert_eq!(page3.len(), 0);
}

#[test]
fn test_blocklist_remove_compaction_preserves_integrity() {
    let mut l = setup();
    let a = l.generate();
    let b = l.generate();
    let c = l.generate();
    l.add_to_blocklist(a);
    l.add_to_blocklist(b);
    l.add_to_blocklist(c);
    assert_eq!(l.ce.blocklist_count(), 3);

    l.remove_from_blocklist(a);
    assert_eq!(l.ce.blocklist_count(), 2);
    assert!(!l.ce.is_blocklisted(a));
    assert!(l.ce.is_blocklisted(b));
    assert!(l.ce.is_blocklisted(c));

    let page = l.ce.get_blocklist(0, 10);
    assert_eq!(page.len(), 2);
    assert!(!page.contains(&a));
    assert!(page.contains(&b));
    assert!(page.contains(&c));
}

#[test]
fn test_blocklist_remove_last_element() {
    let mut l = setup();
    let a = l.generate();
    let b = l.generate();
    l.add_to_blocklist(a);
    l.add_to_blocklist(b);
    l.remove_from_blocklist(b);
    assert_eq!(l.ce.blocklist_count(), 1);
    assert!(l.ce.is_blocklisted(a));
    assert!(!l.ce.is_blocklisted(b));
    let page = l.ce.get_blocklist(0, 10);
    assert_eq!(page.len(), 1);
}

#[test]
fn test_allowlist_crud() {
    let mut l = setup();
    let addr = l.generate();
    assert!(!l.ce.is_allowlisted(addr));
    l.add_to_allowlist(addr).unwrap();
    assert!(l.ce.is_allowlisted(addr));
    l.remove_from_allowlist(addr);
    assert!(!l.ce.is_allowlisted(addr));
}

#[test]
fn test_allowlist_count_and_get_paginated() {
    let mut l = setup();
    for _ in 0..15 {
        let a = l.generate();
        l.add_to_allowlist(a).unwrap();
    }
    assert_eq!(l.ce.allowlist_count(), 15);
    let page0 = l.ce.get_allowlist(0, 10);
    assert_eq!(page0.len(), 10);
    let page1 = l.ce.get_allowlist(1, 10);
    assert_eq!(page1.len(), 5);
}

#[test]
fn test_allowlist_remove_compaction() {
    let mut l = setup();
    let a = l.generate();
    let b = l.generate();
    let c = l.generate();
    l.add_to_allowlist(a).unwrap();
    l.add_to_allowlist(b).unwrap();
    l.add_to_allowlist(c).unwrap();
    l.remove_from_allowlist(a);
    assert_eq!(l.ce.allowlist_count(), 2);
    assert!(!l.ce.is_allowlisted(a));
    assert!(l.ce.is_allowlisted(b));
    assert!(l.ce.is_allowlisted(c));
    let page = l.ce.get_allowlist(0, 10);
    assert_eq!(page.len(), 2);
    assert!(!page.contains(&a));
}

#[test]
fn test_duplicate_blocklist_add_idempotent() {
    let mut l = setup();
    let addr = l.generate();
    l.add_to_blocklist(addr);
    l.add_to_blocklist(addr);
    assert_eq!(l.ce.blocklist_count(), 1);
    assert_eq!(l.ce.get_blocklist(0, 10).len(), 1);
}

#[test]
fn test_duplicate_allowlist_add_idempotent() {
    let mut l = setup();
    let addr = l.generate();
    l.add_to_allowlist(addr).unwrap();
    l.add_to_allowlist(addr).unwrap();
    assert_eq!(l.ce.allowlist_count(), 1);
    assert_eq!(l.ce.get_allowlist(0, 10).len(), 1);
}

#[test]
fn test_remove_absent_blocklist_entry_is_noop() {
    let mut l = setup();
    let addr = l.generate();
    l.remove_from_blocklist(addr);
    assert_eq!(l.ce.blocklist_count(), 0);
}

#[test]
fn test_evaluate_transfer_uses_persistent_blocklist() {
    let mut l = setup();
    let from = l.generate();
    let to = l.generate();
    l.add_to_blocklist(from);
    assert!(!l.can_transfer(from, to, 1));
    assert!(!l.can_transfer(to, from, 1));
    l.remove_from_blocklist(from);
    assert!(l.can_transfer(from, to, 1));
}

// ── Schema v2 migration ───────────────────────────────────────────────────────

#[test]
fn test_migration_v2_on_fresh_persistent_data() {
    let mut l = setup();
    let a = l.generate();
    let b = l.generate();
    l.add_to_blocklist(a);
    l.add_to_blocklist(b);
    l.migrate_schema(2, "v1->v2").unwrap();
    assert_eq!(l.ce.schema_version(), 2);
    assert!(l.ce.is_blocklisted(a));
    assert!(l.ce.is_blocklisted(b));
    assert_eq!(l.ce.blocklist_count(), 2);
}

#[test]
fn test_migration_v2_twice_fails_safely() {
    let mut l = setup();
    l.migrate_schema(2, "v1->v2").unwrap();
    assert_eq!(
        l.migrate_schema(2, "dup"),
        Err(ComplianceError::AlreadyAtSchemaVersion)
    );
    assert_eq!(l.ce.schema_version(), 2);
}

#[test]
fn test_migration_v2_records_migration_audit_entry() {
    let mut l = setup();
    l.migrate_schema(2, "blocklist-persistent").unwrap();
    assert_eq!(l.ce.migration_count(), 1);
    let rec = l.ce.get_migration_record(0).unwrap();
    assert_eq!(rec.from_version, 1);
    assert_eq!(rec.to_version, 2);
}

// ── Targeted validation ───────────────────────────────────────────────────────

#[test]
fn test_add_to_allowlist_rejects_blocklisted_address() {
    let mut l = setup();
    let addr = l.generate();

    l.add_to_blocklist(addr);
    assert!(l.ce.is_blocklisted(addr));

    assert_eq!(
        l.add_to_allowlist(addr),
        Err(ComplianceError::BlocklistedAddressOnAllowlist)
    );

    assert!(!l.ce.is_allowlisted(addr));
    assert_eq!(l.ce.allowlist_count(), 0);

    let other = l.generate();
    l.add_to_allowlist(other).unwrap();
    assert!(l.ce.is_allowlisted(other));
    assert_eq!(l.ce.allowlist_count(), 1);
}

#[test]
fn test_set_tier_policy_rejects_negative_max_transfer_amount() {
    let mut l = setup();

    assert_eq!(
        l.ce.set_tier_policy(
            0u32,
            1u32,
            TierPolicy { blocked: false, max_transfer_amount: -1, min_from_tier: 0, min_to_tier: 0 }
        ),
        Err(ComplianceError::NegativeTierTransferAmount)
    );

    assert!(l.ce.get_tier_policy(0u32, 1u32).is_none());
    assert_eq!(l.ce.tier_policy_count(), 0);

    l.ce.set_tier_policy(
        0u32,
        1u32,
        TierPolicy { blocked: false, max_transfer_amount: 0, min_from_tier: 0, min_to_tier: 0 },
    )
    .unwrap();
    assert!(l.ce.get_tier_policy(0u32, 1u32).is_some());

    l.ce.set_tier_policy(
        0u32,
        2u32,
        TierPolicy { blocked: false, max_transfer_amount: 1_000, min_from_tier: 0, min_to_tier: 0 },
    )
    .unwrap();
    assert!(l.ce.get_tier_policy(0u32, 2u32).is_some());
}

#[test]
fn test_validate_rules_max_holders_boundary() {
    let mut l = setup();
    let (a, b) = (l.generate(), l.generate());
    l.register_holder(a);
    l.register_holder(b);
    assert_eq!(l.ce.holder_count(), 2);

    assert_eq!(
        l.set_rules(rules(0, 0, 1, false)),
        Err(ComplianceError::MaxHoldersBelowCurrentCount)
    );

    l.set_rules(rules(0, 0, 2, false)).unwrap();
    assert_eq!(l.ce.get_rules().max_holders, 2);

    l.set_rules(rules(0, 0, 3, false)).unwrap();
    assert_eq!(l.ce.get_rules().max_holders, 3);
}

#[test]
fn test_propose_rules_rejects_empty_description() {
    let mut l = setup();

    assert_eq!(
        l.propose_rules(rules(0, 0, 0, false), ""),
        Err(ComplianceError::EmptyDescription)
    );
    assert!(l.ce.get_pending_proposal().is_none());

    let desc = "raise transfer cap for Q4";
    l.propose_rules(rules(0, 0, 0, false), desc).unwrap();
    let proposal = l.ce.get_pending_proposal().expect("proposal must be stored");
    assert_eq!(proposal.description, desc.to_string());
}
