use vstd::prelude::*;

use crate::address_set::without;
use crate::model::{kyc_failure, EngineView, HISTORY_PAGE_LIMIT};
use crate::tiers::{
    governing_policy, lemma_tier_key_injective, policy_at, tier_key, TIER_WILDCARD,
};
use crate::types::{
    ComplianceError, ComplianceRules, DenyReason, KycView, MigrationView, PendingView,
    PolicyChangeKind, PolicyRecordView, RiskConfig, TierPolicy, TransferDecision,
};

verus! {

/// While the engine is paused, every transfer is refused as paused, whatever
/// the lists, the KYC records or the other rules say.
pub proof fn law_pause_takes_precedence(
    s: EngineView,
    from: u64,
    to: u64,
    amount: i128,
    now: u64,
    from_kyc: Option<KycView>,
    to_kyc: Option<KycView>,
    require_kyc: bool,
)
    requires
        s.rules.paused,
    ensures
        s.decide(from, to, amount, now, from_kyc, to_kyc, require_kyc) == TransferDecision::Deny(
            DenyReason::CompliancePaused,
        ),
{
}

/// A transfer with a blocklisted sender or receiver is never allowed.
pub proof fn law_blocklisted_party_never_allowed(
    s: EngineView,
    from: u64,
    to: u64,
    amount: i128,
    now: u64,
    from_kyc: Option<KycView>,
    to_kyc: Option<KycView>,
    require_kyc: bool,
)
    requires
        s.blocklist.contains(from) || s.blocklist.contains(to),
    ensures
        s.decide(from, to, amount, now, from_kyc, to_kyc, require_kyc) != TransferDecision::Allow,
{
}

/// Without the KYC requirement (`can_transfer`), no transfer is refused for a
/// missing, revoked or expired KYC record.
pub proof fn law_kyc_optional_check_never_cites_kyc(
    s: EngineView,
    from: u64,
    to: u64,
    amount: i128,
    now: u64,
    from_kyc: Option<KycView>,
    to_kyc: Option<KycView>,
)
    ensures
        ({
            let d = s.decide(from, to, amount, now, from_kyc, to_kyc, false);
            &&& d != TransferDecision::Deny(DenyReason::FromKycMissing)
            &&& d != TransferDecision::Deny(DenyReason::ToKycMissing)
            &&& d != TransferDecision::Deny(DenyReason::FromKycRevoked)
            &&& d != TransferDecision::Deny(DenyReason::ToKycRevoked)
            &&& d != TransferDecision::Deny(DenyReason::FromKycExpired)
            &&& d != TransferDecision::Deny(DenyReason::ToKycExpired)
        }),
{
}

/// When both parties hold a standing KYC approval, `evaluate_transfer` and
/// `can_transfer` reach the same verdict.
pub proof fn law_kyc_checked_and_unchecked_agree(
    s: EngineView,
    from: u64,
    to: u64,
    amount: i128,
    now: u64,
    from_kyc: Option<KycView>,
    to_kyc: Option<KycView>,
)
    requires
        kyc_failure(from_kyc, now, true) is None,
        kyc_failure(to_kyc, now, false) is None,
    ensures
        s.decide(from, to, amount, now, from_kyc, to_kyc, true) == s.decide(
            from,
            to,
            amount,
            now,
            from_kyc,
            to_kyc,
            false,
        ),
{
}

/// A transfer is allowed exactly when every check passes: transfers are not
/// paused, neither party is blocklisted, KYC stands where it is required,
/// both parties are allowlisted in allowlist mode, the amount is within the
/// cap, the holding periods and holder limit are respected, the
/// jurisdictions match where that is asked, and no tier policy or risk score
/// objects.
pub proof fn law_allow_means_every_check_passes(
    s: EngineView,
    from: u64,
    to: u64,
    amount: i128,
    now: u64,
    from_kyc: Option<KycView>,
    to_kyc: Option<KycView>,
    require_kyc: bool,
)
    ensures
        (s.decide(from, to, amount, now, from_kyc, to_kyc, require_kyc) == TransferDecision::Allow)
            <==> {
            &&& !s.rules.paused
            &&& !s.blocklist.contains(from)
            &&& !s.blocklist.contains(to)
            &&& require_kyc ==> kyc_failure(from_kyc, now, true) is None && kyc_failure(
                to_kyc,
                now,
                false,
            ) is None
            &&& s.rules.allowlist_mode ==> s.allowlist.contains(from) && s.allowlist.contains(to)
            &&& s.rules.max_transfer_amount > 0 ==> amount <= s.rules.max_transfer_amount
            &&& !s.holding_too_short(from, now)
            &&& !s.holder_limit_reached(to)
            &&& !s.held_too_long(to, now)
            &&& !s.jurisdictions_differ(from_kyc, to_kyc)
            &&& s.tier_failure(from_kyc, to_kyc, amount) is None
            &&& s.risk_failure(from_kyc, to_kyc) is None
        },
{
}

/// A transfer that is allowed stays allowed for any smaller amount.
pub proof fn law_smaller_amount_stays_allowed(
    s: EngineView,
    from: u64,
    to: u64,
    amount: i128,
    smaller: i128,
    now: u64,
    from_kyc: Option<KycView>,
    to_kyc: Option<KycView>,
    require_kyc: bool,
)
    requires
        smaller <= amount,
        s.decide(from, to, amount, now, from_kyc, to_kyc, require_kyc) == TransferDecision::Allow,
    ensures
        s.decide(from, to, smaller, now, from_kyc, to_kyc, require_kyc) == TransferDecision::Allow,
{
}

/// The newest policy record always holds the rules in force, and record `i`
/// of the history is version `i`.
pub proof fn law_history_matches_rules(s: EngineView)
    requires
        s.valid(),
    ensures
        s.current_record().rules == s.rules,
        s.current_record().version == s.history.len() - 1,
        forall|i: int| 0 <= i < s.history.len() ==> #[trigger] s.history[i].version == i,
{
}

/// Every successful rule change, pause, unpause, and every change to the
/// blocklist or allowlist appends exactly one record, which documents the
/// change and holds the new rules, and keeps the state valid.
pub proof fn law_policy_changes_are_recorded(s: EngineView, r: ComplianceRules, a: u64, now: u64)
    requires
        s.valid(),
        s.history.len() < u32::MAX,
        s.blocklist.len() < u32::MAX,
        s.allowlist.len() < u32::MAX,
    ensures
        s.after_set_rules(r, now) matches Ok(t) ==> {
            &&& t.valid()
            &&& t.history.len() == s.history.len() + 1
            &&& t.current_record().change_kind == PolicyChangeKind::ImmediateRuleUpdate
            &&& t.current_record().rules == r
        },
        s.after_activate_rules(now) matches Ok(t) ==> {
            &&& t.valid()
            &&& t.history.len() == s.history.len() + 1
            &&& t.current_record().change_kind == PolicyChangeKind::DelayedRuleActivation
            &&& t.current_record().rules == s.pending->0.rules
            &&& t.current_record().description == s.pending->0.description
        },
        ({
            let t = s.after_pause(now);
            &&& t.valid()
            &&& t.history.len() == s.history.len() + 1
            &&& t.current_record().change_kind == PolicyChangeKind::Pause
            &&& t.rules.paused
        }),
        ({
            let t = s.after_unpause(now);
            &&& t.valid()
            &&& t.history.len() == s.history.len() + 1
            &&& t.current_record().change_kind == PolicyChangeKind::Unpause
            &&& !t.rules.paused
        }),
        !s.blocklist.contains(a) ==> {
            let t = s.after_add_to_blocklist(a, now);
            &&& t.valid()
            &&& t.history.len() == s.history.len() + 1
            &&& t.current_record().change_kind == PolicyChangeKind::BlocklistAdd
        },
        s.blocklist.contains(a) ==> {
            let t = s.after_remove_from_blocklist(a, now);
            &&& t.valid()
            &&& t.history.len() == s.history.len() + 1
            &&& t.current_record().change_kind == PolicyChangeKind::BlocklistRemove
        },
        s.after_add_to_allowlist(a, now) matches Ok(t) ==> t.valid() && (!s.allowlist.contains(a)
            ==> t.history.len() == s.history.len() + 1 && t.current_record().change_kind
            == PolicyChangeKind::AllowlistAdd),
        s.allowlist.contains(a) ==> {
            let t = s.after_remove_from_allowlist(a, now);
            &&& t.valid()
            &&& t.history.len() == s.history.len() + 1
            &&& t.current_record().change_kind == PolicyChangeKind::AllowlistRemove
        },
{
    if s.blocklist.contains(a) {
        lemma_without(s.blocklist, a);
    }
    if s.allowlist.contains(a) {
        lemma_without(s.allowlist, a);
    }
}

/// Adding an account already listed, or removing one not listed, changes
/// nothing: no list entry and no history record.
pub proof fn law_list_updates_are_idempotent(s: EngineView, a: u64, now: u64)
    ensures
        s.blocklist.contains(a) ==> s.after_add_to_blocklist(a, now) == s,
        !s.blocklist.contains(a) ==> s.after_remove_from_blocklist(a, now) == s,
        s.allowlist.contains(a) && !s.blocklist.contains(a) ==> s.after_add_to_allowlist(a, now)
            == Ok::<EngineView, ComplianceError>(s),
        !s.allowlist.contains(a) ==> s.after_remove_from_allowlist(a, now) == s,
        s.after_add_to_blocklist(a, now).after_add_to_blocklist(a, now).blocklist
            == s.after_add_to_blocklist(a, now).blocklist,
{
    let t = s.after_add_to_blocklist(a, now);
    if !s.blocklist.contains(a) {
        assert(t.blocklist[t.blocklist.len() - 1] == a);
    }
}

/// Taking `a` out of a list with no duplicates leaves every other member, and
/// only those, once each.
pub proof fn lemma_without(s: Seq<u64>, a: u64)
    requires
        s.no_duplicates(),
        s.contains(a),
    ensures
        without(s, a).no_duplicates(),
        without(s, a).len() == s.len() - 1,
        forall|b: u64| #[trigger] without(s, a).contains(b) <==> (s.contains(b) && b != a),
{
    let i = choose|i: int| 0 <= i < s.len() && s[i] == a;
    let t = without(s, a);
    let last = s.len() - 1;
    assert forall|p: int, q: int| 0 <= p < t.len() && 0 <= q < t.len() && p != q implies t[p]
        != t[q] by {
        if p == i {
            assert(s[last] != s[q]);
        } else if q == i {
            assert(s[last] != s[p]);
        } else {
            assert(s[p] != s[q]);
        }
    }
    assert forall|b: u64| #[trigger] t.contains(b) <==> (s.contains(b) && b != a) by {
        if t.contains(b) {
            let k = choose|k: int| 0 <= k < t.len() && t[k] == b;
            if k == i {
                assert(s[last] == b);
                assert(last != i);
            } else {
                assert(s[k] == b);
            }
        }
        if s.contains(b) && b != a {
            let k = choose|k: int| 0 <= k < s.len() && s[k] == b;
            if k == last {
                assert(t[i] == b);
            } else {
                assert(k != i);
                assert(t[k] == b);
            }
        }
    }
}

/// Removing a blocklisted account keeps every other blocklisted account on
/// the blocklist, and takes that one off.
pub proof fn law_blocklist_removal_keeps_others(s: EngineView, a: u64, b: u64, now: u64)
    requires
        s.valid(),
        s.blocklist.contains(a),
    ensures
        s.after_remove_from_blocklist(a, now).blocklist.contains(b) <==> (s.blocklist.contains(b)
            && b != a),
        s.after_remove_from_blocklist(a, now).blocklist.len() == s.blocklist.len() - 1,
{
    lemma_without(s.blocklist, a);
}

/// Blocklisting a new account and then taking it off again leaves the
/// blocklist exactly as it was.
pub proof fn law_blocklist_add_then_remove_restores(s: EngineView, a: u64, t1: u64, t2: u64)
    requires
        s.valid(),
        !s.blocklist.contains(a),
    ensures
        s.after_add_to_blocklist(a, t1).after_remove_from_blocklist(a, t2).blocklist
            == s.blocklist,
{
    let t = s.after_add_to_blocklist(a, t1);
    let n = s.blocklist.len() as int;
    assert(t.blocklist[n] == a);
    assert(t.blocklist.contains(a));
    let i = choose|i: int| 0 <= i < t.blocklist.len() && t.blocklist[i] == a;
    if i != n {
        assert(s.blocklist[i] == a);
        assert(s.blocklist.contains(a));
    }
    assert(without(t.blocklist, a) =~= s.blocklist);
}

/// A blocklisted account is never added to the allowlist.
pub proof fn law_blocklisted_never_allowlisted(s: EngineView, a: u64, now: u64)
    requires
        s.blocklist.contains(a),
    ensures
        s.after_add_to_allowlist(a, now) is Err,
{
}

/// Registering a holder twice is the same as registering it once, and the
/// register then counts one more holder than before only if it was new.
pub proof fn law_holder_registration(s: EngineView, a: u64, t1: u64, t2: u64)
    requires
        s.valid(),
    ensures
        s.after_register_holder(a, t1).after_register_holder(a, t2) == s.after_register_holder(
            a,
            t1,
        ),
        s.after_register_holder(a, t1).holders.len() == s.holders.len() + (if s.holders.contains_key(
            a,
        ) {
            0int
        } else {
            1int
        }),
        s.holders.contains_key(a) ==> s.after_unregister_holder(a).holders.len() == s.holders.len()
            - 1,
{
}

/// With no activation delay, a proposal can be activated at the moment it is
/// made, and the proposed rules come into force.
pub proof fn law_zero_delay_activates_at_once(
    s: EngineView,
    r: ComplianceRules,
    description: Seq<char>,
    now: u64,
)
    requires
        s.valid(),
        s.activation_delay == 0,
        s.after_propose_rules(r, description, now) is Ok,
    ensures
        ({
            let t = s.after_propose_rules(r, description, now)->Ok_0;
            &&& t.after_activate_rules(now) is Ok
            &&& t.after_activate_rules(now)->Ok_0.rules == r
            &&& t.after_activate_rules(now)->Ok_0.pending is None
        }),
{
}

/// A proposal cannot be activated before its delay has passed, and can be
/// from then on, as long as the state it is checked against still admits it;
/// a newer proposal replaces an older one.
pub proof fn law_delayed_activation(
    s: EngineView,
    r: ComplianceRules,
    r2: ComplianceRules,
    description: Seq<char>,
    description2: Seq<char>,
    proposed_at: u64,
    now: u64,
)
    requires
        s.valid(),
        s.after_propose_rules(r, description, proposed_at) is Ok,
    ensures
        ({
            let t = s.after_propose_rules(r, description, proposed_at)->Ok_0;
            &&& now < proposed_at + s.activation_delay && proposed_at + s.activation_delay
                <= u64::MAX ==> t.after_activate_rules(now) == Err::<
                EngineView,
                ComplianceError,
            >(ComplianceError::TooEarlyToActivate)
            &&& now >= proposed_at + s.activation_delay ==> t.after_activate_rules(now) is Ok
                && t.after_activate_rules(now)->Ok_0.rules == r
            &&& t.after_propose_rules(r2, description2, proposed_at) is Ok ==> t.after_propose_rules(
                r2,
                description2,
                proposed_at,
            )->Ok_0.pending->0.rules == r2
        }),
{
}

/// A history page never holds more than 20 records, and holds consecutive
/// versions from `start` on.
pub proof fn law_history_page_bounded_and_ordered(s: EngineView, start: u32, limit: u32)
    requires
        s.valid(),
    ensures
        s.history_page(start, limit).len() <= HISTORY_PAGE_LIMIT,
        s.history_page(start, limit).len() <= limit,
        forall|i: int|
            0 <= i < s.history_page(start, limit).len() ==> #[trigger] s.history_page(
                start,
                limit,
            )[i].version == start + i,
{
}

/// A schema migration changes only the schema version and the migration log:
/// the rules, lists, holders and history stay as they were, and so does
/// every transfer verdict.
pub proof fn law_migration_keeps_state(
    s: EngineView,
    to_version: u32,
    description: Seq<char>,
    now: u64,
    from: u64,
    to: u64,
    amount: i128,
    when: u64,
    from_kyc: Option<KycView>,
    to_kyc: Option<KycView>,
    require_kyc: bool,
)
    requires
        s.valid(),
        s.migrations.len() < u32::MAX,
        s.after_migrate_schema(to_version, description, now) is Ok,
    ensures
        ({
            let t = s.after_migrate_schema(to_version, description, now)->Ok_0;
            &&& t.valid()
            &&& t.schema_version == s.schema_version + 1
            &&& t.migrations.len() == s.migrations.len() + 1
            &&& t.rules == s.rules
            &&& t.blocklist == s.blocklist
            &&& t.allowlist == s.allowlist
            &&& t.holders == s.holders
            &&& t.history == s.history
            &&& t.decide(from, to, amount, when, from_kyc, to_kyc, require_kyc) == s.decide(
                from,
                to,
                amount,
                when,
                from_kyc,
                to_kyc,
                require_kyc,
            )
        }),
{
}

/// No operation rewrites the past: the history after any successful
/// operation starts with the history before it.
pub proof fn law_history_is_append_only(
    s: EngineView,
    r: ComplianceRules,
    description: Seq<char>,
    a: u64,
    now: u64,
)
    ensures
        s.after_set_rules(r, now) matches Ok(t) ==> s.history.is_prefix_of(t.history),
        s.after_propose_rules(r, description, now) matches Ok(t) ==> t.history == s.history,
        s.after_activate_rules(now) matches Ok(t) ==> s.history.is_prefix_of(t.history),
        s.history.is_prefix_of(s.after_pause(now).history),
        s.history.is_prefix_of(s.after_unpause(now).history),
        s.history.is_prefix_of(s.after_add_to_blocklist(a, now).history),
        s.history.is_prefix_of(s.after_remove_from_blocklist(a, now).history),
        s.after_add_to_allowlist(a, now) matches Ok(t) ==> s.history.is_prefix_of(t.history),
        s.history.is_prefix_of(s.after_remove_from_allowlist(a, now).history),
        s.after_register_holder(a, now).history == s.history,
        s.after_unregister_holder(a).history == s.history,
{
    assert(s.history.is_prefix_of(s.history));
    assert(s.history.is_prefix_of(s.after_pause(now).history)) by {
        assert(s.after_pause(now).history.subrange(0, s.history.len() as int) =~= s.history);
    }
    assert(s.history.is_prefix_of(s.after_unpause(now).history)) by {
        assert(s.after_unpause(now).history.subrange(0, s.history.len() as int) =~= s.history);
    }
    if let Ok(t) = s.after_set_rules(r, now) {
        assert(t.history.subrange(0, s.history.len() as int) =~= s.history);
    }
    if let Ok(t) = s.after_activate_rules(now) {
        assert(t.history.subrange(0, s.history.len() as int) =~= s.history);
    }
    if !s.blocklist.contains(a) {
        assert(s.after_add_to_blocklist(a, now).history.subrange(0, s.history.len() as int)
            =~= s.history);
    } else {
        assert(s.after_remove_from_blocklist(a, now).history.subrange(0, s.history.len() as int)
            =~= s.history);
    }
    if !s.allowlist.contains(a) {
        if let Ok(t) = s.after_add_to_allowlist(a, now) {
            assert(t.history.subrange(0, s.history.len() as int) =~= s.history);
        }
    } else {
        assert(s.after_remove_from_allowlist(a, now).history.subrange(0, s.history.len() as int)
            =~= s.history);
    }
}

/// A verdict reads only the rules, lists, holder register, tier policies and
/// risk scores: the history, a pending proposal and the schema log play no
/// part.
pub proof fn law_verdict_ignores_records(
    s: EngineView,
    history: Seq<PolicyRecordView>,
    pending: Option<PendingView>,
    schema_version: u32,
    migrations: Seq<MigrationView>,
    from: u64,
    to: u64,
    amount: i128,
    now: u64,
    from_kyc: Option<KycView>,
    to_kyc: Option<KycView>,
    require_kyc: bool,
)
    ensures
        (EngineView { history, pending, schema_version, migrations, ..s }).decide(
            from,
            to,
            amount,
            now,
            from_kyc,
            to_kyc,
            require_kyc,
        ) == s.decide(from, to, amount, now, from_kyc, to_kyc, require_kyc),
{
}

/// Storing the policy of one tier pair leaves the policy of every other
/// pair as it was, and the stored pair reads back the stored policy.
pub proof fn law_tier_policies_are_independent(
    s: EngineView,
    from_tier: u32,
    to_tier: u32,
    p: TierPolicy,
    other_from: u32,
    other_to: u32,
)
    requires
        s.after_set_tier_policy(from_tier, to_tier, p) is Ok,
    ensures
        ({
            let t = s.after_set_tier_policy(from_tier, to_tier, p)->Ok_0;
            &&& policy_at(t.tier_policies, tier_key(from_tier, to_tier)) == Some(p)
            &&& (other_from != from_tier || other_to != to_tier) ==> policy_at(
                t.tier_policies,
                tier_key(other_from, other_to),
            ) == policy_at(s.tier_policies, tier_key(other_from, other_to))
        }),
{
    lemma_tier_key_injective(from_tier, to_tier, other_from, other_to);
}

/// A policy stored for the exact tier pair governs transfers between those
/// tiers, whatever wildcard policies exist; the sender-tier wildcard governs
/// only where no exact policy exists, the receiver-tier wildcard only where
/// neither of those exists, and the double wildcard only as a last resort.
pub proof fn law_exact_tier_policy_overrides_wildcards(
    m: Map<u64, TierPolicy>,
    from_tier: u32,
    to_tier: u32,
)
    ensures
        m.contains_key(tier_key(from_tier, to_tier)) ==> governing_policy(m, from_tier, to_tier)
            == Some(m[tier_key(from_tier, to_tier)]),
        !m.contains_key(tier_key(from_tier, to_tier)) && m.contains_key(
            tier_key(from_tier, TIER_WILDCARD),
        ) ==> governing_policy(m, from_tier, to_tier) == Some(
            m[tier_key(from_tier, TIER_WILDCARD)],
        ),
        !m.contains_key(tier_key(from_tier, to_tier)) && !m.contains_key(
            tier_key(from_tier, TIER_WILDCARD),
        ) && m.contains_key(tier_key(TIER_WILDCARD, to_tier)) ==> governing_policy(
            m,
            from_tier,
            to_tier,
        ) == Some(m[tier_key(TIER_WILDCARD, to_tier)]),
        governing_policy(m, from_tier, to_tier) is None <==> (!m.contains_key(
            tier_key(from_tier, to_tier),
        ) && !m.contains_key(tier_key(from_tier, TIER_WILDCARD)) && !m.contains_key(
            tier_key(TIER_WILDCARD, to_tier),
        ) && !m.contains_key(tier_key(TIER_WILDCARD, TIER_WILDCARD))),
{
}

/// Once a policy is stored for a tier pair, a transfer between parties of
/// those tiers is refused as tier-blocked exactly when that policy blocks,
/// whatever wildcard policies exist; a policy that neither blocks, caps, nor
/// asks for higher tiers lets the transfer through the tier check.
pub proof fn law_stored_tier_policy_decides_tier_check(
    s: EngineView,
    p: TierPolicy,
    from_kyc: KycView,
    to_kyc: KycView,
    amount: i128,
)
    requires
        s.after_set_tier_policy(from_kyc.tier, to_kyc.tier, p) is Ok,
    ensures
        ({
            let t = s.after_set_tier_policy(from_kyc.tier, to_kyc.tier, p)->Ok_0;
            let failure = t.tier_failure(Some(from_kyc), Some(to_kyc), amount);
            &&& (failure == Some(DenyReason::TierBlocked)) <==> p.blocked
            &&& (!p.blocked && p.max_transfer_amount == 0 && p.min_from_tier <= from_kyc.tier
                && p.min_to_tier <= to_kyc.tier) ==> failure is None
        }),
{
    let t = s.after_set_tier_policy(from_kyc.tier, to_kyc.tier, p)->Ok_0;
    assert(t.tier_policies.contains_key(tier_key(from_kyc.tier, to_kyc.tier)));
    assert(t.tier_policies[tier_key(from_kyc.tier, to_kyc.tier)] == p);
}

/// With risk scoring on, the score recorded for a jurisdiction is the score
/// used for its parties; the default score applies only to jurisdictions
/// without one.
pub proof fn law_recorded_risk_score_is_used(s: EngineView, j: Seq<char>, c: RiskConfig)
    ensures
        s.risk_scores.contains_key(j) ==> s.risk_score(j, c) == s.risk_scores[j],
        !s.risk_scores.contains_key(j) ==> s.risk_score(j, c) == c.default_score,
{
}

/// After a score is recorded for a jurisdiction, with risk scoring on, a
/// sender from that jurisdiction is refused for risk exactly when that score
/// exceeds the maximum, and so is a receiver from it.
pub proof fn law_risk_refusal_follows_recorded_score(
    s: EngineView,
    j: Seq<char>,
    score: u32,
    c: RiskConfig,
    party: KycView,
    other: KycView,
)
    requires
        s.risk_config == Some(c),
        party.jurisdiction == j,
        other.jurisdiction != j,
        !s.risk_scores.contains_key(other.jurisdiction) || s.risk_scores[other.jurisdiction]
            <= c.max_score,
        s.risk_scores.contains_key(other.jurisdiction) || c.default_score <= c.max_score,
    ensures
        ({
            let t = EngineView { risk_scores: s.risk_scores.insert(j, score), ..s };
            &&& (t.risk_failure(Some(party), None) == Some(DenyReason::FromRiskTooHigh)) <==> score
                > c.max_score
            &&& t.risk_failure(Some(party), None) is None <==> score <= c.max_score
            &&& (t.risk_failure(Some(other), Some(party)) == Some(DenyReason::ToRiskTooHigh)) <==> score
                > c.max_score
        }),
{
}

/// Every successful operation that records a policy version stamps it with
/// the time of that operation, and numbers it after the versions before it.
pub proof fn law_policy_records_carry_the_time_of_change(
    s: EngineView,
    r: ComplianceRules,
    a: u64,
    now: u64,
)
    requires
        s.history.len() < u32::MAX,
    ensures
        s.after_set_rules(r, now) matches Ok(t) ==> t.current_record().activation_timestamp == now
            && t.current_record().version == s.history.len(),
        s.after_activate_rules(now) matches Ok(t) ==> t.current_record().activation_timestamp
            == now && t.current_record().version == s.history.len(),
        s.after_pause(now).current_record().activation_timestamp == now,
        s.after_unpause(now).current_record().activation_timestamp == now,
        !s.blocklist.contains(a) ==> s.after_add_to_blocklist(a, now).current_record().activation_timestamp
            == now,
        s.blocklist.contains(a) ==> s.after_remove_from_blocklist(
            a,
            now,
        ).current_record().activation_timestamp == now,
        !s.allowlist.contains(a) ==> (s.after_add_to_allowlist(a, now) matches Ok(t)
            ==> t.current_record().activation_timestamp == now),
        s.allowlist.contains(a) ==> s.after_remove_from_allowlist(
            a,
            now,
        ).current_record().activation_timestamp == now,
{
}

/// A migration succeeds exactly when it moves the schema one version up;
/// from any version below the largest, the next version always migrates.
pub proof fn law_migration_succeeds_exactly_one_step_up(
    s: EngineView,
    to_version: u32,
    description: Seq<char>,
    now: u64,
)
    ensures
        s.after_migrate_schema(to_version, description, now) is Ok <==> to_version
            == s.schema_version + 1,
        s.schema_version < u32::MAX ==> s.after_migrate_schema(
            (s.schema_version + 1) as u32,
            description,
            now,
        ) is Ok,
        s.after_migrate_schema(to_version, description, now) matches Ok(t) ==> t.schema_version
            == to_version && t.migrations.last().from_version == s.schema_version
            && t.migrations.last().to_version == to_version,
        to_version == s.schema_version ==> s.after_migrate_schema(to_version, description, now)
            == Err::<EngineView, ComplianceError>(ComplianceError::AlreadyAtSchemaVersion),
{
}

/// With one jurisdiction required and both KYC records present, the transfer
/// fails the jurisdiction check exactly when the two jurisdiction codes
/// differ, compared whole.
pub proof fn law_jurisdiction_check_compares_whole_codes(
    s: EngineView,
    from_kyc: KycView,
    to_kyc: KycView,
)
    ensures
        s.jurisdictions_differ(Some(from_kyc), Some(to_kyc)) <==> (
        s.rules.require_same_jurisdiction && from_kyc.jurisdiction != to_kyc.jurisdiction),
        s.jurisdictions_differ(Some(from_kyc), None) == false,
        s.jurisdictions_differ(None, Some(to_kyc)) == false,
{
}

/// Pausing and then unpausing an unpaused engine brings back the rules that
/// were in force, and leaves the lists alone.
pub proof fn law_pause_unpause_restores_rules(s: EngineView, t1: u64, t2: u64)
    requires
        !s.rules.paused,
    ensures
        s.after_pause(t1).after_unpause(t2).rules == s.rules,
        s.after_pause(t1).after_unpause(t2).blocklist == s.blocklist,
        s.after_pause(t1).after_unpause(t2).allowlist == s.allowlist,
{
}

} // verus!
