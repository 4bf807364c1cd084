# compliance_engine

The transfer-compliance engine of a security token, verified with Verus.

The engine holds the rules every transfer is checked against (transfer cap,
holding periods, holder limit, jurisdiction matching, allowlist mode, pause),
a blocklist and an allowlist, the register of holders, tier-pair policies,
jurisdiction risk scores, a delayed-activation queue for rule changes, the
history of every policy change, and a schema-migration log. It answers
whether a transfer may go ahead, and why not.

## Layout

- `src/model.rs` — the engine's state as mathematical values (`EngineView`),
  the state invariant, every operation as a transition, and the transfer
  verdict (`decide`).
- `src/engine.rs` — `ComplianceEngine`, whose every operation is proved to
  perform exactly the transition of the model.
- `src/laws.rs` — properties that span operations (pause precedence, the
  history always matching the rules in force, append-only history, delayed
  activation, idempotent list updates, compaction on removal, migrations
  preserving verdicts, …).
- `src/address_set.rs` — dense account lists with a position index; removal
  moves the last entry into the gap.
- `src/tiers.rs`, `src/risk.rs`, `src/pairs.rs` — tier-pair policies with
  wildcard lookup, jurisdiction risk scores, and key/value lists.
- `src/snapshot.rs` — the state as plain lists for storage, and the check
  that rebuilds an engine from them.
- `src/types.rs` — rules, records, verdicts and errors.
- `tests/` — scenario tests and tests of the laws on concrete values.
- `app/` — the Soroban contract around the library: storage, admin auth, the
  ledger clock, account ids, and the call into the KYC registry.
