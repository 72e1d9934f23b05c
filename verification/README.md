# baochip

Verified research models for a device lifecycle, its two-slot atomic
persistence, and the candidate-neutral semantic fixtures that future encoders
must preserve. Every executable function is proved against a specification
written over its own spec functions; no outside crate is used.

## Layout

- `src/model.rs`: the deterministic lifecycle state machine. `apply` is
  proved equal to `spec_apply`, which states every command's authorization,
  state, version and counter rules.
- `src/model_laws.rs`: properties of the state machine that hold for every
  state and command, or along every command sequence: decommissioning is
  terminal, rejections fail closed, counters never roll back, receipt scopes
  strictly increase, a revoked identity never returns.
- `src/persistence.rs`: two complete record slots, an atomic selector,
  abstract integrity verdicts and interruption recovery. Each operation is
  proved equal to a spec function over `DurableView`.
- `src/persistence_laws.rs`: failures leave the model unchanged, authority
  changes only at selector commit, interruption restores either the previous
  or the selected record.
- `src/semantic.rs`: semantic objects and their validation rules.
- `src/semantic_laws.rs`: valid extension lists are strictly ordered sets; a
  released receipt is bound to a valid committed authority and a valid
  operational snapshot.
- `src/positive_corpus.rs`, `src/negative_corpus.rs`, `src/negative_laws.rs`:
  the frozen fixture corpora, specified value by value, and the proofs that
  every positive fixture is valid and every negative fixture fails with
  exactly its pinned error.
- `src/conformance.rs`: corpus-level conformance, proved to report the exact
  counts of the frozen corpora.
- `tests/`: executable tests of the same behaviour on concrete values.

## Open fields and fault injection

The fields of `StateMachine` and `DurableModel` are public, and both types
offer an `inject_test_fault` method, so that tests can build states no
command sequence reaches and exercise the fail-closed paths for them. Every
operation handles any field values without panicking. The laws about
sequences of operations (decommissioning is terminal, a revoked identity
never returns, counters never roll back, authority changes only at selector
commit) speak of values reached through the operations; a caller that writes
fields directly or injects faults is outside what they promise.
