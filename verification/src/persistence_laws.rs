//! Transaction and interruption properties of the two-slot persistence model.
use vstd::prelude::*;
use crate::model::Command;
use crate::persistence::{
    audit, outcome_of, DurableModel, IntegrityTestFault,
    IntegrityVerdict, PersistenceError, PersistenceOperation, PersistencePhase, PrepareResult,
    Record,
};

verus! {

broadcast use vstd::array::array_len_matches_n;

/// Every failed persistence operation is a stable error that leaves the
/// complete model unchanged.
pub proof fn failures_leave_model_unchanged(
    model: DurableModel,
    command: Command,
    fault: IntegrityTestFault,
)
    ensures
        model@.spec_prepare(command).1 is Err ==> model@.spec_prepare(command).0 == model@,
        model@.spec_commit().1 is Err ==> model@.spec_commit().0 == model@,
        model@.spec_cleanup().1 is Err ==> model@.spec_cleanup().0 == model@,
        model@.spec_recover().1 is Err ==> model@.spec_recover().0 == model@,
        model@.spec_inject(fault).1 is Err ==> model@.spec_inject(fault).0 == model@,
{
}

/// Every command the lifecycle model accepts changes the authoritative
/// state, so preparing never reports a successful command without a durable
/// change: an accepted command is always staged as a new record.
pub proof fn accepted_commands_always_stage(model: DurableModel, command: Command)
    ensures
        model@.spec_prepare(command).1 != Err::<PrepareResult, PersistenceError>(
            PersistenceError::SuccessfulCommandWithoutDurableChange,
        ),
{
    if model@.phase is Clean && model@.check() is Ok {
        let state = model@.rec(model@.active_slot as int).state;
        if state.spec_apply(command).1 is Ok {
            crate::model_laws::accepted_commands_advance(state, command);
            if state.lifecycle == crate::model::LifecycleState::Decommissioned {
                crate::model_laws::decommissioned_is_terminal(state, command);
            }
        }
    }
}

/// A model whose selector or selected record is untrustworthy accepts no
/// command and exposes no authoritative state: preparation fails with a
/// stable error before the lifecycle model runs, and nothing changes.
pub proof fn corrupted_authority_accepts_no_command(model: DurableModel, command: Command)
    requires
        model@.active_slot <= 1,
        !model@.selector_valid() || !model@.valid(model@.active_slot as int),
    ensures
        model@.spec_prepare(command).1 is Err,
        model@.spec_prepare(command).0 == model@,
        model@.authoritative() is Err,
{
}

/// A rejection that leaves the lifecycle state unchanged stages nothing: the
/// model is unchanged and the lifecycle model rejected the command without
/// changing its state.
pub proof fn unchanged_rejection_stages_nothing(model: DurableModel, command: Command)
    requires
        model@.spec_prepare(command).1 matches Ok(PrepareResult::NotStaged { .. }),
    ensures
        ({
            let active = model@.rec(model@.active_slot as int);
            let rejection = model@.spec_prepare(command).1->Ok_0->NotStaged_rejection;
            &&& model@.spec_prepare(command).0 == model@
            &&& model@.phase == PersistencePhase::Clean
            &&& active.state.spec_apply(command) == (
                active.state,
                Err::<crate::model::Execution, crate::model::Rejection>(rejection),
            )
        }),
{
}

/// An interruption after preparation restores the exact previous model: the
/// candidate is discarded, the previous record stays authoritative, and no
/// commit identifier is consumed.
pub proof fn crash_after_prepare_restores_previous(model: DurableModel, command: Command)
    requires
        model@.spec_prepare(command).1 matches Ok(PrepareResult::Staged { .. }),
    ensures
        ({
            let prepared = model@.spec_prepare(command).0;
            let active = model@.rec(model@.active_slot as int);
            &&& prepared.authoritative() == model@.authoritative()
            &&& prepared.spec_recover().0 == model@
            &&& prepared.spec_recover().1 == Ok::<_, PersistenceError>(
                audit(
                    PersistenceOperation::RecoveredPrevious,
                    active.state.spec_apply(command).0.lifecycle,
                    active.state.lifecycle,
                    active.commit_id,
                ),
            )
        }),
{
    let prepared = model@.spec_prepare(command).0;
    let slot = (1 - model@.active_slot) as int;
    assert(prepared.slots.update(slot, None) =~= model@.slots);
}

/// Selector commit is the only authority change: after a staged prepare it
/// makes the complete next lifecycle state authoritative under the checked
/// successor commit identifier and releases exactly the outcome the lifecycle
/// model produced; an interruption after commit, or cleanup, keeps that next
/// state authoritative and re-establishes a clean model.
pub proof fn commit_makes_next_state_authoritative(model: DurableModel, command: Command)
    requires
        model@.spec_prepare(command).1 matches Ok(PrepareResult::Staged { .. }),
    ensures
        ({
            let active = model@.rec(model@.active_slot as int);
            let (next_state, result) = active.state.spec_apply(command);
            let next = Record {
                commit_id: (active.commit_id + 1) as u64,
                state: next_state,
                integrity: IntegrityVerdict::Valid,
            };
            let prepared = model@.spec_prepare(command).0;
            let committed = prepared.spec_commit().0;
            &&& active.commit_id < u64::MAX
            &&& prepared.spec_commit().1 matches Ok(c) && c.outcome == outcome_of(result)
            &&& committed.authoritative() == Ok::<Record, PersistenceError>(next)
            &&& committed.spec_recover().1 is Ok
            &&& committed.spec_recover().0.authoritative() == Ok::<Record, PersistenceError>(next)
            &&& committed.spec_recover().0.phase == PersistencePhase::Clean
            &&& committed.spec_cleanup().1 is Ok
            &&& committed.spec_cleanup().0.authoritative() == Ok::<Record, PersistenceError>(next)
            &&& committed.spec_cleanup().0.phase == PersistencePhase::Clean
        }),
{
}

/// Only selector commit changes authority: preparation, cleanup and
/// recovery of a model whose invariant holds keep the same authoritative
/// record, and commit advances the authoritative commit identifier by
/// exactly one.
pub proof fn authority_changes_only_at_commit(model: DurableModel, command: Command)
    requires
        model@.check() is Ok,
    ensures
        model@.spec_prepare(command).1 is Ok ==> model@.spec_prepare(command).0.authoritative()
            == model@.authoritative(),
        model@.spec_cleanup().1 is Ok ==> model@.spec_cleanup().0.authoritative()
            == model@.authoritative(),
        model@.spec_recover().1 is Ok ==> model@.spec_recover().0.authoritative()
            == model@.authoritative(),
        model@.spec_commit().1 is Ok ==> (model@.spec_commit().0.authoritative() matches Ok(r)
            && r.commit_id == model@.rec(model@.active_slot as int).commit_id + 1),
{
}

/// Recovery never makes a corrupted or incomplete record authoritative and
/// never mixes records: after a successful recovery the model is clean, its
/// selector and selected record are valid, and the authoritative record is a
/// valid record that was already in a slot. The complete invariant holds
/// afterwards, except that a stray record beside a trustworthy clean
/// selection is left where it was, with the model unchanged. A crash after
/// commit keeps the selected next record (never a rollback), and a crash
/// before commit never promotes the candidate.
pub proof fn recovery_selects_one_complete_record(model: DurableModel)
    requires
        model@.spec_recover().1 is Ok,
    ensures
        ({
            let recovered = model@.spec_recover().0;
            let kept = recovered.rec(recovered.active_slot as int);
            &&& recovered.check_active() is Ok
            &&& recovered.prepared_outcome is None
            &&& recovered.check() is Ok || (recovered == model@ && recovered.present(
                1 - recovered.active_slot,
            ))
            &&& recovered.phase == PersistencePhase::Clean
            &&& kept.integrity == IntegrityVerdict::Valid
            &&& model@.slots[recovered.active_slot as int] == Some(kept)
            &&& (model@.phase matches PersistencePhase::Committed { active_slot, .. }
                ==> recovered.active_slot == active_slot)
            &&& (model@.phase matches PersistencePhase::Prepared { slot, .. }
                ==> recovered.active_slot != slot)
        }),
{
}

/// Recovery is stable: once a recovery has succeeded, a further
/// interruption finds the same clean model, keeps it unchanged, and reports
/// the authoritative record as stable.
pub proof fn recovery_is_stable(model: DurableModel)
    requires
        model@.spec_recover().1 is Ok,
    ensures
        ({
            let recovered = model@.spec_recover().0;
            let kept = recovered.rec(recovered.active_slot as int);
            &&& recovered.spec_recover().0 == recovered
            &&& recovered.spec_recover().1 == Ok::<_, PersistenceError>(
                audit(
                    PersistenceOperation::RecoveredStable,
                    kept.state.lifecycle,
                    kept.state.lifecycle,
                    kept.commit_id,
                ),
            )
        }),
{
    recovery_selects_one_complete_record(model);
}

/// A recovery audit reports the lifecycle on each side of the recovered
/// boundary. Its resulting lifecycle and commit identifier are those of the
/// record that recovery leaves authoritative. When the record it discards is
/// present and valid, the prior lifecycle is that record's: the obsolete
/// previous record after a commit, the candidate before one.
pub proof fn recovery_audit_reports_both_lifecycles(model: DurableModel)
    requires
        model@.spec_recover().1 is Ok,
    ensures
        ({
            let before = model@;
            let after = model@.spec_recover().0;
            let report = model@.spec_recover().1->Ok_0;
            let kept = after.slots[after.active_slot as int]->0;
            &&& after.slots[after.active_slot as int] is Some
            &&& report.resulting_lifecycle == kept.state.lifecycle
            &&& report.commit_id == kept.commit_id
            &&& (before.phase is Committed && before.slots[before.phase->Committed_previous_slot as int]
                is Some && before.slots[before.phase->Committed_previous_slot as int]->0.integrity
                == IntegrityVerdict::Valid) ==> report.prior_lifecycle == before.slots[before.phase->Committed_previous_slot as int]->0.state.lifecycle
            &&& (before.phase is Prepared && before.slots[before.phase->Prepared_slot as int] is Some
                && before.slots[before.phase->Prepared_slot as int]->0.integrity
                == IntegrityVerdict::Valid) ==> report.prior_lifecycle
                == before.slots[before.phase->Prepared_slot as int]->0.state.lifecycle
            &&& before.phase is Clean ==> report.prior_lifecycle == kept.state.lifecycle
        }),
{
}

/// An interruption right after a selector commit reports the lifecycle
/// before the command as prior and the lifecycle after it as resulting,
/// under the new commit identifier.
pub proof fn crash_after_commit_reports_previous_and_next(model: DurableModel, command: Command)
    requires
        model@.spec_prepare(command).1 matches Ok(PrepareResult::Staged { .. }),
    ensures
        ({
            let active = model@.slots[model@.active_slot as int]->0;
            let next_state = active.state.spec_apply(command).0;
            let committed = model@.spec_prepare(command).0.spec_commit().0;
            committed.spec_recover().1 == Ok::<_, PersistenceError>(
                crate::persistence::PersistenceAudit {
                    operation: PersistenceOperation::RecoveredNext,
                    prior_lifecycle: active.state.lifecycle,
                    resulting_lifecycle: next_state.lifecycle,
                    commit_id: (active.commit_id + 1) as u64,
                },
            )
        }),
{
}

} // verus!
