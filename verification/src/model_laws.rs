//! Properties of the lifecycle model that hold for every state and command,
//! and for every sequence of commands.
use vstd::prelude::*;
use crate::model::{Command, LifecycleState, ProvisioningOrigin, ReceiptClaims, Rejection, StateMachine};

verus! {

/// The state reached by applying `commands` in order.
pub open spec fn run(state: StateMachine, commands: Seq<Command>) -> StateMachine
    decreases commands.len(),
{
    if commands.len() == 0 {
        state
    } else {
        run(state.spec_apply(commands[0]).0, commands.drop_first())
    }
}

/// Receipt claims released by one applied command, if any.
pub open spec fn released(state: StateMachine, command: Command) -> Seq<ReceiptClaims> {
    match state.spec_apply(command).1 {
        Ok(execution) => match execution.receipt {
            Some(claims) => seq![claims],
            None => Seq::empty(),
        },
        Err(_) => Seq::empty(),
    }
}

/// Every receipt released while applying `commands` in order.
pub open spec fn run_receipts(state: StateMachine, commands: Seq<Command>) -> Seq<ReceiptClaims>
    decreases commands.len(),
{
    if commands.len() == 0 {
        Seq::empty()
    } else {
        released(state, commands[0]) + run_receipts(
            state.spec_apply(commands[0]).0,
            commands.drop_first(),
        )
    }
}

/// Strict order of receipt scopes: generation first, then sequence.
pub open spec fn scope_before(gen_a: u64, seq_a: u64, gen_b: u64, seq_b: u64) -> bool {
    gen_a < gen_b || (gen_a == gen_b && seq_a < seq_b)
}

/// Whether `command` is documented for lifecycle state `from` at all.
pub open spec fn documented_source(from: LifecycleState, command: Command) -> bool {
    match command {
        Command::BeginProvisioning { .. } => from == LifecycleState::Blank,
        Command::CommitProvisioning { .. } => from == LifecycleState::Provisioning,
        Command::AbortProvisioning => from == LifecycleState::Provisioning,
        Command::StageUpdate { .. } => from == LifecycleState::Operational,
        Command::AcceptUpdate { .. } => from == LifecycleState::UpdatePending,
        Command::RejectUpdate { .. } => from == LifecycleState::UpdatePending,
        Command::EnterRecovery { .. } => from == LifecycleState::Operational,
        Command::CompleteRecovery { .. } => from == LifecycleState::Recovery,
        Command::Revoke { .. } => from == LifecycleState::Provisioning || from
            == LifecycleState::Operational || from == LifecycleState::UpdatePending || from
            == LifecycleState::Recovery || from == LifecycleState::Fault,
        Command::BeginRecommission { .. } => from == LifecycleState::Revoked,
        Command::Decommission { .. } => from != LifecycleState::Decommissioned,
        Command::StartMeasurementEpoch => from == LifecycleState::Operational,
        Command::IssueReceipt { .. } => from == LifecycleState::Operational,
    }
}

/// The documented resulting lifecycle state of a successful command.
pub open spec fn documented_target(command: Command, to: LifecycleState) -> bool {
    match command {
        Command::BeginProvisioning { .. } => to == LifecycleState::Provisioning,
        Command::CommitProvisioning { .. } => to == LifecycleState::Operational,
        Command::AbortProvisioning => to == LifecycleState::Blank || to == LifecycleState::Revoked,
        Command::StageUpdate { .. } => to == LifecycleState::UpdatePending,
        Command::AcceptUpdate { .. } => to == LifecycleState::Operational,
        Command::RejectUpdate { .. } => to == LifecycleState::Operational,
        Command::EnterRecovery { .. } => to == LifecycleState::Recovery,
        Command::CompleteRecovery { .. } => to == LifecycleState::Operational,
        Command::Revoke { .. } => to == LifecycleState::Revoked,
        Command::BeginRecommission { .. } => to == LifecycleState::Provisioning,
        Command::Decommission { .. } => to == LifecycleState::Decommissioned,
        Command::StartMeasurementEpoch => to == LifecycleState::Operational,
        Command::IssueReceipt { .. } => to == LifecycleState::Operational,
    }
}

/// Decommissioning is terminal: every later command is rejected with
/// `Decommissioned` and leaves the state untouched.
pub proof fn decommissioned_is_terminal(state: StateMachine, command: Command)
    requires
        state.lifecycle == LifecycleState::Decommissioned,
    ensures
        state.spec_apply(command) == (state, Err::<crate::model::Execution, Rejection>(
            Rejection::Decommissioned,
        )),
{
}

/// Rejections fail closed: a rejected command either leaves the complete
/// state unchanged or moves it into `Fault` with all staging erased and the
/// identity disabled; authorization, state, version and validation
/// rejections never change anything.
pub proof fn rejections_fail_closed(state: StateMachine, command: Command)
    ensures
        state.spec_apply(command).1 is Err ==> {
            let next = state.spec_apply(command).0;
            next == state || (next == state.faulted())
        },
        (state.spec_apply(command).1 matches Err(r) && (r == Rejection::Unauthorized || r
            == Rejection::InvalidState || r == Rejection::RollbackDetected || r
            == Rejection::InvalidTransition || r == Rejection::Decommissioned)) ==> state.spec_apply(
            command,
        ).0 == state,
{
}

/// Commands not documented for the current lifecycle state fail closed with
/// `InvalidState` (or `Decommissioned` once decommissioned) and change
/// nothing; documented commands that succeed reach their documented state.
pub proof fn undocumented_pairs_fail_closed(state: StateMachine, command: Command)
    ensures
        !documented_source(state.lifecycle, command) ==> state.spec_apply(command) == (
            state,
            Err::<crate::model::Execution, Rejection>(
                if state.lifecycle == LifecycleState::Decommissioned {
                    Rejection::Decommissioned
                } else {
                    Rejection::InvalidState
                },
            ),
        ),
        state.spec_apply(command).1 is Ok ==> documented_source(state.lifecycle, command)
            && documented_target(command, state.spec_apply(command).0.lifecycle),
{
}

/// Protected counters never roll back: the device generation never
/// decreases, and within one generation neither the transition counter, the
/// measurement epoch nor the receipt sequence decreases, whether the command
/// succeeds or fails.
pub proof fn counters_never_roll_back(state: StateMachine, command: Command)
    ensures
        ({
            let next = state.spec_apply(command).0;
            &&& next.device_generation >= state.device_generation
            &&& next.device_generation == state.device_generation ==> {
                &&& next.transition_counter >= state.transition_counter
                &&& next.measurement_epoch >= state.measurement_epoch
                &&& next.receipt_sequence >= state.receipt_sequence
                &&& next.active_version >= state.active_version
            }
        }),
{
}

/// Every accepted command advances rollback-relevant state: the generation,
/// the transition counter, the measurement epoch or the receipt sequence
/// strictly increases, except a decommission whose transition counter was
/// already exhausted, which still reaches the terminal state.
pub proof fn accepted_commands_advance(state: StateMachine, command: Command)
    requires
        state.spec_apply(command).1 is Ok,
    ensures
        ({
            let next = state.spec_apply(command).0;
            ||| next.device_generation > state.device_generation
            ||| next.transition_counter > state.transition_counter
            ||| next.measurement_epoch > state.measurement_epoch
            ||| next.receipt_sequence > state.receipt_sequence
            ||| next.lifecycle == LifecycleState::Decommissioned && state.transition_counter
                == u64::MAX
        }),
{
}

/// Only an operational, identity-bearing device issues receipts, and a
/// released receipt binds the state whose sequence it just reserved.
pub proof fn receipts_bind_operational_state(state: StateMachine, command: Command)
    ensures
        (state.spec_apply(command).1 matches Ok(execution) && execution.receipt is Some) ==> {
            let next = state.spec_apply(command).0;
            let claims = state.spec_apply(command).1->Ok_0.receipt->0;
            &&& command is IssueReceipt
            &&& state.lifecycle == LifecycleState::Operational
            &&& state.identity_active
            &&& next.lifecycle == LifecycleState::Operational
            &&& next.receipt_sequence == state.receipt_sequence + 1
            &&& next.device_generation == state.device_generation
            &&& claims == next.claims_of(command->IssueReceipt_challenge)
        },
{
}

proof fn step_scope_monotone(state: StateMachine, command: Command)
    ensures
        ({
            let next = state.spec_apply(command).0;
            next.device_generation > state.device_generation || (next.device_generation
                == state.device_generation && next.receipt_sequence >= state.receipt_sequence)
        }),
        forall|i: int|
            0 <= i < released(state, command).len() ==> {
                let next = state.spec_apply(command).0;
                &&& (#[trigger] released(state, command)[i]).device_generation
                    == next.device_generation
                &&& released(state, command)[i].receipt_sequence == next.receipt_sequence
                &&& next.device_generation == state.device_generation
                &&& next.receipt_sequence == state.receipt_sequence + 1
            },
        released(state, command).len() <= 1,
{
    counters_never_roll_back(state, command);
}

proof fn run_receipts_ordered(state: StateMachine, commands: Seq<Command>)
    ensures
        forall|i: int|
            0 <= i < run_receipts(state, commands).len() ==> scope_before(
                state.device_generation,
                state.receipt_sequence,
                (#[trigger] run_receipts(state, commands)[i]).device_generation,
                run_receipts(state, commands)[i].receipt_sequence,
            ),
        forall|i: int, j: int|
            0 <= i < j < run_receipts(state, commands).len() ==> scope_before(
                (#[trigger] run_receipts(state, commands)[i]).device_generation,
                run_receipts(state, commands)[i].receipt_sequence,
                (#[trigger] run_receipts(state, commands)[j]).device_generation,
                run_receipts(state, commands)[j].receipt_sequence,
            ),
    decreases commands.len(),
{
    if commands.len() > 0 {
        let next = state.spec_apply(commands[0]).0;
        let here = released(state, commands[0]);
        let rest = run_receipts(next, commands.drop_first());
        run_receipts_ordered(next, commands.drop_first());
        step_scope_monotone(state, commands[0]);
        assert(run_receipts(state, commands) == here + rest);
        let all = here + rest;
        assert forall|i: int| 0 <= i < all.len() implies scope_before(
            state.device_generation,
            state.receipt_sequence,
            (#[trigger] all[i]).device_generation,
            all[i].receipt_sequence,
        ) by {
            if i < here.len() {
                assert(all[i] == here[i]);
            } else {
                assert(all[i] == rest[i - here.len()]);
                if here.len() == 1 {
                    assert(here[0].device_generation == next.device_generation);
                }
            }
        }
        assert forall|i: int, j: int| 0 <= i < j < all.len() implies scope_before(
            (#[trigger] all[i]).device_generation,
            all[i].receipt_sequence,
            (#[trigger] all[j]).device_generation,
            all[j].receipt_sequence,
        ) by {
            if j < here.len() {
            } else if i < here.len() {
                assert(all[i] == here[i]);
                assert(all[j] == rest[j - here.len()]);
                assert(here[i].device_generation == next.device_generation);
            } else {
                assert(all[i] == rest[i - here.len()]);
                assert(all[j] == rest[j - here.len()]);
            }
        }
    }
}

/// Receipt sequences are never reused within their scope: along any command
/// sequence, every released receipt has a strictly later (generation,
/// sequence) scope than every receipt released before it, so no two
/// receipts share a generation and sequence.
pub proof fn receipt_scopes_strictly_increase(state: StateMachine, commands: Seq<Command>)
    ensures
        forall|i: int, j: int|
            0 <= i < j < run_receipts(state, commands).len() ==> scope_before(
                (#[trigger] run_receipts(state, commands)[i]).device_generation,
                run_receipts(state, commands)[i].receipt_sequence,
                (#[trigger] run_receipts(state, commands)[j]).device_generation,
                run_receipts(state, commands)[j].receipt_sequence,
            ),
{
    run_receipts_ordered(state, commands);
}

/// States reachable from a revoked state at generation `revoked_generation`.
spec fn after_revocation(state: StateMachine, revoked_generation: u64) -> bool {
    &&& state.device_generation >= revoked_generation
    &&& state.lifecycle != LifecycleState::Blank
    &&& (state.lifecycle == LifecycleState::Operational || state.lifecycle
        == LifecycleState::UpdatePending || state.lifecycle == LifecycleState::Recovery)
        ==> state.device_generation > revoked_generation
    &&& state.lifecycle == LifecycleState::Provisioning ==> state.provisioning_origin != Some(
        ProvisioningOrigin::Initial,
    )
}

proof fn after_revocation_preserved(
    state: StateMachine,
    command: Command,
    revoked_generation: u64,
)
    requires
        after_revocation(state, revoked_generation),
    ensures
        after_revocation(state.spec_apply(command).0, revoked_generation),
{
}

proof fn after_revocation_run(state: StateMachine, commands: Seq<Command>, revoked_generation: u64)
    requires
        after_revocation(state, revoked_generation),
    ensures
        after_revocation(run(state, commands), revoked_generation),
    decreases commands.len(),
{
    if commands.len() > 0 {
        after_revocation_preserved(state, commands[0], revoked_generation);
        after_revocation_run(state.spec_apply(commands[0]).0, commands.drop_first(), revoked_generation);
    }
}

/// A revoked identity never returns to operation: along any command sequence
/// from a revoked state, every operational, update-pending or recovery state
/// belongs to a strictly newer device generation, and the device never
/// returns to blank.
pub proof fn revoked_identity_never_returns(state: StateMachine, commands: Seq<Command>)
    requires
        state.lifecycle == LifecycleState::Revoked,
    ensures
        ({
            let end = run(state, commands);
            &&& end.device_generation >= state.device_generation
            &&& end.lifecycle != LifecycleState::Blank
            &&& (end.lifecycle == LifecycleState::Operational || end.lifecycle
                == LifecycleState::UpdatePending || end.lifecycle == LifecycleState::Recovery)
                ==> end.device_generation > state.device_generation
        }),
{
    after_revocation_run(state, commands, state.device_generation);
}

/// The lifecycle invariant every reachable state keeps: staged provisioning
/// exists exactly while provisioning and names the next generation, a staged
/// update exists exactly while an update is pending and is newer than the
/// active version, and the identity is active exactly in the operational,
/// update-pending and recovery states.
pub open spec fn lifecycle_invariant(s: StateMachine) -> bool {
    let provisioning = s.lifecycle == LifecycleState::Provisioning;
    &&& provisioning == s.provisioning_generation is Some
    &&& provisioning == s.provisioning_origin is Some
    &&& s.provisioning_generation matches Some(g) ==> s.device_generation < u64::MAX && g
        == s.device_generation + 1
    &&& (s.lifecycle == LifecycleState::UpdatePending) == s.pending_version is Some
    &&& s.pending_version matches Some(v) ==> v > s.active_version
    &&& s.identity_active == (s.lifecycle == LifecycleState::Operational || s.lifecycle
        == LifecycleState::UpdatePending || s.lifecycle == LifecycleState::Recovery)
}

/// Every command, accepted or rejected, keeps the lifecycle invariant.
pub proof fn commands_keep_lifecycle_invariant(state: StateMachine, command: Command)
    requires
        lifecycle_invariant(state),
    ensures
        lifecycle_invariant(state.spec_apply(command).0),
{
}

/// Every state reached from the blank state by any command sequence keeps
/// the lifecycle invariant.
pub proof fn reachable_states_keep_lifecycle_invariant(commands: Seq<Command>)
    ensures
        lifecycle_invariant(run(StateMachine::spec_new(), commands)),
{
    lemma_run_keeps_lifecycle_invariant(StateMachine::spec_new(), commands);
}

proof fn lemma_run_keeps_lifecycle_invariant(state: StateMachine, commands: Seq<Command>)
    requires
        lifecycle_invariant(state),
    ensures
        lifecycle_invariant(run(state, commands)),
    decreases commands.len(),
{
    if commands.len() > 0 {
        commands_keep_lifecycle_invariant(state, commands[0]);
        lemma_run_keeps_lifecycle_invariant(state.spec_apply(commands[0]).0, commands.drop_first());
    }
}

/// The authorities a command requires are all present.
pub open spec fn authorized(command: Command) -> bool {
    match command {
        Command::BeginProvisioning { authorizations: a } => a.root && a.physical_presence,
        Command::CommitProvisioning { authorizations: a } => a.root && a.owner,
        Command::AbortProvisioning => true,
        Command::StageUpdate { authorizations: a, .. } => a.update && a.owner,
        Command::AcceptUpdate { validation } => validation.spec_permits_activation(),
        Command::RejectUpdate { cause } => StateMachine::spec_cause_check(cause) is Ok,
        Command::EnterRecovery { authorizations: a } => a.recovery && (a.physical_presence
            || a.independent),
        Command::CompleteRecovery { authorizations: a, .. } => a.recovery && a.owner,
        Command::Revoke { authorizations: a } => a.revocation,
        Command::BeginRecommission { authorizations: a } => a.root && a.owner && (
        a.physical_presence || a.independent),
        Command::Decommission { authorizations: a } => a.decommission && (a.physical_presence
            || a.independent),
        Command::StartMeasurementEpoch => true,
        Command::IssueReceipt { .. } => true,
    }
}

/// The command moves no protected version backward.
pub open spec fn version_advances(state: StateMachine, command: Command) -> bool {
    match command {
        Command::StageUpdate { candidate_version, .. } => candidate_version > state.active_version,
        Command::CompleteRecovery { recovered_version, .. } => recovered_version
            >= state.active_version,
        _ => true,
    }
}

/// No protected counter is exhausted.
pub open spec fn counters_available(state: StateMachine) -> bool {
    &&& state.device_generation < u64::MAX
    &&& state.transition_counter < u64::MAX
    &&& state.measurement_epoch < u64::MAX
    &&& state.receipt_sequence < u64::MAX
}

/// A documented, authorized command on a state that keeps the lifecycle
/// invariant succeeds and reaches its documented state, unless it would
/// move a version backward or exhaust a protected counter.
pub proof fn documented_authorized_commands_succeed(state: StateMachine, command: Command)
    requires
        lifecycle_invariant(state),
        documented_source(state.lifecycle, command),
        authorized(command),
        version_advances(state, command),
        counters_available(state),
    ensures
        state.spec_apply(command).1 is Ok,
        documented_target(command, state.spec_apply(command).0.lifecycle),
{
}

} // verus!
