//! Dependency-free executable lifecycle model.
//!
//! This module models security semantics. It does not implement cryptography,
//! persistent storage, a wire format, or hardware behavior.
use vstd::prelude::*;

verus! {

/// Security-relevant device lifecycle state.
#[derive(Clone, Copy, Debug, PartialEq, Eq, Structural)]
pub enum LifecycleState {
    Blank,
    Provisioning,
    Operational,
    UpdatePending,
    Recovery,
    Revoked,
    Decommissioned,
    Fault,
}

/// Source of a staged provisioning generation.
#[derive(Clone, Copy, Debug, PartialEq, Eq, Structural)]
pub enum ProvisioningOrigin {
    Initial,
    Recommission,
}

impl ProvisioningOrigin {
    /// Lifecycle state that an aborted provisioning session returns to.
    pub open spec fn spec_abort_state(self) -> LifecycleState {
        match self {
            ProvisioningOrigin::Initial => LifecycleState::Blank,
            ProvisioningOrigin::Recommission => LifecycleState::Revoked,
        }
    }

    fn abort_state(self) -> (state: LifecycleState)
        ensures
            state == self.spec_abort_state(),
    {
        match self {
            ProvisioningOrigin::Initial => LifecycleState::Blank,
            ProvisioningOrigin::Recommission => LifecycleState::Revoked,
        }
    }
}

/// Authorities and independent conditions supplied with a command.
#[derive(Clone, Copy, Debug, Default, PartialEq, Eq)]
pub struct Authorizations {
    pub root: bool,
    pub owner: bool,
    pub update: bool,
    pub recovery: bool,
    pub revocation: bool,
    pub decommission: bool,
    pub physical_presence: bool,
    pub independent: bool,
}

impl Authorizations {
    /// Every authority and condition absent.
    #[must_use]
    pub fn none() -> (auth: Self)
        ensures
            !auth.root,
            !auth.owner,
            !auth.update,
            !auth.recovery,
            !auth.revocation,
            !auth.decommission,
            !auth.physical_presence,
            !auth.independent,
    {
        Authorizations {
            root: false,
            owner: false,
            update: false,
            recovery: false,
            revocation: false,
            decommission: false,
            physical_presence: false,
            independent: false,
        }
    }
}

/// Abstract, test-controlled result of candidate update validation.
///
/// This records semantic validation outcomes only. It does not perform
/// signature verification, compatibility analysis, or cryptography.
#[derive(Clone, Copy, Debug, PartialEq, Eq)]
pub struct UpdateValidation {
    pub candidate_authenticated: bool,
    pub compatible: bool,
    pub integrity_valid: bool,
}

impl UpdateValidation {
    /// A validation result in which every check passed.
    #[must_use]
    pub fn passed() -> (validation: Self)
        ensures
            validation.candidate_authenticated,
            validation.compatible,
            validation.integrity_valid,
    {
        UpdateValidation { candidate_authenticated: true, compatible: true, integrity_valid: true }
    }

    /// A candidate may become active only when every check passed.
    pub open spec fn spec_permits_activation(self) -> bool {
        self.candidate_authenticated && self.compatible && self.integrity_valid
    }

    fn permits_activation(self) -> (permits: bool)
        ensures
            permits == self.spec_permits_activation(),
    {
        self.candidate_authenticated && self.compatible && self.integrity_valid
    }
}

/// Canonical reason a staged update returns to the active image.
#[derive(Clone, Copy, Debug, PartialEq, Eq)]
pub enum UpdateRejectionCause {
    /// A trusted, test-controlled validation result rejected the candidate.
    ValidationFailure(UpdateValidation),
    /// Update and owner authorities explicitly cancelled the candidate.
    AuthorizedCancellation(Authorizations),
}

/// Commands accepted by the lifecycle model.
#[derive(Clone, Copy, Debug, PartialEq, Eq)]
pub enum Command {
    BeginProvisioning { authorizations: Authorizations },
    CommitProvisioning { authorizations: Authorizations },
    AbortProvisioning,
    StageUpdate { authorizations: Authorizations, candidate_version: u64 },
    AcceptUpdate { validation: UpdateValidation },
    RejectUpdate { cause: UpdateRejectionCause },
    EnterRecovery { authorizations: Authorizations },
    CompleteRecovery { authorizations: Authorizations, recovered_version: u64 },
    Revoke { authorizations: Authorizations },
    BeginRecommission { authorizations: Authorizations },
    Decommission { authorizations: Authorizations },
    StartMeasurementEpoch,
    IssueReceipt { challenge: Option<[u8; 16]> },
}

/// Stable failure classes exposed by the model.
#[derive(Clone, Copy, Debug, PartialEq, Eq)]
pub enum Rejection {
    InvalidState,
    Unauthorized,
    InvalidTransition,
    InvalidVersion,
    RollbackDetected,
    ReplayDetected,
    MalformedInput,
    UnsupportedProfile,
    UnsupportedCriticalExtension,
    PersistenceFailure,
    CounterExhausted,
    IntegrityFailure,
    Decommissioned,
    InternalInvariantViolation,
}

/// Abstract receipt claims emitted by the lifecycle model.
#[derive(Clone, Copy, Debug, PartialEq, Eq)]
pub struct ReceiptClaims {
    pub lifecycle_state: LifecycleState,
    pub device_generation: u64,
    pub transition_counter: u64,
    pub measurement_epoch: u64,
    pub receipt_sequence: u64,
    pub active_version: u64,
    pub challenge: Option<[u8; 16]>,
}

/// Non-secret audit record for a modeled command.
#[derive(Clone, Copy, Debug, PartialEq, Eq)]
pub struct AuditEvent {
    pub previous_state: LifecycleState,
    pub resulting_state: LifecycleState,
    pub device_generation: u64,
    pub staged_device_generation: Option<u64>,
    pub transition_counter: u64,
}

/// Successful command output.
#[derive(Clone, Copy, Debug, PartialEq, Eq)]
pub struct Execution {
    pub audit: AuditEvent,
    pub receipt: Option<ReceiptClaims>,
}

/// Committed state of the lifecycle model.
///
/// Every field is visible so that fail-closed paths for states that no
/// command sequence reaches can be exercised directly; `apply` handles every
/// combination of field values.
#[derive(Clone, Copy, Debug, PartialEq, Eq, Structural)]
pub struct StateMachine {
    pub lifecycle: LifecycleState,
    pub device_generation: u64,
    pub transition_counter: u64,
    pub measurement_epoch: u64,
    pub receipt_sequence: u64,
    pub active_version: u64,
    pub pending_version: Option<u64>,
    pub provisioning_generation: Option<u64>,
    pub provisioning_origin: Option<ProvisioningOrigin>,
    pub identity_active: bool,
}

/// Typed fault conditions for exercising otherwise unreachable fail-closed
/// paths. Never a state-loading or recovery mechanism.
#[derive(Clone, Copy, Debug, PartialEq, Eq)]
pub enum ModelTestFault {
    ReceiptSequenceExhausted,
}

/// Lift a step that returns no receipt into the common step shape.
pub open spec fn no_receipt(
    step: (StateMachine, Result<(), Rejection>),
) -> (StateMachine, Result<Option<ReceiptClaims>, Rejection>) {
    (
        step.0,
        match step.1 {
            Ok(()) => Ok(None),
            Err(e) => Err(e),
        },
    )
}

impl StateMachine {
    /// The blank initial state.
    pub open spec fn spec_new() -> StateMachine {
        StateMachine {
            lifecycle: LifecycleState::Blank,
            device_generation: 0,
            transition_counter: 0,
            measurement_epoch: 0,
            receipt_sequence: 0,
            active_version: 0,
            pending_version: None,
            provisioning_generation: None,
            provisioning_origin: None,
            identity_active: false,
        }
    }

    /// The fail-closed state: staging erased, identity disabled, `Fault`.
    pub open spec fn faulted(self) -> StateMachine {
        StateMachine {
            lifecycle: LifecycleState::Fault,
            pending_version: None,
            provisioning_generation: None,
            provisioning_origin: None,
            identity_active: false,
            ..self
        }
    }

    /// The state with the transition counter advanced by one.
    pub open spec fn counted(self) -> StateMachine {
        StateMachine { transition_counter: (self.transition_counter + 1) as u64, ..self }
    }

    /// Advancing the transition counter: exhaustion faults without wrapping.
    pub open spec fn spec_advance(self) -> (StateMachine, Result<(), Rejection>) {
        if self.transition_counter == u64::MAX {
            (self.faulted(), Err(Rejection::CounterExhausted))
        } else {
            (self.counted(), Ok(()))
        }
    }

    pub open spec fn spec_begin_provisioning(self, auth: Authorizations) -> (
        StateMachine,
        Result<(), Rejection>,
    ) {
        if self.lifecycle != LifecycleState::Blank {
            (self, Err(Rejection::InvalidState))
        } else if !auth.root || !auth.physical_presence {
            (self, Err(Rejection::Unauthorized))
        } else if self.device_generation == u64::MAX {
            (self, Err(Rejection::CounterExhausted))
        } else if self.transition_counter == u64::MAX {
            (self.faulted(), Err(Rejection::CounterExhausted))
        } else {
            (
                StateMachine {
                    provisioning_generation: Some((self.device_generation + 1) as u64),
                    provisioning_origin: Some(ProvisioningOrigin::Initial),
                    lifecycle: LifecycleState::Provisioning,
                    ..self.counted()
                },
                Ok(()),
            )
        }
    }

    pub open spec fn spec_commit_provisioning(self, auth: Authorizations) -> (
        StateMachine,
        Result<(), Rejection>,
    ) {
        if self.lifecycle != LifecycleState::Provisioning {
            (self, Err(Rejection::InvalidState))
        } else if !auth.root || !auth.owner {
            (self, Err(Rejection::Unauthorized))
        } else if self.provisioning_generation is None || self.provisioning_origin is None
            || self.provisioning_generation->0 <= self.device_generation {
            (self.faulted(), Err(Rejection::InternalInvariantViolation))
        } else {
            (
                StateMachine {
                    lifecycle: LifecycleState::Operational,
                    device_generation: self.provisioning_generation->0,
                    transition_counter: 1,
                    measurement_epoch: 0,
                    receipt_sequence: 0,
                    active_version: 1,
                    pending_version: None,
                    provisioning_generation: None,
                    provisioning_origin: None,
                    identity_active: true,
                },
                Ok(()),
            )
        }
    }

    pub open spec fn spec_abort_provisioning(self) -> (StateMachine, Result<(), Rejection>) {
        if self.lifecycle != LifecycleState::Provisioning {
            (self, Err(Rejection::InvalidState))
        } else if self.provisioning_origin is None {
            (self.faulted(), Err(Rejection::InternalInvariantViolation))
        } else if self.transition_counter == u64::MAX {
            (self.faulted(), Err(Rejection::CounterExhausted))
        } else {
            (
                StateMachine {
                    pending_version: None,
                    provisioning_generation: None,
                    provisioning_origin: None,
                    identity_active: false,
                    lifecycle: self.provisioning_origin->0.spec_abort_state(),
                    ..self.counted()
                },
                Ok(()),
            )
        }
    }

    pub open spec fn spec_stage_update(self, auth: Authorizations, candidate_version: u64) -> (
        StateMachine,
        Result<(), Rejection>,
    ) {
        if self.lifecycle != LifecycleState::Operational {
            (self, Err(Rejection::InvalidState))
        } else if !auth.update || !auth.owner {
            (self, Err(Rejection::Unauthorized))
        } else if candidate_version <= self.active_version {
            (self, Err(Rejection::RollbackDetected))
        } else if self.transition_counter == u64::MAX {
            (self.faulted(), Err(Rejection::CounterExhausted))
        } else {
            (
                StateMachine {
                    pending_version: Some(candidate_version),
                    lifecycle: LifecycleState::UpdatePending,
                    ..self.counted()
                },
                Ok(()),
            )
        }
    }

    pub open spec fn spec_accept_update(self, validation: UpdateValidation) -> (
        StateMachine,
        Result<(), Rejection>,
    ) {
        if self.lifecycle != LifecycleState::UpdatePending {
            (self, Err(Rejection::InvalidState))
        } else if self.pending_version is None {
            (self.faulted(), Err(Rejection::InternalInvariantViolation))
        } else if self.pending_version->0 <= self.active_version {
            (self, Err(Rejection::RollbackDetected))
        } else if !validation.spec_permits_activation() {
            (self, Err(Rejection::InvalidTransition))
        } else if self.transition_counter == u64::MAX {
            (self.faulted(), Err(Rejection::CounterExhausted))
        } else {
            (
                StateMachine {
                    active_version: self.pending_version->0,
                    pending_version: None,
                    lifecycle: LifecycleState::Operational,
                    ..self.counted()
                },
                Ok(()),
            )
        }
    }

    /// Whether a rejection cause justifies returning to the active image.
    pub open spec fn spec_cause_check(cause: UpdateRejectionCause) -> Result<(), Rejection> {
        match cause {
            UpdateRejectionCause::ValidationFailure(validation) => {
                if validation.spec_permits_activation() {
                    Err(Rejection::InvalidTransition)
                } else {
                    Ok(())
                }
            },
            UpdateRejectionCause::AuthorizedCancellation(auth) => {
                if !auth.update || !auth.owner {
                    Err(Rejection::Unauthorized)
                } else {
                    Ok(())
                }
            },
        }
    }

    pub open spec fn spec_reject_update(self, cause: UpdateRejectionCause) -> (
        StateMachine,
        Result<(), Rejection>,
    ) {
        if self.lifecycle != LifecycleState::UpdatePending {
            (self, Err(Rejection::InvalidState))
        } else if self.pending_version is None {
            (self.faulted(), Err(Rejection::InternalInvariantViolation))
        } else if Self::spec_cause_check(cause) is Err {
            (self, Self::spec_cause_check(cause))
        } else if self.transition_counter == u64::MAX {
            (self.faulted(), Err(Rejection::CounterExhausted))
        } else {
            (
                StateMachine {
                    pending_version: None,
                    lifecycle: LifecycleState::Operational,
                    ..self.counted()
                },
                Ok(()),
            )
        }
    }

    pub open spec fn spec_enter_recovery(self, auth: Authorizations) -> (
        StateMachine,
        Result<(), Rejection>,
    ) {
        if self.lifecycle != LifecycleState::Operational {
            (self, Err(Rejection::InvalidState))
        } else if !auth.recovery || !(auth.physical_presence || auth.independent) {
            (self, Err(Rejection::Unauthorized))
        } else if self.transition_counter == u64::MAX {
            (self.faulted(), Err(Rejection::CounterExhausted))
        } else {
            (StateMachine { lifecycle: LifecycleState::Recovery, ..self.counted() }, Ok(()))
        }
    }

    pub open spec fn spec_complete_recovery(self, auth: Authorizations, recovered_version: u64) -> (
        StateMachine,
        Result<(), Rejection>,
    ) {
        if self.lifecycle != LifecycleState::Recovery {
            (self, Err(Rejection::InvalidState))
        } else if !auth.recovery || !auth.owner {
            (self, Err(Rejection::Unauthorized))
        } else if recovered_version < self.active_version {
            (self, Err(Rejection::RollbackDetected))
        } else if self.transition_counter == u64::MAX {
            (self.faulted(), Err(Rejection::CounterExhausted))
        } else {
            (
                StateMachine {
                    active_version: recovered_version,
                    lifecycle: LifecycleState::Operational,
                    ..self.counted()
                },
                Ok(()),
            )
        }
    }

    pub open spec fn spec_revoke(self, auth: Authorizations) -> (
        StateMachine,
        Result<(), Rejection>,
    ) {
        if self.lifecycle == LifecycleState::Blank || self.lifecycle == LifecycleState::Revoked {
            (self, Err(Rejection::InvalidState))
        } else if !auth.revocation {
            (self, Err(Rejection::Unauthorized))
        } else if self.transition_counter == u64::MAX {
            (self.faulted(), Err(Rejection::CounterExhausted))
        } else {
            (
                StateMachine {
                    pending_version: None,
                    provisioning_generation: None,
                    provisioning_origin: None,
                    identity_active: false,
                    lifecycle: LifecycleState::Revoked,
                    ..self.counted()
                },
                Ok(()),
            )
        }
    }

    pub open spec fn spec_begin_recommission(self, auth: Authorizations) -> (
        StateMachine,
        Result<(), Rejection>,
    ) {
        if self.lifecycle != LifecycleState::Revoked {
            (self, Err(Rejection::InvalidState))
        } else if !auth.root || !auth.owner || !(auth.physical_presence || auth.independent) {
            (self, Err(Rejection::Unauthorized))
        } else if self.device_generation == u64::MAX {
            (self, Err(Rejection::CounterExhausted))
        } else if self.transition_counter == u64::MAX {
            (self.faulted(), Err(Rejection::CounterExhausted))
        } else {
            (
                StateMachine {
                    provisioning_generation: Some((self.device_generation + 1) as u64),
                    provisioning_origin: Some(ProvisioningOrigin::Recommission),
                    pending_version: None,
                    identity_active: false,
                    lifecycle: LifecycleState::Provisioning,
                    ..self.counted()
                },
                Ok(()),
            )
        }
    }

    /// Decommission saturates the transition counter instead of failing on
    /// exhaustion, so that the terminal path stays available.
    pub open spec fn spec_decommission(self, auth: Authorizations) -> (
        StateMachine,
        Result<(), Rejection>,
    ) {
        if !auth.decommission || !(auth.physical_presence || auth.independent) {
            (self, Err(Rejection::Unauthorized))
        } else {
            (
                StateMachine {
                    transition_counter: if self.transition_counter == u64::MAX {
                        u64::MAX
                    } else {
                        (self.transition_counter + 1) as u64
                    },
                    pending_version: None,
                    provisioning_generation: None,
                    provisioning_origin: None,
                    identity_active: false,
                    lifecycle: LifecycleState::Decommissioned,
                    ..self
                },
                Ok(()),
            )
        }
    }

    pub open spec fn spec_start_measurement_epoch(self) -> (StateMachine, Result<(), Rejection>) {
        if self.lifecycle != LifecycleState::Operational {
            (self, Err(Rejection::InvalidState))
        } else if self.measurement_epoch == u64::MAX {
            (self.faulted(), Err(Rejection::CounterExhausted))
        } else {
            (
                StateMachine { measurement_epoch: (self.measurement_epoch + 1) as u64, ..self },
                Ok(()),
            )
        }
    }

    /// Receipt claims bound to a state whose sequence was just reserved.
    pub open spec fn claims_of(self, challenge: Option<[u8; 16]>) -> ReceiptClaims {
        ReceiptClaims {
            lifecycle_state: self.lifecycle,
            device_generation: self.device_generation,
            transition_counter: self.transition_counter,
            measurement_epoch: self.measurement_epoch,
            receipt_sequence: self.receipt_sequence,
            active_version: self.active_version,
            challenge,
        }
    }

    pub open spec fn spec_issue_receipt(self, challenge: Option<[u8; 16]>) -> (
        StateMachine,
        Result<ReceiptClaims, Rejection>,
    ) {
        if self.lifecycle != LifecycleState::Operational {
            (self, Err(Rejection::InvalidState))
        } else if !self.identity_active {
            (self.faulted(), Err(Rejection::IntegrityFailure))
        } else if self.receipt_sequence == u64::MAX {
            (self.faulted(), Err(Rejection::CounterExhausted))
        } else {
            let next = StateMachine {
                receipt_sequence: (self.receipt_sequence + 1) as u64,
                ..self
            };
            (next, Ok(next.claims_of(challenge)))
        }
    }

    /// The state change and result of one command, ignoring the terminal
    /// decommissioned guard.
    pub open spec fn spec_step(self, command: Command) -> (
        StateMachine,
        Result<Option<ReceiptClaims>, Rejection>,
    ) {
        match command {
            Command::BeginProvisioning { authorizations } => no_receipt(
                self.spec_begin_provisioning(authorizations),
            ),
            Command::CommitProvisioning { authorizations } => no_receipt(
                self.spec_commit_provisioning(authorizations),
            ),
            Command::AbortProvisioning => no_receipt(self.spec_abort_provisioning()),
            Command::StageUpdate { authorizations, candidate_version } => no_receipt(
                self.spec_stage_update(authorizations, candidate_version),
            ),
            Command::AcceptUpdate { validation } => no_receipt(
                self.spec_accept_update(validation),
            ),
            Command::RejectUpdate { cause } => no_receipt(self.spec_reject_update(cause)),
            Command::EnterRecovery { authorizations } => no_receipt(
                self.spec_enter_recovery(authorizations),
            ),
            Command::CompleteRecovery { authorizations, recovered_version } => no_receipt(
                self.spec_complete_recovery(authorizations, recovered_version),
            ),
            Command::Revoke { authorizations } => no_receipt(self.spec_revoke(authorizations)),
            Command::BeginRecommission { authorizations } => no_receipt(
                self.spec_begin_recommission(authorizations),
            ),
            Command::Decommission { authorizations } => no_receipt(
                self.spec_decommission(authorizations),
            ),
            Command::StartMeasurementEpoch => no_receipt(self.spec_start_measurement_epoch()),
            Command::IssueReceipt { challenge } => {
                let (next, r) = self.spec_issue_receipt(challenge);
                (
                    next,
                    match r {
                        Ok(claims) => Ok(Some(claims)),
                        Err(e) => Err(e),
                    },
                )
            },
        }
    }

    /// The audit event recorded for a command that moved `self` to `next`.
    pub open spec fn audit_of(self, next: StateMachine) -> AuditEvent {
        AuditEvent {
            previous_state: self.lifecycle,
            resulting_state: next.lifecycle,
            device_generation: next.device_generation,
            staged_device_generation: next.provisioning_generation,
            transition_counter: next.transition_counter,
        }
    }

    /// Complete meaning of `apply`: the next committed state and the result.
    pub open spec fn spec_apply(self, command: Command) -> (
        StateMachine,
        Result<Execution, Rejection>,
    ) {
        if self.lifecycle == LifecycleState::Decommissioned {
            (self, Err(Rejection::Decommissioned))
        } else {
            let (next, r) = self.spec_step(command);
            (
                next,
                match r {
                    Ok(receipt) => Ok(Execution { audit: self.audit_of(next), receipt }),
                    Err(e) => Err(e),
                },
            )
        }
    }

    /// The blank initial state.
    #[must_use]
    pub fn new() -> (machine: Self)
        ensures
            machine == Self::spec_new(),
    {
        StateMachine {
            lifecycle: LifecycleState::Blank,
            device_generation: 0,
            transition_counter: 0,
            measurement_epoch: 0,
            receipt_sequence: 0,
            active_version: 0,
            pending_version: None,
            provisioning_generation: None,
            provisioning_origin: None,
            identity_active: false,
        }
    }

    #[must_use]
    pub fn lifecycle(&self) -> (state: LifecycleState)
        ensures
            state == self.lifecycle,
    {
        self.lifecycle
    }

    #[must_use]
    pub fn device_generation(&self) -> (generation: u64)
        ensures
            generation == self.device_generation,
    {
        self.device_generation
    }

    #[must_use]
    pub fn transition_counter(&self) -> (counter: u64)
        ensures
            counter == self.transition_counter,
    {
        self.transition_counter
    }

    #[must_use]
    pub fn measurement_epoch(&self) -> (epoch: u64)
        ensures
            epoch == self.measurement_epoch,
    {
        self.measurement_epoch
    }

    #[must_use]
    pub fn receipt_sequence(&self) -> (sequence: u64)
        ensures
            sequence == self.receipt_sequence,
    {
        self.receipt_sequence
    }

    #[must_use]
    pub fn active_version(&self) -> (version: u64)
        ensures
            version == self.active_version,
    {
        self.active_version
    }

    /// Inject an explicitly typed model fault for tests of fail-closed paths.
    ///
    /// This must never be used as a state-loading or recovery API.
    pub fn inject_test_fault(&mut self, fault: ModelTestFault)
        ensures
            *final(self) == (StateMachine { receipt_sequence: u64::MAX, ..*old(self) }),
    {
        match fault {
            ModelTestFault::ReceiptSequenceExhausted => {
                self.receipt_sequence = u64::MAX;
            },
        }
    }

    /// Apply one deterministic command to the committed model state.
    ///
    /// Returns a stable [`Rejection`] when the command is unauthorized,
    /// invalid in the current lifecycle state, would roll state backward, or
    /// would exhaust a protected counter. Rejections either leave the state
    /// unchanged or move it into `Fault`.
    pub fn apply(&mut self, command: Command) -> (res: Result<Execution, Rejection>)
        ensures
            (*final(self), res) == old(self).spec_apply(command),
    {
        if self.lifecycle == LifecycleState::Decommissioned {
            return Err(Rejection::Decommissioned);
        }
        let previous_state = self.lifecycle;
        let receipt = match command {
            Command::BeginProvisioning { authorizations } => {
                match self.begin_provisioning(authorizations) {
                    Ok(()) => None,
                    Err(e) => return Err(e),
                }
            },
            Command::CommitProvisioning { authorizations } => {
                match self.commit_provisioning(authorizations) {
                    Ok(()) => None,
                    Err(e) => return Err(e),
                }
            },
            Command::AbortProvisioning => {
                match self.abort_provisioning() {
                    Ok(()) => None,
                    Err(e) => return Err(e),
                }
            },
            Command::StageUpdate { authorizations, candidate_version } => {
                match self.stage_update(authorizations, candidate_version) {
                    Ok(()) => None,
                    Err(e) => return Err(e),
                }
            },
            Command::AcceptUpdate { validation } => {
                match self.accept_update(validation) {
                    Ok(()) => None,
                    Err(e) => return Err(e),
                }
            },
            Command::RejectUpdate { cause } => {
                match self.reject_update(cause) {
                    Ok(()) => None,
                    Err(e) => return Err(e),
                }
            },
            Command::EnterRecovery { authorizations } => {
                match self.enter_recovery(authorizations) {
                    Ok(()) => None,
                    Err(e) => return Err(e),
                }
            },
            Command::CompleteRecovery { authorizations, recovered_version } => {
                match self.complete_recovery(authorizations, recovered_version) {
                    Ok(()) => None,
                    Err(e) => return Err(e),
                }
            },
            Command::Revoke { authorizations } => {
                match self.revoke(authorizations) {
                    Ok(()) => None,
                    Err(e) => return Err(e),
                }
            },
            Command::BeginRecommission { authorizations } => {
                match self.begin_recommission(authorizations) {
                    Ok(()) => None,
                    Err(e) => return Err(e),
                }
            },
            Command::Decommission { authorizations } => {
                match self.decommission(authorizations) {
                    Ok(()) => None,
                    Err(e) => return Err(e),
                }
            },
            Command::StartMeasurementEpoch => {
                match self.start_measurement_epoch() {
                    Ok(()) => None,
                    Err(e) => return Err(e),
                }
            },
            Command::IssueReceipt { challenge } => {
                match self.issue_receipt(challenge) {
                    Ok(claims) => Some(claims),
                    Err(e) => return Err(e),
                }
            },
        };
        Ok(
            Execution {
                audit: AuditEvent {
                    previous_state,
                    resulting_state: self.lifecycle,
                    device_generation: self.device_generation,
                    staged_device_generation: self.provisioning_generation,
                    transition_counter: self.transition_counter,
                },
                receipt,
            },
        )
    }

    fn begin_provisioning(&mut self, auth: Authorizations) -> (res: Result<(), Rejection>)
        ensures
            (*final(self), res) == old(self).spec_begin_provisioning(auth),
    {
        if self.lifecycle != LifecycleState::Blank {
            return Err(Rejection::InvalidState);
        }
        if !auth.root || !auth.physical_presence {
            return Err(Rejection::Unauthorized);
        }
        let next_generation = match self.device_generation.checked_add(1) {
            Some(g) => g,
            None => return Err(Rejection::CounterExhausted),
        };
        match self.advance_transition_counter() {
            Ok(()) => {},
            Err(e) => return Err(e),
        }
        self.provisioning_generation = Some(next_generation);
        self.provisioning_origin = Some(ProvisioningOrigin::Initial);
        self.lifecycle = LifecycleState::Provisioning;
        Ok(())
    }

    fn commit_provisioning(&mut self, auth: Authorizations) -> (res: Result<(), Rejection>)
        ensures
            (*final(self), res) == old(self).spec_commit_provisioning(auth),
    {
        if self.lifecycle != LifecycleState::Provisioning {
            return Err(Rejection::InvalidState);
        }
        if !auth.root || !auth.owner {
            return Err(Rejection::Unauthorized);
        }
        let generation = match self.provisioning_generation {
            Some(g) => g,
            None => {
                self.enter_fault();
                return Err(Rejection::InternalInvariantViolation);
            },
        };
        if self.provisioning_origin.is_none() {
            self.enter_fault();
            return Err(Rejection::InternalInvariantViolation);
        }
        if generation <= self.device_generation {
            self.enter_fault();
            return Err(Rejection::InternalInvariantViolation);
        }
        self.provisioning_generation = None;
        self.provisioning_origin = None;
        self.device_generation = generation;
        self.transition_counter = 1;
        self.measurement_epoch = 0;
        self.receipt_sequence = 0;
        self.active_version = 1;
        self.pending_version = None;
        self.identity_active = true;
        self.lifecycle = LifecycleState::Operational;
        Ok(())
    }

    fn abort_provisioning(&mut self) -> (res: Result<(), Rejection>)
        ensures
            (*final(self), res) == old(self).spec_abort_provisioning(),
    {
        if self.lifecycle != LifecycleState::Provisioning {
            return Err(Rejection::InvalidState);
        }
        let origin = match self.provisioning_origin {
            Some(o) => o,
            None => {
                self.enter_fault();
                return Err(Rejection::InternalInvariantViolation);
            },
        };
        match self.advance_transition_counter() {
            Ok(()) => {},
            Err(e) => return Err(e),
        }
        self.pending_version = None;
        self.provisioning_generation = None;
        self.provisioning_origin = None;
        self.identity_active = false;
        self.lifecycle = origin.abort_state();
        Ok(())
    }

    fn stage_update(&mut self, auth: Authorizations, candidate_version: u64) -> (res: Result<
        (),
        Rejection,
    >)
        ensures
            (*final(self), res) == old(self).spec_stage_update(auth, candidate_version),
    {
        match self.require_operational() {
            Ok(()) => {},
            Err(e) => return Err(e),
        }
        if !auth.update || !auth.owner {
            return Err(Rejection::Unauthorized);
        }
        if candidate_version <= self.active_version {
            return Err(Rejection::RollbackDetected);
        }
        match self.advance_transition_counter() {
            Ok(()) => {},
            Err(e) => return Err(e),
        }
        self.pending_version = Some(candidate_version);
        self.lifecycle = LifecycleState::UpdatePending;
        Ok(())
    }

    fn accept_update(&mut self, validation: UpdateValidation) -> (res: Result<(), Rejection>)
        ensures
            (*final(self), res) == old(self).spec_accept_update(validation),
    {
        if self.lifecycle != LifecycleState::UpdatePending {
            return Err(Rejection::InvalidState);
        }
        let candidate = match self.pending_version {
            Some(v) => v,
            None => {
                self.enter_fault();
                return Err(Rejection::InternalInvariantViolation);
            },
        };
        if candidate <= self.active_version {
            return Err(Rejection::RollbackDetected);
        }
        if !validation.permits_activation() {
            return Err(Rejection::InvalidTransition);
        }
        match self.advance_transition_counter() {
            Ok(()) => {},
            Err(e) => return Err(e),
        }
        self.active_version = candidate;
        self.pending_version = None;
        self.lifecycle = LifecycleState::Operational;
        Ok(())
    }

    fn reject_update(&mut self, cause: UpdateRejectionCause) -> (res: Result<(), Rejection>)
        ensures
            (*final(self), res) == old(self).spec_reject_update(cause),
    {
        if self.lifecycle != LifecycleState::UpdatePending {
            return Err(Rejection::InvalidState);
        }
        if self.pending_version.is_none() {
            self.enter_fault();
            return Err(Rejection::InternalInvariantViolation);
        }
        match cause {
            UpdateRejectionCause::ValidationFailure(validation) => {
                if validation.permits_activation() {
                    return Err(Rejection::InvalidTransition);
                }
            },
            UpdateRejectionCause::AuthorizedCancellation(auth) => {
                if !auth.update || !auth.owner {
                    return Err(Rejection::Unauthorized);
                }
            },
        }
        match self.advance_transition_counter() {
            Ok(()) => {},
            Err(e) => return Err(e),
        }
        self.pending_version = None;
        self.lifecycle = LifecycleState::Operational;
        Ok(())
    }

    fn enter_recovery(&mut self, auth: Authorizations) -> (res: Result<(), Rejection>)
        ensures
            (*final(self), res) == old(self).spec_enter_recovery(auth),
    {
        match self.require_operational() {
            Ok(()) => {},
            Err(e) => return Err(e),
        }
        if !auth.recovery || !(auth.physical_presence || auth.independent) {
            return Err(Rejection::Unauthorized);
        }
        match self.advance_transition_counter() {
            Ok(()) => {},
            Err(e) => return Err(e),
        }
        self.lifecycle = LifecycleState::Recovery;
        Ok(())
    }

    fn complete_recovery(&mut self, auth: Authorizations, recovered_version: u64) -> (res: Result<
        (),
        Rejection,
    >)
        ensures
            (*final(self), res) == old(self).spec_complete_recovery(auth, recovered_version),
    {
        if self.lifecycle != LifecycleState::Recovery {
            return Err(Rejection::InvalidState);
        }
        if !auth.recovery || !auth.owner {
            return Err(Rejection::Unauthorized);
        }
        if recovered_version < self.active_version {
            return Err(Rejection::RollbackDetected);
        }
        match self.advance_transition_counter() {
            Ok(()) => {},
            Err(e) => return Err(e),
        }
        self.active_version = recovered_version;
        self.lifecycle = LifecycleState::Operational;
        Ok(())
    }

    fn revoke(&mut self, auth: Authorizations) -> (res: Result<(), Rejection>)
        ensures
            (*final(self), res) == old(self).spec_revoke(auth),
    {
        if self.lifecycle == LifecycleState::Blank || self.lifecycle == LifecycleState::Revoked {
            return Err(Rejection::InvalidState);
        }
        if !auth.revocation {
            return Err(Rejection::Unauthorized);
        }
        match self.advance_transition_counter() {
            Ok(()) => {},
            Err(e) => return Err(e),
        }
        self.pending_version = None;
        self.provisioning_generation = None;
        self.provisioning_origin = None;
        self.identity_active = false;
        self.lifecycle = LifecycleState::Revoked;
        Ok(())
    }

    fn begin_recommission(&mut self, auth: Authorizations) -> (res: Result<(), Rejection>)
        ensures
            (*final(self), res) == old(self).spec_begin_recommission(auth),
    {
        if self.lifecycle != LifecycleState::Revoked {
            return Err(Rejection::InvalidState);
        }
        if !auth.root || !auth.owner || !(auth.physical_presence || auth.independent) {
            return Err(Rejection::Unauthorized);
        }
        let next_generation = match self.device_generation.checked_add(1) {
            Some(g) => g,
            None => return Err(Rejection::CounterExhausted),
        };
        match self.advance_transition_counter() {
            Ok(()) => {},
            Err(e) => return Err(e),
        }
        self.provisioning_generation = Some(next_generation);
        self.provisioning_origin = Some(ProvisioningOrigin::Recommission);
        self.pending_version = None;
        self.identity_active = false;
        self.lifecycle = LifecycleState::Provisioning;
        Ok(())
    }

    fn decommission(&mut self, auth: Authorizations) -> (res: Result<(), Rejection>)
        ensures
            (*final(self), res) == old(self).spec_decommission(auth),
    {
        if !auth.decommission || !(auth.physical_presence || auth.independent) {
            return Err(Rejection::Unauthorized);
        }
        self.transition_counter = self.transition_counter.saturating_add(1);
        self.pending_version = None;
        self.provisioning_generation = None;
        self.provisioning_origin = None;
        self.identity_active = false;
        self.lifecycle = LifecycleState::Decommissioned;
        Ok(())
    }

    fn start_measurement_epoch(&mut self) -> (res: Result<(), Rejection>)
        ensures
            (*final(self), res) == old(self).spec_start_measurement_epoch(),
    {
        match self.require_operational() {
            Ok(()) => {},
            Err(e) => return Err(e),
        }
        let next_epoch = match self.measurement_epoch.checked_add(1) {
            Some(e) => e,
            None => {
                self.enter_fault();
                return Err(Rejection::CounterExhausted);
            },
        };
        self.measurement_epoch = next_epoch;
        Ok(())
    }

    fn issue_receipt(&mut self, challenge: Option<[u8; 16]>) -> (res: Result<
        ReceiptClaims,
        Rejection,
    >)
        ensures
            (*final(self), res) == old(self).spec_issue_receipt(challenge),
    {
        match self.require_operational() {
            Ok(()) => {},
            Err(e) => return Err(e),
        }
        if !self.identity_active {
            self.enter_fault();
            return Err(Rejection::IntegrityFailure);
        }
        let next_sequence = match self.receipt_sequence.checked_add(1) {
            Some(s) => s,
            None => {
                self.enter_fault();
                return Err(Rejection::CounterExhausted);
            },
        };
        self.receipt_sequence = next_sequence;
        Ok(
            ReceiptClaims {
                lifecycle_state: self.lifecycle,
                device_generation: self.device_generation,
                transition_counter: self.transition_counter,
                measurement_epoch: self.measurement_epoch,
                receipt_sequence: next_sequence,
                active_version: self.active_version,
                challenge,
            },
        )
    }

    fn require_operational(&self) -> (res: Result<(), Rejection>)
        ensures
            res == (if self.lifecycle == LifecycleState::Operational {
                Ok(())
            } else {
                Err(Rejection::InvalidState)
            }),
    {
        if self.lifecycle == LifecycleState::Operational {
            Ok(())
        } else {
            Err(Rejection::InvalidState)
        }
    }

    fn advance_transition_counter(&mut self) -> (res: Result<(), Rejection>)
        ensures
            (*final(self), res) == old(self).spec_advance(),
    {
        let next_counter = match self.transition_counter.checked_add(1) {
            Some(c) => c,
            None => {
                self.enter_fault();
                return Err(Rejection::CounterExhausted);
            },
        };
        self.transition_counter = next_counter;
        Ok(())
    }

    fn enter_fault(&mut self)
        ensures
            *final(self) == old(self).faulted(),
    {
        self.pending_version = None;
        self.provisioning_generation = None;
        self.provisioning_origin = None;
        self.identity_active = false;
        self.lifecycle = LifecycleState::Fault;
    }
}

impl Default for StateMachine {
    fn default() -> (machine: Self)
        ensures
            machine == Self::spec_new(),
    {
        Self::new()
    }
}

} // verus!
