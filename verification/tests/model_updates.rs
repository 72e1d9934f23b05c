#![allow(unused_imports)]
use baochip::model::{
    AuditEvent, Authorizations, Command, Execution, LifecycleState, ModelTestFault, ProvisioningOrigin,
    ReceiptClaims, Rejection, StateMachine, UpdateRejectionCause, UpdateValidation,
};

#[test]
fn update_acceptance_requires_complete_abstract_validation() {
    let failed_validation = UpdateValidation {
        candidate_authenticated: true,
        compatible: false,
        integrity_valid: true,
    };
    let mut rejected_acceptance = machine_in(LifecycleState::UpdatePending);
    let before = rejected_acceptance.clone();
    assert_eq!(
        rejected_acceptance.apply(Command::AcceptUpdate {
            validation: failed_validation,
        }),
        Err(Rejection::InvalidTransition)
    );
    assert_eq!(rejected_acceptance, before);

    let mut accepted = machine_in(LifecycleState::UpdatePending);
    accepted
        .apply(Command::AcceptUpdate {
            validation: UpdateValidation::passed(),
        })
        .expect("fully validated candidate should activate");
    assert_eq!(accepted.active_version(), 2);
    assert_eq!(accepted.lifecycle(), LifecycleState::Operational);
}

#[test]
fn update_rejection_distinguishes_validation_failure_from_cancellation() {
    let failed_validation = UpdateValidation {
        candidate_authenticated: false,
        compatible: true,
        integrity_valid: true,
    };
    let mut validation_rejection = machine_in(LifecycleState::UpdatePending);
    validation_rejection
        .apply(Command::RejectUpdate {
            cause: UpdateRejectionCause::ValidationFailure(failed_validation),
        })
        .expect("trusted abstract validation failure should reject the candidate");
    assert_eq!(
        validation_rejection.lifecycle(),
        LifecycleState::Operational
    );

    let mut unauthorized_cancel = machine_in(LifecycleState::UpdatePending);
    let before = unauthorized_cancel.clone();
    assert_eq!(
        unauthorized_cancel.apply(Command::RejectUpdate {
            cause: UpdateRejectionCause::AuthorizedCancellation(Authorizations::none()),
        }),
        Err(Rejection::Unauthorized)
    );
    assert_eq!(unauthorized_cancel, before);
}

fn provisioning_start_auth() -> Authorizations {
    Authorizations {
        root: true,
        physical_presence: true,
        ..Authorizations::none()
    }
}

fn provisioning_commit_auth() -> Authorizations {
    Authorizations {
        root: true,
        owner: true,
        ..Authorizations::none()
    }
}

fn operational_machine() -> StateMachine {
    let mut machine = StateMachine::new();
    machine
        .apply(Command::BeginProvisioning {
            authorizations: provisioning_start_auth(),
        })
        .expect("authorized provisioning should begin");
    machine
        .apply(Command::CommitProvisioning {
            authorizations: provisioning_commit_auth(),
        })
        .expect("authorized provisioning should commit");
    machine
}

fn machine_in(state: LifecycleState) -> StateMachine {
    match state {
        LifecycleState::Blank => StateMachine::new(),
        LifecycleState::Provisioning => {
            let mut machine = StateMachine::new();
            machine
                .apply(Command::BeginProvisioning {
                    authorizations: provisioning_start_auth(),
                })
                .expect("provisioning setup should succeed");
            machine
        }
        LifecycleState::Operational => operational_machine(),
        LifecycleState::UpdatePending => {
            let mut machine = operational_machine();
            machine
                .apply(Command::StageUpdate {
                    authorizations: Authorizations {
                        update: true,
                        owner: true,
                        ..Authorizations::none()
                    },
                    candidate_version: 2,
                })
                .expect("update setup should succeed");
            machine
        }
        LifecycleState::Recovery => {
            let mut machine = operational_machine();
            machine
                .apply(Command::EnterRecovery {
                    authorizations: Authorizations {
                        recovery: true,
                        independent: true,
                        ..Authorizations::none()
                    },
                })
                .expect("recovery setup should succeed");
            machine
        }
        LifecycleState::Revoked => {
            let mut machine = operational_machine();
            machine
                .apply(Command::Revoke {
                    authorizations: Authorizations {
                        revocation: true,
                        ..Authorizations::none()
                    },
                })
                .expect("revocation setup should succeed");
            machine
        }
        LifecycleState::Decommissioned => {
            let mut machine = operational_machine();
            machine
                .apply(Command::Decommission {
                    authorizations: Authorizations {
                        decommission: true,
                        independent: true,
                        ..Authorizations::none()
                    },
                })
                .expect("decommission setup should succeed");
            machine
        }
        LifecycleState::Fault => {
            let mut machine = operational_machine();
            enter_fault(&mut machine);
            machine
        }
    }
}

/// Move `machine` into the fail-closed state the model enters on an
/// internal failure: staging erased, identity disabled.
fn enter_fault(machine: &mut StateMachine) {
    machine.pending_version = None;
    machine.provisioning_generation = None;
    machine.provisioning_origin = None;
    machine.identity_active = false;
    machine.lifecycle = LifecycleState::Fault;
}
