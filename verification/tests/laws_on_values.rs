use baochip::conformance::{
    validate_corpus_conformance, validate_metadata, validate_negative_manifest,
    validation_error_index, CorpusConformanceError, CorpusConformanceSummary,
};
use baochip::model::{
    Authorizations, Command, LifecycleState, Rejection, StateMachine, UpdateRejectionCause,
    UpdateValidation,
};
use baochip::negative_corpus::{
    negative_fixtures, NegativeCase, NegativeFixture, NegativeFixtureFailure,
};
use baochip::persistence::{
    CommandOutcome, DurableModel, IntegrityTestFault, PersistenceError, PersistenceOperation,
    PersistencePhase, PrepareResult,
};
use baochip::positive_corpus::positive_fixtures;
use baochip::semantic::{
    bytes_equal, text_before, text_equal, AuthorityPhaseProjection, ObjectClass,
    SemanticObject, ValidationError,
};

fn start_auth() -> Authorizations {
    Authorizations {
        root: true,
        physical_presence: true,
        ..Authorizations::none()
    }
}

fn commit_auth() -> Authorizations {
    Authorizations {
        root: true,
        owner: true,
        ..Authorizations::none()
    }
}

fn revoke_auth() -> Authorizations {
    Authorizations {
        revocation: true,
        ..Authorizations::none()
    }
}

fn recommission_auth() -> Authorizations {
    Authorizations {
        root: true,
        owner: true,
        independent: true,
        ..Authorizations::none()
    }
}

fn operational() -> StateMachine {
    let mut machine = StateMachine::new();
    machine
        .apply(Command::BeginProvisioning {
            authorizations: start_auth(),
        })
        .expect("provisioning begins");
    machine
        .apply(Command::CommitProvisioning {
            authorizations: commit_auth(),
        })
        .expect("provisioning commits");
    machine
}

fn every_command() -> Vec<Command> {
    vec![
        Command::BeginProvisioning {
            authorizations: start_auth(),
        },
        Command::CommitProvisioning {
            authorizations: commit_auth(),
        },
        Command::AbortProvisioning,
        Command::StageUpdate {
            authorizations: Authorizations {
                owner: true,
                update: true,
                ..Authorizations::none()
            },
            candidate_version: 9,
        },
        Command::AcceptUpdate {
            validation: UpdateValidation::passed(),
        },
        Command::RejectUpdate {
            cause: UpdateRejectionCause::AuthorizedCancellation(Authorizations {
                owner: true,
                update: true,
                ..Authorizations::none()
            }),
        },
        Command::EnterRecovery {
            authorizations: Authorizations {
                recovery: true,
                independent: true,
                ..Authorizations::none()
            },
        },
        Command::CompleteRecovery {
            authorizations: Authorizations {
                recovery: true,
                owner: true,
                ..Authorizations::none()
            },
            recovered_version: 1,
        },
        Command::Revoke {
            authorizations: revoke_auth(),
        },
        Command::BeginRecommission {
            authorizations: recommission_auth(),
        },
        Command::Decommission {
            authorizations: Authorizations {
                decommission: true,
                independent: true,
                ..Authorizations::none()
            },
        },
        Command::StartMeasurementEpoch,
        Command::IssueReceipt { challenge: None },
    ]
}

#[test]
fn decommissioned_device_rejects_every_command_unchanged() {
    let mut machine = operational();
    machine
        .apply(Command::Decommission {
            authorizations: Authorizations {
                decommission: true,
                physical_presence: true,
                ..Authorizations::none()
            },
        })
        .expect("decommission succeeds");
    let before = machine.clone();
    for command in every_command() {
        assert_eq!(machine.apply(command), Err(Rejection::Decommissioned));
        assert_eq!(machine, before);
    }
}

#[test]
fn unauthorized_commands_change_nothing() {
    let mut machine = operational();
    let before = machine.clone();
    assert_eq!(
        machine.apply(Command::Revoke {
            authorizations: Authorizations::none(),
        }),
        Err(Rejection::Unauthorized)
    );
    assert_eq!(
        machine.apply(Command::StageUpdate {
            authorizations: Authorizations::none(),
            candidate_version: 2,
        }),
        Err(Rejection::Unauthorized)
    );
    assert_eq!(machine, before);
}

#[test]
fn counters_never_decrease_and_accepted_commands_advance() {
    let mut machine = StateMachine::new();
    for _ in 0..2 {
        for command in every_command() {
            let before = machine.clone();
            let result = machine.apply(command);
            assert!(machine.device_generation() >= before.device_generation());
            if machine.device_generation() == before.device_generation() {
                assert!(machine.transition_counter() >= before.transition_counter());
                assert!(machine.measurement_epoch() >= before.measurement_epoch());
                assert!(machine.receipt_sequence() >= before.receipt_sequence());
            }
            if result.is_ok() {
                assert!(
                    machine.device_generation() > before.device_generation()
                        || machine.transition_counter() > before.transition_counter()
                        || machine.measurement_epoch() > before.measurement_epoch()
                        || machine.receipt_sequence() > before.receipt_sequence()
                        || machine.lifecycle() == LifecycleState::Decommissioned
                );
                assert_ne!(machine, before);
            }
        }
    }
}

#[test]
fn receipts_bind_the_operational_state_that_issued_them() {
    let mut machine = operational();
    machine
        .apply(Command::StartMeasurementEpoch)
        .expect("epoch starts");
    let execution = machine
        .apply(Command::IssueReceipt {
            challenge: Some([7; 16]),
        })
        .expect("receipt issues");
    let claims = execution.receipt.expect("claims are released");
    assert_eq!(claims.lifecycle_state, LifecycleState::Operational);
    assert_eq!(claims.device_generation, machine.device_generation());
    assert_eq!(claims.transition_counter, machine.transition_counter());
    assert_eq!(claims.measurement_epoch, machine.measurement_epoch());
    assert_eq!(claims.receipt_sequence, machine.receipt_sequence());
    assert_eq!(claims.active_version, machine.active_version());
    assert_eq!(claims.challenge, Some([7; 16]));
}

#[test]
fn receipt_scopes_strictly_increase_across_recommission() {
    let mut machine = operational();
    let mut scopes: Vec<(u64, u64)> = Vec::new();
    for _ in 0..2 {
        let execution = machine
            .apply(Command::IssueReceipt { challenge: None })
            .expect("receipt issues");
        let claims = execution.receipt.expect("claims");
        scopes.push((claims.device_generation, claims.receipt_sequence));
    }
    machine
        .apply(Command::Revoke {
            authorizations: revoke_auth(),
        })
        .expect("revocation");
    machine
        .apply(Command::BeginRecommission {
            authorizations: recommission_auth(),
        })
        .expect("recommission begins");
    machine
        .apply(Command::CommitProvisioning {
            authorizations: commit_auth(),
        })
        .expect("new generation commits");
    let execution = machine
        .apply(Command::IssueReceipt { challenge: None })
        .expect("new identity issues");
    let claims = execution.receipt.expect("claims");
    scopes.push((claims.device_generation, claims.receipt_sequence));
    assert_eq!(scopes, vec![(1, 1), (1, 2), (2, 1)]);
    for pair in scopes.windows(2) {
        assert!(pair[0] < pair[1]);
    }
}

#[test]
fn revoked_generation_never_returns_to_operation() {
    let mut machine = operational();
    machine
        .apply(Command::Revoke {
            authorizations: revoke_auth(),
        })
        .expect("revocation");
    let revoked_generation = machine.device_generation();
    let before = machine.clone();
    assert_eq!(
        machine.apply(Command::BeginProvisioning {
            authorizations: start_auth(),
        }),
        Err(Rejection::InvalidState)
    );
    assert_eq!(
        machine.apply(Command::IssueReceipt { challenge: None }),
        Err(Rejection::InvalidState)
    );
    assert_eq!(machine, before);
    machine
        .apply(Command::BeginRecommission {
            authorizations: recommission_auth(),
        })
        .expect("recommission begins");
    machine
        .apply(Command::CommitProvisioning {
            authorizations: commit_auth(),
        })
        .expect("new generation commits");
    assert_eq!(machine.lifecycle(), LifecycleState::Operational);
    assert_eq!(machine.device_generation(), revoked_generation + 1);
    for command in every_command() {
        let _ = machine.apply(command);
        assert_ne!(machine.lifecycle(), LifecycleState::Blank);
        if matches!(
            machine.lifecycle(),
            LifecycleState::Operational | LifecycleState::UpdatePending | LifecycleState::Recovery
        ) {
            assert!(machine.device_generation() > revoked_generation);
        }
    }
}

#[test]
fn default_machine_is_the_blank_machine() {
    assert_eq!(StateMachine::default(), StateMachine::new());
    assert_eq!(StateMachine::new().lifecycle(), LifecycleState::Blank);
    assert_eq!(StateMachine::new().transition_counter(), 0);
}

#[test]
fn failed_persistence_operations_leave_the_model_unchanged() {
    let mut durable = DurableModel::new(StateMachine::new());
    let before = durable.clone();
    assert_eq!(durable.commit(), Err(PersistenceError::NoPreparedRecord));
    assert_eq!(durable.cleanup(), Err(PersistenceError::NoCommittedRecord));
    assert_eq!(durable, before);

    durable
        .prepare(Command::BeginProvisioning {
            authorizations: start_auth(),
        })
        .expect("prepare");
    let prepared = durable.clone();
    assert_eq!(
        durable.prepare(Command::AbortProvisioning),
        Err(PersistenceError::Busy)
    );
    assert_eq!(durable.cleanup(), Err(PersistenceError::NoCommittedRecord));
    assert_eq!(durable, prepared);
}

#[test]
fn corrupted_selector_blocks_ordinary_operations() {
    let mut durable = DurableModel::new(StateMachine::new());
    durable
        .inject_test_fault(IntegrityTestFault::Selector)
        .expect("selector corrupts");
    let before = durable.clone();
    assert_eq!(
        durable.prepare(Command::BeginProvisioning {
            authorizations: start_auth(),
        }),
        Err(PersistenceError::CorruptedSelector)
    );
    assert_eq!(durable.active_state(), Err(PersistenceError::CorruptedSelector));
    assert_eq!(durable, before);
}

#[test]
fn corrupted_candidate_blocks_selector_commit() {
    let mut durable = DurableModel::new(StateMachine::new());
    durable
        .prepare(Command::BeginProvisioning {
            authorizations: start_auth(),
        })
        .expect("prepare");
    durable
        .inject_test_fault(IntegrityTestFault::InactiveRecord)
        .expect("candidate corrupts");
    let before = durable.clone();
    assert_eq!(
        durable.commit(),
        Err(PersistenceError::CorruptedCandidateRecord)
    );
    assert_eq!(durable, before);
}

#[test]
fn accepted_commands_always_stage_a_new_record() {
    let mut durable = DurableModel::new(StateMachine::new());
    let result = durable
        .prepare(Command::BeginProvisioning {
            authorizations: start_auth(),
        })
        .expect("prepare");
    match result {
        PrepareResult::Staged { audit } => {
            assert_eq!(audit.operation, PersistenceOperation::Prepared);
            assert_eq!(audit.prior_lifecycle, LifecycleState::Blank);
            assert_eq!(audit.resulting_lifecycle, LifecycleState::Provisioning);
            assert_eq!(audit.commit_id, 1);
        }
        PrepareResult::NotStaged { .. } => panic!("an accepted command must stage"),
    }
    assert_eq!(
        durable.phase(),
        PersistencePhase::Prepared {
            slot: 1,
            commit_id: 1
        }
    );
}

#[test]
fn authority_changes_only_at_selector_commit() {
    let initial = StateMachine::new();
    let mut expected = initial.clone();
    let execution = expected
        .apply(Command::BeginProvisioning {
            authorizations: start_auth(),
        })
        .expect("model accepts");

    let mut durable = DurableModel::new(initial.clone());
    durable
        .prepare(Command::BeginProvisioning {
            authorizations: start_auth(),
        })
        .expect("prepare");
    assert_eq!(durable.active_state(), Ok(&initial));
    assert_eq!(durable.active_commit_id(), Ok(0));

    let committed = durable.commit().expect("commit");
    assert_eq!(committed.outcome, CommandOutcome::Applied(execution));
    assert_eq!(committed.audit.operation, PersistenceOperation::SelectorCommitted);
    assert_eq!(durable.active_state(), Ok(&expected));
    assert_eq!(durable.active_commit_id(), Ok(1));

    let audit = durable.cleanup().expect("cleanup");
    assert_eq!(audit.operation, PersistenceOperation::PreviousRecordCleaned);
    assert_eq!(durable.active_state(), Ok(&expected));
    assert_eq!(durable.phase(), PersistencePhase::Clean);
}

#[test]
fn crash_after_prepare_consumes_no_commit_identifier() {
    let mut durable = DurableModel::new(StateMachine::new());
    let before = durable.clone();
    durable
        .prepare(Command::BeginProvisioning {
            authorizations: start_auth(),
        })
        .expect("prepare");
    let audit = durable.crash_and_recover().expect("recover");
    assert_eq!(audit.operation, PersistenceOperation::RecoveredPrevious);
    assert_eq!(audit.commit_id, 0);
    assert_eq!(durable, before);
}

#[test]
fn recovery_with_every_record_corrupted_has_no_valid_record() {
    let mut durable = DurableModel::new(StateMachine::new());
    durable
        .inject_test_fault(IntegrityTestFault::AllRecords)
        .expect("records corrupt");
    durable
        .inject_test_fault(IntegrityTestFault::Selector)
        .expect("selector corrupts");
    let before = durable.clone();
    assert_eq!(durable.crash_and_recover(), Err(PersistenceError::NoValidRecord));
    assert_eq!(durable, before);
}

#[test]
fn text_order_is_code_point_lexicographic() {
    assert!(text_before("example.text", "example.unsigned"));
    assert!(!text_before("example.unsigned", "example.text"));
    assert!(text_before("", "a"));
    assert!(!text_before("a", "a"));
    assert!(text_before("ab", "abc"));
    assert!(text_before("Z", "a"));
    assert!(text_equal("fixture", "fixture"));
    assert!(!text_equal("fixture", "fixtures"));
    assert!(bytes_equal(&vec![0x42, 0x43], &vec![0x42, 0x43]));
    assert!(!bytes_equal(&vec![0x42, 0x43], &vec![0x42, 0x43, 0x01]));
}

#[test]
fn valid_contexts_keep_extensions_strictly_ordered() {
    for fixture in positive_fixtures() {
        let context = match &fixture.object {
            SemanticObject::PersistentState(state) => state.context.clone(),
            SemanticObject::AuthorityMetadata(authority) => authority.context.clone(),
            SemanticObject::ExecutionReceipt(receipt) => receipt.context.clone(),
        };
        for (index, extension) in context.extensions.iter().enumerate() {
            for later in &context.extensions[index + 1..] {
                assert!(text_before(&extension.identifier, &later.identifier));
                assert!(extension.identifier < later.identifier);
            }
        }
    }
}

#[test]
fn released_receipt_binds_committed_authority_and_operational_state() {
    let positives = positive_fixtures();
    let find = |identifier: &str| {
        positives
            .iter()
            .find(|fixture| fixture.identifier == identifier)
            .expect("fixture")
            .object
            .clone()
    };
    let SemanticObject::ExecutionReceipt(receipt) = find("receipt-minimal-optionals-absent") else {
        panic!("receipt")
    };
    let SemanticObject::AuthorityMetadata(authority) = find("authority-committed") else {
        panic!("authority")
    };
    let SemanticObject::PersistentState(state) = find("persistent-operational-receipt-release")
    else {
        panic!("state")
    };
    assert_eq!(receipt.validate_release(&authority, &state), Ok(()));
    assert_eq!(receipt.validate(), Ok(()));
    assert_eq!(authority.validate(), Ok(()));
    assert_eq!(state.validate(), Ok(()));
    assert_eq!(state.context.object_class, ObjectClass::PersistentState);
    let AuthorityPhaseProjection::Committed {
        selected_next_slot,
        commit_id,
        ..
    } = authority.phase
    else {
        panic!("committed")
    };
    assert_eq!(selected_next_slot, state.slot_id);
    assert_eq!(commit_id, receipt.authority_commit_id);
    assert_eq!(state.commit_id, receipt.authority_commit_id);
}

#[test]
fn metadata_rejects_empty_identifier_or_purpose() {
    assert_eq!(validate_metadata("fixture", "purpose"), Ok(()));
    assert_eq!(
        validate_metadata("", "purpose"),
        Err(CorpusConformanceError::EmptyFixtureMetadata(""))
    );
    assert_eq!(
        validate_metadata("fixture", ""),
        Err(CorpusConformanceError::EmptyFixtureMetadata("fixture"))
    );
}

#[test]
fn validation_error_index_follows_declaration_order() {
    assert_eq!(validation_error_index(&ValidationError::EmptyIdentifier), 0);
    assert_eq!(validation_error_index(&ValidationError::WrongObjectClass), 3);
    assert_eq!(validation_error_index(&ValidationError::CommitIdMismatch), 11);
    assert_eq!(validation_error_index(&ValidationError::InconsistentExecution), 16);
}

#[test]
fn negative_corpus_pins_every_error_class_once_in_order() {
    let negatives = negative_fixtures().expect("corpus");
    assert_eq!(negatives.len(), 17);
    for (index, fixture) in negatives.iter().enumerate() {
        assert_eq!(validation_error_index(&fixture.expected_error), index);
        assert_eq!(fixture.case.evaluate(), Err(fixture.expected_error));
    }
    assert_eq!(validate_negative_manifest(&negatives), Ok(()));
    assert_eq!(
        validate_negative_manifest(&negatives[..16]),
        Err(CorpusConformanceError::NegativeManifestMismatch)
    );
}

#[test]
fn validate_expected_reports_a_differently_classified_case() {
    let negatives = negative_fixtures().expect("corpus");
    let mut fixture: NegativeFixture = negatives[0].clone();
    fixture.expected_error = ValidationError::EmptySubject;
    assert_eq!(
        fixture.validate_expected(),
        Err(NegativeFixtureFailure {
            identifier: "negative-empty-identifier",
            expected_error: ValidationError::EmptySubject,
            actual: Err(ValidationError::EmptyIdentifier),
        })
    );
    let valid = NegativeFixture {
        identifier: "valid-object",
        purpose: "a valid object does not fail",
        case: NegativeCase::Object(positive_fixtures()[0].object.clone()),
        expected_error: ValidationError::EmptyIdentifier,
    };
    assert_eq!(
        valid.validate_expected(),
        Err(NegativeFixtureFailure {
            identifier: "valid-object",
            expected_error: ValidationError::EmptyIdentifier,
            actual: Ok(()),
        })
    );
}

#[test]
fn frozen_corpus_conformance_reports_exact_counts() {
    assert_eq!(
        validate_corpus_conformance(),
        Ok(CorpusConformanceSummary {
            positive_fixtures: 17,
            negative_fixtures: 17,
            validation_error_classes: 17,
        })
    );
}

#[test]
fn provisioning_revocation_clears_all_staged_state() {
    let mut provisioning = StateMachine::new();
    provisioning
        .apply(Command::BeginProvisioning {
            authorizations: start_auth(),
        })
        .expect("provisioning should begin");
    assert_eq!(provisioning.provisioning_generation, Some(1));
    provisioning
        .apply(Command::Revoke {
            authorizations: revoke_auth(),
        })
        .expect("provisioning identity should be revocable");
    assert_eq!(provisioning.lifecycle(), LifecycleState::Revoked);
    assert_eq!(provisioning.provisioning_generation, None);
    assert_eq!(provisioning.provisioning_origin, None);
    assert_eq!(provisioning.pending_version, None);
    assert!(!provisioning.identity_active);
    assert_eq!(provisioning.transition_counter(), 2);
}

#[test]
fn corrupted_selected_record_accepts_no_command() {
    let mut durable = DurableModel::new(StateMachine::new());
    durable
        .inject_test_fault(IntegrityTestFault::ActiveRecord)
        .expect("active record corrupts");
    let before = durable.clone();
    assert_eq!(
        durable.prepare(Command::BeginProvisioning {
            authorizations: start_auth(),
        }),
        Err(PersistenceError::CorruptedActiveRecord)
    );
    assert_eq!(
        durable.active_state(),
        Err(PersistenceError::CorruptedActiveRecord)
    );
    assert_eq!(durable, before);
}

#[test]
fn successful_recovery_is_stable_under_a_second_interruption() {
    let mut durable = DurableModel::new(StateMachine::new());
    durable
        .prepare(Command::BeginProvisioning {
            authorizations: start_auth(),
        })
        .expect("prepare");
    durable.commit().expect("commit");
    let first = durable.crash_and_recover().expect("recover next");
    assert_eq!(first.operation, PersistenceOperation::RecoveredNext);
    let recovered = durable.clone();
    let second = durable.crash_and_recover().expect("stable recovery");
    assert_eq!(second.operation, PersistenceOperation::RecoveredStable);
    assert_eq!(second.prior_lifecycle, LifecycleState::Provisioning);
    assert_eq!(second.resulting_lifecycle, LifecycleState::Provisioning);
    assert_eq!(second.commit_id, 1);
    assert_eq!(durable, recovered);
}

#[test]
fn authoritative_state_check_accepts_an_agreeing_non_operational_pair() {
    let positives = positive_fixtures();
    let find = |identifier: &str| {
        positives
            .iter()
            .find(|fixture| fixture.identifier == identifier)
            .expect("fixture")
            .object
            .clone()
    };
    let SemanticObject::ExecutionReceipt(mut receipt) = find("receipt-minimal-optionals-absent")
    else {
        panic!("receipt")
    };
    let SemanticObject::AuthorityMetadata(authority) = find("authority-committed") else {
        panic!("authority")
    };
    let SemanticObject::PersistentState(mut state) = find("persistent-operational-receipt-release")
    else {
        panic!("state")
    };
    receipt.lifecycle_state = baochip::semantic::LifecycleState::Recovery;
    state.lifecycle_state = baochip::semantic::LifecycleState::Recovery;
    assert_eq!(receipt.validate_authoritative_state(&state), Ok(()));
    assert_eq!(receipt.validate_release_authority(&authority), Ok(()));
    assert_eq!(
        receipt.validate_release(&authority, &state),
        Err(ValidationError::StateContextMismatch)
    );
}

fn keeps_lifecycle_invariant(machine: &StateMachine) -> bool {
    let provisioning = machine.lifecycle() == LifecycleState::Provisioning;
    let generation_ok = match machine.provisioning_generation {
        Some(generation) => machine.device_generation() < u64::MAX
            && generation == machine.device_generation() + 1,
        None => true,
    };
    let pending_ok = match machine.pending_version {
        Some(version) => version > machine.active_version(),
        None => true,
    };
    provisioning == machine.provisioning_generation.is_some()
        && provisioning == machine.provisioning_origin.is_some()
        && generation_ok
        && (machine.lifecycle() == LifecycleState::UpdatePending)
            == machine.pending_version.is_some()
        && pending_ok
        && machine.identity_active
            == matches!(
                machine.lifecycle(),
                LifecycleState::Operational
                    | LifecycleState::UpdatePending
                    | LifecycleState::Recovery
            )
}

#[test]
fn reachable_states_keep_the_lifecycle_invariant() {
    let mut machine = StateMachine::new();
    assert!(keeps_lifecycle_invariant(&machine));
    for _ in 0..3 {
        for command in every_command() {
            let _ = machine.apply(command);
            assert!(keeps_lifecycle_invariant(&machine));
        }
    }
}

#[test]
fn documented_authorized_commands_reach_their_documented_state() {
    let mut machine = StateMachine::new();
    machine
        .apply(Command::BeginProvisioning {
            authorizations: start_auth(),
        })
        .expect("documented and authorized");
    assert_eq!(machine.lifecycle(), LifecycleState::Provisioning);
    machine
        .apply(Command::CommitProvisioning {
            authorizations: commit_auth(),
        })
        .expect("documented and authorized");
    assert_eq!(machine.lifecycle(), LifecycleState::Operational);
    machine
        .apply(Command::EnterRecovery {
            authorizations: Authorizations {
                recovery: true,
                independent: true,
                ..Authorizations::none()
            },
        })
        .expect("documented and authorized");
    assert_eq!(machine.lifecycle(), LifecycleState::Recovery);
    machine
        .apply(Command::CompleteRecovery {
            authorizations: Authorizations {
                recovery: true,
                owner: true,
                ..Authorizations::none()
            },
            recovered_version: 1,
        })
        .expect("documented and authorized");
    assert_eq!(machine.lifecycle(), LifecycleState::Operational);
}

#[test]
fn clean_recovery_keeps_a_trustworthy_selection_beside_a_stray_record() {
    let mut durable = DurableModel::new(StateMachine::new());
    durable
        .inject_test_fault(IntegrityTestFault::DuplicateActiveRecord)
        .expect("duplicate record");
    let before = durable.clone();
    let audit = durable.crash_and_recover().expect("stable recovery");
    assert_eq!(audit.operation, PersistenceOperation::RecoveredStable);
    assert_eq!(audit.prior_lifecycle, LifecycleState::Blank);
    assert_eq!(audit.resulting_lifecycle, LifecycleState::Blank);
    assert_eq!(audit.commit_id, 0);
    assert_eq!(durable, before);
}
