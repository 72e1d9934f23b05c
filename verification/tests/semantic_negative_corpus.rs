#![allow(unused_imports)]
use baochip::semantic::{AuthorityMetadataProjection, AuthorityPhaseProjection, CurrentReceiptClaims, ExecutionProjection, ExecutionReceiptProjection, Extension, ExtensionValue, Fixture, LifecycleAuditProjection, LifecycleState, ObjectClass, PersistentStateProjection, PreparedOutcomeProjection, ProtectedContext, ProvisioningOrigin, ReceiptLineageContext, RejectionClass, SemanticObject, SubjectScope, ValidationError};
use baochip::positive_corpus::{context, positive_fixtures};
use baochip::negative_corpus::{NegativeCase, NegativeCorpusError, NegativeFixture, NegativeFixtureFailure, negative_fixtures};
use baochip::conformance::{CorpusConformanceError, CorpusConformanceSummary, validate_corpus_conformance, validate_metadata, validate_negative_manifest, validate_negative_operands, validation_error_index};


#[test]
fn frozen_corpus_exercises_the_complete_receipt_release_operation() {
    assert_eq!(
        negative_fixtures()
            .expect("frozen negative corpus must construct")
            .into_iter()
            .filter(|fixture| matches!(fixture.case, NegativeCase::ReceiptRelease { .. }))
            .count(),
        1
    );
}

#[test]
fn every_negative_fixture_is_unique_and_fails_with_its_pinned_error() {
    let fixtures = negative_fixtures().expect("frozen negative corpus must construct");
    for (index, fixture) in fixtures.iter().enumerate() {
        assert!(!fixture.identifier.is_empty());
        assert!(!fixture.purpose.is_empty());
        assert_eq!(
            fixture.validate_expected(),
            Ok(()),
            "{}",
            fixture.identifier
        );
        for prior in &fixtures[..index] {
            assert_ne!(fixture.identifier, prior.identifier);
            assert_ne!(fixture.case, prior.case);
        }
    }
}

#[test]
fn cross_object_negative_operands_are_individually_valid() {
    for fixture in negative_fixtures().expect("frozen negative corpus must construct") {
        match fixture.case {
            NegativeCase::Object(_) => {}
            NegativeCase::ReceiptAuthority { receipt, authority } => {
                assert_eq!(receipt.validate(), Ok(()), "{}", fixture.identifier);
                assert_eq!(authority.validate(), Ok(()), "{}", fixture.identifier);
            }
            NegativeCase::ReceiptState { receipt, state } => {
                assert_eq!(receipt.validate(), Ok(()), "{}", fixture.identifier);
                assert_eq!(state.validate(), Ok(()), "{}", fixture.identifier);
            }
            NegativeCase::ReceiptRelease {
                receipt,
                authority,
                state,
            } => {
                assert_eq!(receipt.validate(), Ok(()), "{}", fixture.identifier);
                assert_eq!(authority.validate(), Ok(()), "{}", fixture.identifier);
                assert_eq!(state.validate(), Ok(()), "{}", fixture.identifier);
            }
        }
    }
}
