//! The frozen negative semantic fixture corpus.
//!
//! Each negative fixture is one positive operand with one deliberate defect,
//! or a pair of individually valid operands presented under the wrong release
//! context, and pins the exact validation error it must fail with.
use vstd::prelude::*;
use crate::positive_corpus::{
    lemma_positive_corpus_at, lemma_positive_identifiers_distinct, lemma_positive_object_class,
    positive_class, positive_corpus, positive_fixture_at, positive_fixtures, positive_identifiers,
    positive_object_at,
};
use crate::semantic::{
    AuthorityMetadataProjection, AuthorityPhaseProjection, CurrentReceiptClaims,
    ExecutionProjection, ExecutionReceiptProjection, Extension, Fixture, LifecycleState,
    ObjectClass, PersistentStateProjection, PreparedOutcomeProjection, ProtectedContext,
    SemanticObject, SubjectScope, ValidationError, text_equal,
};

verus! {

/// Validation operation exercised by one candidate-neutral negative fixture.
///
/// Cross-object variants preserve the distinction between an invalid object
/// and an individually valid object used under the wrong release context.
#[derive(Clone, Debug, PartialEq, Eq)]
pub enum NegativeCase {
    Object(SemanticObject),
    ReceiptAuthority { receipt: ExecutionReceiptProjection, authority: AuthorityMetadataProjection },
    ReceiptState { receipt: ExecutionReceiptProjection, state: PersistentStateProjection },
    ReceiptRelease {
        receipt: Box<ExecutionReceiptProjection>,
        authority: AuthorityMetadataProjection,
        state: PersistentStateProjection,
    },
}

impl NegativeCase {
    /// The result of the semantic operation this case represents.
    pub open spec fn spec_evaluate(self) -> Result<(), ValidationError> {
        match self {
            NegativeCase::Object(object) => object.spec_validate(),
            NegativeCase::ReceiptAuthority { receipt, authority } => receipt.spec_validate_release_authority(authority),
            NegativeCase::ReceiptState { receipt, state } => receipt.spec_validate_authoritative_state(state),
            NegativeCase::ReceiptRelease { receipt, authority, state } => receipt.spec_validate_release(authority, state),
        }
    }

    /// Individual validation of the operands of a cross-object case, in
    /// receipt, authority, state order; a single object has no operands.
    pub open spec fn spec_operands(self) -> Result<(), ValidationError> {
        match self {
            NegativeCase::Object(_) => Ok(()),
            NegativeCase::ReceiptAuthority { receipt, authority } => if receipt.spec_validate() is Err {
                receipt.spec_validate()
            } else {
                authority.spec_validate()
            },
            NegativeCase::ReceiptState { receipt, state } => if receipt.spec_validate() is Err {
                receipt.spec_validate()
            } else {
                state.spec_validate()
            },
            NegativeCase::ReceiptRelease { receipt, authority, state } => if receipt.spec_validate() is Err {
                receipt.spec_validate()
            } else if authority.spec_validate() is Err {
                authority.spec_validate()
            } else {
                state.spec_validate()
            },
        }
    }

    /// Evaluate the semantic operation represented by this negative case.
    pub fn evaluate(&self) -> (res: Result<(), ValidationError>)
        ensures
            res == self.spec_evaluate(),
    {
        match self {
            NegativeCase::Object(object) => object.validate(),
            NegativeCase::ReceiptAuthority { receipt, authority } => receipt.validate_release_authority(authority),
            NegativeCase::ReceiptState { receipt, state } => receipt.validate_authoritative_state(state),
            NegativeCase::ReceiptRelease { receipt, authority, state } => receipt.validate_release(authority, state),
        }
    }
}

/// One stable negative semantic fixture and its exact expected error class.
#[derive(Clone, Debug, PartialEq, Eq)]
pub struct NegativeFixture {
    pub identifier: &'static str,
    pub purpose: &'static str,
    pub case: NegativeCase,
    pub expected_error: ValidationError,
}

/// A negative fixture did not fail with its pinned semantic error.
#[derive(Clone, Copy, Debug, PartialEq, Eq)]
pub struct NegativeFixtureFailure {
    pub identifier: &'static str,
    pub expected_error: ValidationError,
    pub actual: Result<(), ValidationError>,
}

/// Stable failure to construct the frozen negative corpus from its positive
/// operands. This reports internal corpus drift instead of panicking.
#[derive(Clone, Copy, Debug, PartialEq, Eq)]
pub enum NegativeCorpusError {
    MissingPositiveFixture(&'static str),
    UnexpectedPositiveObject(&'static str),
    UnexpectedAuthorityShape(&'static str),
}

impl NegativeFixture {
    /// Confirm that this negative fixture fails closed with its exact error.
    pub fn validate_expected(&self) -> (res: Result<(), NegativeFixtureFailure>)
        ensures
            res is Ok <==> self.case.spec_evaluate() == Err::<(), ValidationError>(
                self.expected_error,
            ),
            res matches Err(failure) ==> failure == (NegativeFixtureFailure {
                identifier: self.identifier,
                expected_error: self.expected_error,
                actual: self.case.spec_evaluate(),
            }),
    {
        let actual = self.case.evaluate();
        let pinned = match actual {
            Err(error) => error == self.expected_error,
            Ok(()) => false,
        };
        if pinned {
            Ok(())
        } else {
            Err(
                NegativeFixtureFailure {
                    identifier: self.identifier,
                    expected_error: self.expected_error,
                    actual,
                },
            )
        }
    }
}

/// `identifier` names positive fixture `k`.
pub open spec fn names_positive(identifier: Seq<char>, k: int) -> bool {
    0 <= k < 17 && positive_identifiers()[k] == identifier
}

/// The positive fixture named `identifier`.
fn fixture(identifier: &'static str) -> (res: Result<Fixture, NegativeCorpusError>)
    ensures
        res is Ok <==> exists|k: int| names_positive(identifier@, k),
        res matches Ok(f) ==> forall|k: int|
            names_positive(identifier@, k) ==> positive_fixture_at(k, f),
        res matches Err(e) ==> e == NegativeCorpusError::MissingPositiveFixture(identifier),
{
    let mut fixtures = positive_fixtures();
    let ghost all = fixtures@;
    proof {
        crate::positive_corpus::positive_corpus_is_valid(all);
        lemma_positive_identifiers_distinct();
    }
    let n = fixtures.len();
    let mut i: usize = 0;
    while i < n
        invariant
            n == fixtures@.len(),
            n == 17,
            fixtures@ == all,
            positive_corpus(all),
            forall|j: int| 0 <= j < 17 ==> (#[trigger] all[j]).identifier@
                == positive_identifiers()[j],
            forall|a: int, b: int|
                0 <= a < b < 17 ==> positive_identifiers()[a] != positive_identifiers()[b],
            i <= n,
            forall|j: int| 0 <= j < i ==> positive_identifiers()[j] != identifier@,
        decreases n - i,
    {
        if text_equal(fixtures[i].identifier, identifier) {
            let found = fixtures.remove(i);
            proof {
                assert(all[i as int].identifier@ == positive_identifiers()[i as int]);
                lemma_positive_corpus_at(all, i as int);
                assert forall|k: int| names_positive(identifier@, k) implies positive_fixture_at(
                    k,
                    found,
                ) by {
                    if k != i {
                        if k < i {
                            assert(positive_identifiers()[k] != positive_identifiers()[i as int]);
                        } else {
                            assert(positive_identifiers()[i as int] != positive_identifiers()[k]);
                        }
                    }
                }
                assert(names_positive(identifier@, i as int));
            }
            return Ok(found);
        }
        proof {
            assert(all[i as int].identifier@ == positive_identifiers()[i as int]);
        }
        i = i + 1;
    }
    Err(NegativeCorpusError::MissingPositiveFixture(identifier))
}

/// The persistent-state object of the positive fixture named `identifier`.
fn persistent(identifier: &'static str) -> (res: Result<
    PersistentStateProjection,
    NegativeCorpusError,
>)
    ensures
        res is Ok <==> exists|k: int|
            names_positive(identifier@, k) && positive_class(k) == ObjectClass::PersistentState,
        res matches Ok(s) ==> forall|k: int|
            names_positive(identifier@, k) ==> positive_object_at(
                k,
                SemanticObject::PersistentState(s),
            ),
        res matches Err(e) ==> (e == NegativeCorpusError::MissingPositiveFixture(identifier)
            && forall|k: int| !names_positive(identifier@, k)) || (e
            == NegativeCorpusError::UnexpectedPositiveObject(identifier) && exists|k: int|
            names_positive(identifier@, k)),
{
    let looked_up = fixture(identifier);
    match looked_up {
        Ok(found) => {
            proof {
                let k = choose|k: int| names_positive(identifier@, k);
                assert(positive_fixture_at(k, found));
                lemma_positive_object_class(k, found.object);
                assert forall|j: int| names_positive(identifier@, j) implies positive_object_at(
                    j,
                    found.object,
                ) by {
                    assert(positive_fixture_at(j, found));
                }
            }
            match found.object {
                SemanticObject::PersistentState(state) => Ok(state),
                _ => Err(NegativeCorpusError::UnexpectedPositiveObject(identifier)),
            }
        },
        Err(error) => Err(error),
    }
}

/// The authority-metadata object of the positive fixture named `identifier`.
fn authority(identifier: &'static str) -> (res: Result<
    AuthorityMetadataProjection,
    NegativeCorpusError,
>)
    ensures
        res is Ok <==> exists|k: int|
            names_positive(identifier@, k) && positive_class(k) == ObjectClass::AuthorityMetadata,
        res matches Ok(a) ==> forall|k: int|
            names_positive(identifier@, k) ==> positive_object_at(
                k,
                SemanticObject::AuthorityMetadata(a),
            ),
        res matches Err(e) ==> (e == NegativeCorpusError::MissingPositiveFixture(identifier)
            && forall|k: int| !names_positive(identifier@, k)) || (e
            == NegativeCorpusError::UnexpectedPositiveObject(identifier) && exists|k: int|
            names_positive(identifier@, k)),
{
    let looked_up = fixture(identifier);
    match looked_up {
        Ok(found) => {
            proof {
                let k = choose|k: int| names_positive(identifier@, k);
                assert(positive_fixture_at(k, found));
                lemma_positive_object_class(k, found.object);
                assert forall|j: int| names_positive(identifier@, j) implies positive_object_at(
                    j,
                    found.object,
                ) by {
                    assert(positive_fixture_at(j, found));
                }
            }
            match found.object {
                SemanticObject::AuthorityMetadata(authority) => Ok(authority),
                _ => Err(NegativeCorpusError::UnexpectedPositiveObject(identifier)),
            }
        },
        Err(error) => Err(error),
    }
}

/// The execution-receipt object of the positive fixture named `identifier`.
fn receipt(identifier: &'static str) -> (res: Result<
    ExecutionReceiptProjection,
    NegativeCorpusError,
>)
    ensures
        res is Ok <==> exists|k: int|
            names_positive(identifier@, k) && positive_class(k) == ObjectClass::ExecutionReceipt,
        res matches Ok(r) ==> forall|k: int|
            names_positive(identifier@, k) ==> positive_object_at(
                k,
                SemanticObject::ExecutionReceipt(r),
            ),
        res matches Err(e) ==> (e == NegativeCorpusError::MissingPositiveFixture(identifier)
            && forall|k: int| !names_positive(identifier@, k)) || (e
            == NegativeCorpusError::UnexpectedPositiveObject(identifier) && exists|k: int|
            names_positive(identifier@, k)),
{
    let looked_up = fixture(identifier);
    match looked_up {
        Ok(found) => {
            proof {
                let k = choose|k: int| names_positive(identifier@, k);
                assert(positive_fixture_at(k, found));
                lemma_positive_object_class(k, found.object);
                assert forall|j: int| names_positive(identifier@, j) implies positive_object_at(
                    j,
                    found.object,
                ) by {
                    assert(positive_fixture_at(j, found));
                }
            }
            match found.object {
                SemanticObject::ExecutionReceipt(receipt) => Ok(receipt),
                _ => Err(NegativeCorpusError::UnexpectedPositiveObject(identifier)),
            }
        },
        Err(error) => Err(error),
    }
}

/// Identifiers of the frozen negative corpus, in corpus order.
pub open spec fn negative_identifiers() -> Seq<Seq<char>> {
    seq![
        "negative-empty-identifier"@,
        "negative-empty-subject"@,
        "negative-empty-required-value"@,
        "negative-wrong-object-class"@,
        "negative-invalid-slot"@,
        "negative-missing-record"@,
        "negative-unexpected-record"@,
        "negative-slot-conflict"@,
        "negative-selector-mismatch"@,
        "negative-duplicate-extension"@,
        "negative-unordered-extensions"@,
        "negative-commit-id-mismatch"@,
        "negative-authority-phase-mismatch"@,
        "negative-authority-context-mismatch"@,
        "negative-state-context-mismatch"@,
        "negative-inconsistent-state"@,
        "negative-inconsistent-execution"@,
    ]
}

/// Purposes of the frozen negative corpus, in corpus order.
pub open spec fn negative_purposes() -> Seq<Seq<char>> {
    seq![
        "required protected-context identifier is empty"@,
        "protected subject has no device identifier"@,
        "receipt key identifier is present but empty"@,
        "persistent-state payload is domain-substituted as a receipt"@,
        "persistent record names a slot outside the two-slot model"@,
        "prepared authority omits its candidate record"@,
        "clean authority retains an untracked second record"@,
        "prepared candidate aliases the selected previous slot"@,
        "committed selector does not select the declared next record"@,
        "two retained extensions share one semantic identifier"@,
        "extension set is supplied in non-increasing identifier order"@,
        "authority phase commit does not bind the candidate record"@,
        "valid receipt is presented under clean rather than committed authority"@,
        "valid receipt and committed authority name different subjects"@,
        "complete release disagrees with authoritative measurement epoch"@,
        "protected subject generation contradicts persistent state"@,
        "prepared execution carries a zero receipt sequence"@,
    ]
}

/// Every stable validation error class, in declaration order; negative
/// fixture `k` pins class `k`.
pub open spec fn validation_error_classes() -> Seq<ValidationError> {
    seq![
        ValidationError::EmptyIdentifier,
        ValidationError::EmptySubject,
        ValidationError::EmptyRequiredValue,
        ValidationError::WrongObjectClass,
        ValidationError::InvalidSlot,
        ValidationError::MissingRecord,
        ValidationError::UnexpectedRecord,
        ValidationError::SlotConflict,
        ValidationError::SelectorMismatch,
        ValidationError::DuplicateExtension,
        ValidationError::UnorderedExtensions,
        ValidationError::CommitIdMismatch,
        ValidationError::AuthorityPhaseMismatch,
        ValidationError::AuthorityContextMismatch,
        ValidationError::StateContextMismatch,
        ValidationError::InconsistentState,
        ValidationError::InconsistentExecution,
    ]
}

/// `s` is the persistent-state object of positive fixture `k`.
pub open spec fn persistent_base(k: int, s: PersistentStateProjection) -> bool {
    positive_object_at(k, SemanticObject::PersistentState(s))
}

/// `a` is the authority-metadata object of positive fixture `k`.
pub open spec fn authority_base(k: int, a: AuthorityMetadataProjection) -> bool {
    positive_object_at(k, SemanticObject::AuthorityMetadata(a))
}

/// `r` is the execution-receipt object of positive fixture `k`.
pub open spec fn receipt_base(k: int, r: ExecutionReceiptProjection) -> bool {
    positive_object_at(k, SemanticObject::ExecutionReceipt(r))
}

/// `b` with only its protected context replaced by `c`.
pub open spec fn with_context(b: PersistentStateProjection, c: ProtectedContext) -> PersistentStateProjection {
    PersistentStateProjection { context: c, ..b }
}

/// The single defect of negative case `k`, applied to its positive operands.
#[verifier::opaque]
pub open spec fn negative_case_at(k: int, case: NegativeCase) -> bool {
    if k == 0 {
        case matches NegativeCase::Object(SemanticObject::PersistentState(s)) && exists|b| #[trigger]
            persistent_base(0, b) && s.context.profile_identifier@.len() == 0 && s == with_context(
            b,
            ProtectedContext { profile_identifier: s.context.profile_identifier, ..b.context },
        )
    } else if k == 1 {
        case matches NegativeCase::Object(SemanticObject::PersistentState(s)) && exists|b| #[trigger]
            persistent_base(0, b) && s.context.subject.device_identifier@.len() == 0 && s
            == with_context(
            b,
            ProtectedContext {
                subject: SubjectScope {
                    device_identifier: s.context.subject.device_identifier,
                    ..b.context.subject
                },
                ..b.context
            },
        )
    } else if k == 2 {
        case matches NegativeCase::Object(SemanticObject::ExecutionReceipt(r)) && exists|b| #[trigger]
            receipt_base(15, b) && r.key_identifier@.len() == 0 && r == (ExecutionReceiptProjection {
            key_identifier: r.key_identifier,
            ..b
        })
    } else if k == 3 {
        case matches NegativeCase::Object(SemanticObject::PersistentState(s)) && exists|b| #[trigger]
            persistent_base(0, b) && s == with_context(
            b,
            ProtectedContext { object_class: ObjectClass::ExecutionReceipt, ..b.context },
        )
    } else if k == 4 {
        case matches NegativeCase::Object(SemanticObject::PersistentState(s)) && exists|b| #[trigger]
            persistent_base(0, b) && s == (PersistentStateProjection { slot_id: 2, ..b })
    } else if k == 5 {
        case matches NegativeCase::Object(SemanticObject::AuthorityMetadata(a)) && exists|b| #[trigger]
            authority_base(12, b) && a.record_commit_ids@ == seq![b.record_commit_ids@[0], None]
            && a == (AuthorityMetadataProjection { record_commit_ids: a.record_commit_ids, ..b })
    } else if k == 6 {
        case matches NegativeCase::Object(SemanticObject::AuthorityMetadata(a)) && exists|b| #[trigger]
            authority_base(11, b) && a.record_commit_ids@ == seq![
            b.record_commit_ids@[0],
            Some(2u64),
        ] && a == (AuthorityMetadataProjection { record_commit_ids: a.record_commit_ids, ..b })
    } else if k == 7 {
        case matches NegativeCase::Object(SemanticObject::AuthorityMetadata(a)) && exists|b| {
            &&& #[trigger] authority_base(12, b)
            &&& b.phase matches AuthorityPhaseProjection::Prepared { commit_id, prepared_outcome, .. }
            &&& a == (AuthorityMetadataProjection {
                phase: AuthorityPhaseProjection::Prepared {
                    candidate_slot: b.raw_selected_slot,
                    commit_id,
                    prepared_outcome,
                },
                ..b
            })
        }
    } else if k == 8 {
        case matches NegativeCase::Object(SemanticObject::AuthorityMetadata(a)) && exists|b| #[trigger]
            authority_base(14, b) && a == (AuthorityMetadataProjection { raw_selected_slot: 0, ..b })
    } else if k == 9 {
        case matches NegativeCase::Object(SemanticObject::PersistentState(s)) && exists|b| #[trigger]
            persistent_base(0, b) && s.context.extensions@ == b.context.extensions@.update(
            1,
            Extension { identifier: b.context.extensions@[0].identifier, ..b.context.extensions@[1] },
        ) && s == with_context(
            b,
            ProtectedContext { extensions: s.context.extensions, ..b.context },
        )
    } else if k == 10 {
        case matches NegativeCase::Object(SemanticObject::PersistentState(s)) && exists|b| #[trigger]
            persistent_base(0, b) && s.context.extensions@ == b.context.extensions@.reverse() && s
            == with_context(b, ProtectedContext { extensions: s.context.extensions, ..b.context })
    } else if k == 11 {
        case matches NegativeCase::Object(SemanticObject::AuthorityMetadata(a)) && exists|b| {
            &&& #[trigger] authority_base(12, b)
            &&& b.phase matches AuthorityPhaseProjection::Prepared {
                candidate_slot,
                prepared_outcome,
                ..
            }
            &&& a == (AuthorityMetadataProjection {
                phase: AuthorityPhaseProjection::Prepared {
                    candidate_slot,
                    commit_id: 3,
                    prepared_outcome,
                },
                ..b
            })
        }
    } else if k == 12 {
        case matches NegativeCase::ReceiptAuthority { receipt, authority } && receipt_base(15, receipt)
            && authority_base(11, authority)
    } else if k == 13 {
        case matches NegativeCase::ReceiptAuthority { receipt, authority: a } && receipt_base(
            15,
            receipt,
        ) && exists|b| #[trigger]
            authority_base(14, b) && a.context.subject.device_identifier@
            == b.context.subject.device_identifier@.push(0x01) && a == (AuthorityMetadataProjection {
            context: ProtectedContext {
                subject: SubjectScope {
                    device_identifier: a.context.subject.device_identifier,
                    ..b.context.subject
                },
                ..b.context
            },
            ..b
        })
    } else if k == 14 {
        case matches NegativeCase::ReceiptRelease { receipt, authority, state } && receipt_base(
            15,
            *receipt,
        ) && authority_base(14, authority) && exists|b| #[trigger]
            persistent_base(7, b) && b.measurement_epoch < u64::MAX && state == (
            PersistentStateProjection { measurement_epoch: (b.measurement_epoch + 1) as u64, ..b })
    } else if k == 15 {
        case matches NegativeCase::Object(SemanticObject::PersistentState(s)) && exists|b| #[trigger]
            persistent_base(0, b) && s == with_context(
            b,
            ProtectedContext {
                subject: SubjectScope { device_generation: 1, ..b.context.subject },
                ..b.context
            },
        )
    } else if k == 16 {
        case matches NegativeCase::Object(SemanticObject::AuthorityMetadata(a)) && exists|b| {
            &&& #[trigger] authority_base(12, b)
            &&& b.phase matches AuthorityPhaseProjection::Prepared {
                candidate_slot,
                commit_id,
                prepared_outcome: PreparedOutcomeProjection::Applied(execution),
            }
            &&& a == (AuthorityMetadataProjection {
                phase: AuthorityPhaseProjection::Prepared {
                    candidate_slot,
                    commit_id,
                    prepared_outcome: PreparedOutcomeProjection::Applied(
                        ExecutionProjection { receipt: Some(inconsistent_claims()), ..execution },
                    ),
                },
                ..b
            })
        }
    } else {
        false
    }
}

/// The current-receipt claims embedded by the inconsistent-execution case:
/// operational claims for a prepared execution that leaves the lifecycle
/// update pending, with a zero receipt sequence.
pub open spec fn inconsistent_claims() -> CurrentReceiptClaims {
    CurrentReceiptClaims {
        lifecycle_state: LifecycleState::Operational,
        device_generation: 1,
        transition_counter: 2,
        measurement_epoch: 0,
        receipt_sequence: 0,
        active_version: 1,
        challenge: None,
    }
}

/// Negative fixture `k` of the frozen corpus.
pub open spec fn negative_fixture_at(k: int, f: NegativeFixture) -> bool {
    &&& f.identifier@ == negative_identifiers()[k]
    &&& f.purpose@ == negative_purposes()[k]
    &&& f.expected_error == validation_error_classes()[k]
    &&& negative_case_at(k, f.case)
}

/// The complete frozen negative corpus, fixture by fixture.
pub open spec fn negative_corpus(s: Seq<NegativeFixture>) -> bool {
    &&& s.len() == 17
    &&& negative_fixture_at(0, s[0])
    &&& negative_fixture_at(1, s[1])
    &&& negative_fixture_at(2, s[2])
    &&& negative_fixture_at(3, s[3])
    &&& negative_fixture_at(4, s[4])
    &&& negative_fixture_at(5, s[5])
    &&& negative_fixture_at(6, s[6])
    &&& negative_fixture_at(7, s[7])
    &&& negative_fixture_at(8, s[8])
    &&& negative_fixture_at(9, s[9])
    &&& negative_fixture_at(10, s[10])
    &&& negative_fixture_at(11, s[11])
    &&& negative_fixture_at(12, s[12])
    &&& negative_fixture_at(13, s[13])
    &&& negative_fixture_at(14, s[14])
    &&& negative_fixture_at(15, s[15])
    &&& negative_fixture_at(16, s[16])
}


/// `extensions` in reverse order.
fn reversed(extensions: Vec<Extension>) -> (out: Vec<Extension>)
    ensures
        out@ == extensions@.reverse(),
{
    let mut remaining = extensions;
    let mut out: Vec<Extension> = Vec::new();
    let ghost n = extensions@.len();
    while remaining.len() > 0
        invariant
            remaining@ == extensions@.subrange(0, remaining@.len() as int),
            out@.len() + remaining@.len() == n,
            n == extensions@.len(),
            forall|j: int| 0 <= j < out@.len() ==> out@[j] == extensions@[n - 1 - j],
        decreases remaining@.len(),
    {
        match remaining.pop() {
            Some(last) => {
                out.push(last);
            },
            None => {},
        }
    }
    assert(out@ =~= extensions@.reverse());
    out
}

/// Positive persistent fixture 0 with an empty profile identifier.
fn empty_identifier_case() -> (res: Result<NegativeCase, NegativeCorpusError>)
    ensures
        res matches Ok(case) && negative_case_at(0, case),
{
    reveal(negative_case_at);
    proof {
        assert(names_positive("persistent-blank-absent-key-generation"@, 0));
        assert(positive_class(0) == ObjectClass::PersistentState);
    }
    let mut state = match persistent("persistent-blank-absent-key-generation") {
        Ok(state) => state,
        Err(error) => return Err(error),
    };
    let ghost base = state;
    state.context.profile_identifier = String::new();
    proof {
        assert(persistent_base(0, base));
    }
    Ok(NegativeCase::Object(SemanticObject::PersistentState(state)))
}

/// Positive persistent fixture 0 with an empty device identifier.
fn empty_subject_case() -> (res: Result<NegativeCase, NegativeCorpusError>)
    ensures
        res matches Ok(case) && negative_case_at(1, case),
{
    reveal(negative_case_at);
    proof {
        assert(names_positive("persistent-blank-absent-key-generation"@, 0));
        assert(positive_class(0) == ObjectClass::PersistentState);
    }
    let mut state = match persistent("persistent-blank-absent-key-generation") {
        Ok(state) => state,
        Err(error) => return Err(error),
    };
    let ghost base = state;
    state.context.subject.device_identifier.clear();
    proof {
        assert(persistent_base(0, base));
    }
    Ok(NegativeCase::Object(SemanticObject::PersistentState(state)))
}

/// The minimal positive receipt with an empty key identifier.
fn empty_required_value_case() -> (res: Result<NegativeCase, NegativeCorpusError>)
    ensures
        res matches Ok(case) && negative_case_at(2, case),
{
    reveal(negative_case_at);
    proof {
        assert(names_positive("receipt-minimal-optionals-absent"@, 15));
        assert(positive_class(15) == ObjectClass::ExecutionReceipt);
    }
    let mut receipt = match receipt("receipt-minimal-optionals-absent") {
        Ok(receipt) => receipt,
        Err(error) => return Err(error),
    };
    let ghost base = receipt;
    receipt.key_identifier.clear();
    proof {
        assert(receipt_base(15, base));
    }
    Ok(NegativeCase::Object(SemanticObject::ExecutionReceipt(receipt)))
}

/// Positive persistent fixture 0 presented in the receipt domain.
fn wrong_object_class_case() -> (res: Result<NegativeCase, NegativeCorpusError>)
    ensures
        res matches Ok(case) && negative_case_at(3, case),
{
    reveal(negative_case_at);
    proof {
        assert(names_positive("persistent-blank-absent-key-generation"@, 0));
        assert(positive_class(0) == ObjectClass::PersistentState);
    }
    let mut state = match persistent("persistent-blank-absent-key-generation") {
        Ok(state) => state,
        Err(error) => return Err(error),
    };
    let ghost base = state;
    state.context.object_class = ObjectClass::ExecutionReceipt;
    proof {
        assert(persistent_base(0, base));
    }
    Ok(NegativeCase::Object(SemanticObject::PersistentState(state)))
}

/// Positive persistent fixture 0 naming slot 2.
fn invalid_slot_case() -> (res: Result<NegativeCase, NegativeCorpusError>)
    ensures
        res matches Ok(case) && negative_case_at(4, case),
{
    reveal(negative_case_at);
    proof {
        assert(names_positive("persistent-blank-absent-key-generation"@, 0));
        assert(positive_class(0) == ObjectClass::PersistentState);
    }
    let mut state = match persistent("persistent-blank-absent-key-generation") {
        Ok(state) => state,
        Err(error) => return Err(error),
    };
    let ghost base = state;
    state.slot_id = 2;
    proof {
        assert(persistent_base(0, base));
    }
    Ok(NegativeCase::Object(SemanticObject::PersistentState(state)))
}

/// The prepared-applied authority without its candidate record.
fn missing_record_case() -> (res: Result<NegativeCase, NegativeCorpusError>)
    ensures
        res matches Ok(case) && negative_case_at(5, case),
{
    reveal(negative_case_at);
    proof {
        assert(names_positive("authority-prepared-applied"@, 12));
        assert(positive_class(12) == ObjectClass::AuthorityMetadata);
    }
    let mut authority = match authority("authority-prepared-applied") {
        Ok(authority) => authority,
        Err(error) => return Err(error),
    };
    let ghost base = authority;
    let ids = authority.record_commit_ids;
    authority.record_commit_ids = [ids[0], None];
    proof {
        assert(authority_base(12, base));
        assert(authority.record_commit_ids@ =~= seq![base.record_commit_ids@[0], None]);
    }
    Ok(NegativeCase::Object(SemanticObject::AuthorityMetadata(authority)))
}

/// The clean authority retaining a second record.
fn unexpected_record_case() -> (res: Result<NegativeCase, NegativeCorpusError>)
    ensures
        res matches Ok(case) && negative_case_at(6, case),
{
    reveal(negative_case_at);
    proof {
        assert(names_positive("authority-clean"@, 11));
        assert(positive_class(11) == ObjectClass::AuthorityMetadata);
    }
    let mut authority = match authority("authority-clean") {
        Ok(authority) => authority,
        Err(error) => return Err(error),
    };
    let ghost base = authority;
    let ids = authority.record_commit_ids;
    authority.record_commit_ids = [ids[0], Some(2)];
    proof {
        assert(authority_base(11, base));
        assert(authority.record_commit_ids@ =~= seq![base.record_commit_ids@[0], Some(2u64)]);
    }
    Ok(NegativeCase::Object(SemanticObject::AuthorityMetadata(authority)))
}

/// The prepared-applied authority whose candidate aliases the selected slot.
fn slot_conflict_case() -> (res: Result<NegativeCase, NegativeCorpusError>)
    ensures
        res matches Ok(case) && negative_case_at(7, case),
{
    reveal(negative_case_at);
    proof {
        assert(names_positive("authority-prepared-applied"@, 12));
        assert(positive_class(12) == ObjectClass::AuthorityMetadata);
    }
    let authority = match authority("authority-prepared-applied") {
        Ok(authority) => authority,
        Err(error) => return Err(error),
    };
    let ghost base = authority;
    let AuthorityMetadataProjection { context, raw_selected_slot, record_commit_ids, phase } =
        authority;
    let phase = match phase {
        AuthorityPhaseProjection::Prepared { commit_id, prepared_outcome, .. } => {
            AuthorityPhaseProjection::Prepared {
                candidate_slot: raw_selected_slot,
                commit_id,
                prepared_outcome,
            }
        },
        _ => return Err(NegativeCorpusError::UnexpectedAuthorityShape("authority-prepared-applied")),
    };
    proof {
        assert(authority_base(12, base));
    }
    Ok(
        NegativeCase::Object(
            SemanticObject::AuthorityMetadata(
                AuthorityMetadataProjection { context, raw_selected_slot, record_commit_ids, phase },
            ),
        ),
    )
}

/// The committed authority whose selector names the previous slot.
fn selector_mismatch_case() -> (res: Result<NegativeCase, NegativeCorpusError>)
    ensures
        res matches Ok(case) && negative_case_at(8, case),
{
    reveal(negative_case_at);
    proof {
        assert(names_positive("authority-committed"@, 14));
        assert(positive_class(14) == ObjectClass::AuthorityMetadata);
    }
    let mut authority = match authority("authority-committed") {
        Ok(authority) => authority,
        Err(error) => return Err(error),
    };
    let ghost base = authority;
    authority.raw_selected_slot = 0;
    proof {
        assert(authority_base(14, base));
    }
    Ok(NegativeCase::Object(SemanticObject::AuthorityMetadata(authority)))
}

/// Positive persistent fixture 0 whose second extension repeats the first
/// identifier.
fn duplicate_extension_case() -> (res: Result<NegativeCase, NegativeCorpusError>)
    ensures
        res matches Ok(case) && negative_case_at(9, case),
{
    reveal(negative_case_at);
    proof {
        assert(names_positive("persistent-blank-absent-key-generation"@, 0));
        assert(positive_class(0) == ObjectClass::PersistentState);
    }
    let mut state = match persistent("persistent-blank-absent-key-generation") {
        Ok(state) => state,
        Err(error) => return Err(error),
    };
    let ghost base = state;
    proof {
        assert(persistent_base(0, base));
    }
    let mut second = state.context.extensions.remove(1);
    second.identifier = state.context.extensions[0].identifier.clone();
    state.context.extensions.insert(1, second);
    proof {
        assert(state.context.extensions@ =~= base.context.extensions@.update(
            1,
            Extension {
                identifier: base.context.extensions@[0].identifier,
                ..base.context.extensions@[1]
            },
        ));
    }
    Ok(NegativeCase::Object(SemanticObject::PersistentState(state)))
}

/// Positive persistent fixture 0 with its extensions in reverse order.
fn unordered_extensions_case() -> (res: Result<NegativeCase, NegativeCorpusError>)
    ensures
        res matches Ok(case) && negative_case_at(10, case),
{
    reveal(negative_case_at);
    proof {
        assert(names_positive("persistent-blank-absent-key-generation"@, 0));
        assert(positive_class(0) == ObjectClass::PersistentState);
    }
    let mut state = match persistent("persistent-blank-absent-key-generation") {
        Ok(state) => state,
        Err(error) => return Err(error),
    };
    let ghost base = state;
    let mut extensions: Vec<Extension> = Vec::new();
    std::mem::swap(&mut extensions, &mut state.context.extensions);
    state.context.extensions = reversed(extensions);
    proof {
        assert(persistent_base(0, base));
    }
    Ok(NegativeCase::Object(SemanticObject::PersistentState(state)))
}

/// The prepared-applied authority whose phase names commit 3.
fn commit_id_mismatch_case() -> (res: Result<NegativeCase, NegativeCorpusError>)
    ensures
        res matches Ok(case) && negative_case_at(11, case),
{
    reveal(negative_case_at);
    proof {
        assert(names_positive("authority-prepared-applied"@, 12));
        assert(positive_class(12) == ObjectClass::AuthorityMetadata);
    }
    let authority = match authority("authority-prepared-applied") {
        Ok(authority) => authority,
        Err(error) => return Err(error),
    };
    let ghost base = authority;
    let AuthorityMetadataProjection { context, raw_selected_slot, record_commit_ids, phase } =
        authority;
    let phase = match phase {
        AuthorityPhaseProjection::Prepared { candidate_slot, prepared_outcome, .. } => {
            AuthorityPhaseProjection::Prepared { candidate_slot, commit_id: 3, prepared_outcome }
        },
        _ => return Err(NegativeCorpusError::UnexpectedAuthorityShape("authority-prepared-applied")),
    };
    proof {
        assert(authority_base(12, base));
    }
    Ok(
        NegativeCase::Object(
            SemanticObject::AuthorityMetadata(
                AuthorityMetadataProjection { context, raw_selected_slot, record_commit_ids, phase },
            ),
        ),
    )
}

/// The minimal positive receipt under the clean authority.
fn authority_phase_mismatch_case() -> (res: Result<NegativeCase, NegativeCorpusError>)
    ensures
        res matches Ok(case) && negative_case_at(12, case),
{
    reveal(negative_case_at);
    proof {
        assert(names_positive("receipt-minimal-optionals-absent"@, 15));
        assert(positive_class(15) == ObjectClass::ExecutionReceipt);
        assert(names_positive("authority-clean"@, 11));
        assert(positive_class(11) == ObjectClass::AuthorityMetadata);
    }
    let receipt = match receipt("receipt-minimal-optionals-absent") {
        Ok(receipt) => receipt,
        Err(error) => return Err(error),
    };
    let authority = match authority("authority-clean") {
        Ok(authority) => authority,
        Err(error) => return Err(error),
    };
    Ok(NegativeCase::ReceiptAuthority { receipt, authority })
}

/// The minimal positive receipt under a committed authority whose subject
/// carries one more device byte.
fn authority_context_mismatch_case() -> (res: Result<NegativeCase, NegativeCorpusError>)
    ensures
        res matches Ok(case) && negative_case_at(13, case),
{
    reveal(negative_case_at);
    proof {
        assert(names_positive("receipt-minimal-optionals-absent"@, 15));
        assert(positive_class(15) == ObjectClass::ExecutionReceipt);
        assert(names_positive("authority-committed"@, 14));
        assert(positive_class(14) == ObjectClass::AuthorityMetadata);
    }
    let receipt = match receipt("receipt-minimal-optionals-absent") {
        Ok(receipt) => receipt,
        Err(error) => return Err(error),
    };
    let mut authority = match authority("authority-committed") {
        Ok(authority) => authority,
        Err(error) => return Err(error),
    };
    let ghost base = authority;
    authority.context.subject.device_identifier.push(0x01);
    proof {
        assert(authority_base(14, base));
    }
    Ok(NegativeCase::ReceiptAuthority { receipt, authority })
}

/// The complete positive release whose authoritative state has a later
/// measurement epoch.
fn state_context_mismatch_case() -> (res: Result<NegativeCase, NegativeCorpusError>)
    ensures
        res matches Ok(case) && negative_case_at(14, case),
{
    reveal(negative_case_at);
    proof {
        assert(names_positive("receipt-minimal-optionals-absent"@, 15));
        assert(positive_class(15) == ObjectClass::ExecutionReceipt);
        assert(names_positive("authority-committed"@, 14));
        assert(positive_class(14) == ObjectClass::AuthorityMetadata);
        assert(names_positive("persistent-operational-receipt-release"@, 7));
        assert(positive_class(7) == ObjectClass::PersistentState);
    }
    let receipt = match receipt("receipt-minimal-optionals-absent") {
        Ok(receipt) => receipt,
        Err(error) => return Err(error),
    };
    let authority = match authority("authority-committed") {
        Ok(authority) => authority,
        Err(error) => return Err(error),
    };
    let mut state = match persistent("persistent-operational-receipt-release") {
        Ok(state) => state,
        Err(error) => return Err(error),
    };
    let ghost base = state;
    proof {
        assert(persistent_base(7, base));
    }
    state.measurement_epoch = state.measurement_epoch + 1;
    Ok(NegativeCase::ReceiptRelease { receipt: Box::new(receipt), authority, state })
}

/// Positive persistent fixture 0 whose subject names device generation 1.
fn inconsistent_state_case() -> (res: Result<NegativeCase, NegativeCorpusError>)
    ensures
        res matches Ok(case) && negative_case_at(15, case),
{
    reveal(negative_case_at);
    proof {
        assert(names_positive("persistent-blank-absent-key-generation"@, 0));
        assert(positive_class(0) == ObjectClass::PersistentState);
    }
    let mut state = match persistent("persistent-blank-absent-key-generation") {
        Ok(state) => state,
        Err(error) => return Err(error),
    };
    let ghost base = state;
    state.context.subject.device_generation = 1;
    proof {
        assert(persistent_base(0, base));
    }
    Ok(NegativeCase::Object(SemanticObject::PersistentState(state)))
}

/// The prepared-applied authority whose withheld execution carries current
/// receipt claims that contradict its audit.
fn inconsistent_execution_case() -> (res: Result<NegativeCase, NegativeCorpusError>)
    ensures
        res matches Ok(case) && negative_case_at(16, case),
{
    reveal(negative_case_at);
    proof {
        assert(names_positive("authority-prepared-applied"@, 12));
        assert(positive_class(12) == ObjectClass::AuthorityMetadata);
    }
    let authority = match authority("authority-prepared-applied") {
        Ok(authority) => authority,
        Err(error) => return Err(error),
    };
    let ghost base = authority;
    let AuthorityMetadataProjection { context, raw_selected_slot, record_commit_ids, phase } =
        authority;
    let phase = match phase {
        AuthorityPhaseProjection::Prepared {
            candidate_slot,
            commit_id,
            prepared_outcome: PreparedOutcomeProjection::Applied(execution),
        } => AuthorityPhaseProjection::Prepared {
            candidate_slot,
            commit_id,
            prepared_outcome: PreparedOutcomeProjection::Applied(
                ExecutionProjection {
                    audit: execution.audit,
                    receipt: Some(
                        CurrentReceiptClaims {
                            lifecycle_state: LifecycleState::Operational,
                            device_generation: 1,
                            transition_counter: 2,
                            measurement_epoch: 0,
                            receipt_sequence: 0,
                            active_version: 1,
                            challenge: None,
                        },
                    ),
                },
            ),
        },
        _ => return Err(NegativeCorpusError::UnexpectedAuthorityShape("authority-prepared-applied")),
    };
    proof {
        assert(authority_base(12, base));
    }
    Ok(
        NegativeCase::Object(
            SemanticObject::AuthorityMetadata(
                AuthorityMetadataProjection { context, raw_selected_slot, record_commit_ids, phase },
            ),
        ),
    )
}


/// Candidate-neutral negative corpus.
///
/// The initial corpus pins exactly one deterministic case for every stable
/// semantic [`ValidationError`]. These are invalid typed meanings, not
/// malformed protocol bytes or parser vectors. Every positive operand is
/// present in the frozen positive corpus, so construction always succeeds;
/// a drifted operand would be reported as a [`NegativeCorpusError`].
pub fn negative_fixtures() -> (res: Result<Vec<NegativeFixture>, NegativeCorpusError>)
    ensures
        res matches Ok(fixtures) && negative_corpus(fixtures@),
{
    let mut fixtures: Vec<NegativeFixture> = Vec::new();
    let case = match empty_identifier_case() {
        Ok(case) => case,
        Err(error) => return Err(error),
    };
    fixtures.push(
        NegativeFixture {
            identifier: "negative-empty-identifier",
            purpose: "required protected-context identifier is empty",
            case,
            expected_error: ValidationError::EmptyIdentifier,
        },
    );
    assert(negative_fixture_at(0, fixtures@[0]));
    let case = match empty_subject_case() {
        Ok(case) => case,
        Err(error) => return Err(error),
    };
    fixtures.push(
        NegativeFixture {
            identifier: "negative-empty-subject",
            purpose: "protected subject has no device identifier",
            case,
            expected_error: ValidationError::EmptySubject,
        },
    );
    assert(negative_fixture_at(1, fixtures@[1]));
    let case = match empty_required_value_case() {
        Ok(case) => case,
        Err(error) => return Err(error),
    };
    fixtures.push(
        NegativeFixture {
            identifier: "negative-empty-required-value",
            purpose: "receipt key identifier is present but empty",
            case,
            expected_error: ValidationError::EmptyRequiredValue,
        },
    );
    assert(negative_fixture_at(2, fixtures@[2]));
    let case = match wrong_object_class_case() {
        Ok(case) => case,
        Err(error) => return Err(error),
    };
    fixtures.push(
        NegativeFixture {
            identifier: "negative-wrong-object-class",
            purpose: "persistent-state payload is domain-substituted as a receipt",
            case,
            expected_error: ValidationError::WrongObjectClass,
        },
    );
    assert(negative_fixture_at(3, fixtures@[3]));
    let case = match invalid_slot_case() {
        Ok(case) => case,
        Err(error) => return Err(error),
    };
    fixtures.push(
        NegativeFixture {
            identifier: "negative-invalid-slot",
            purpose: "persistent record names a slot outside the two-slot model",
            case,
            expected_error: ValidationError::InvalidSlot,
        },
    );
    assert(negative_fixture_at(4, fixtures@[4]));
    let case = match missing_record_case() {
        Ok(case) => case,
        Err(error) => return Err(error),
    };
    fixtures.push(
        NegativeFixture {
            identifier: "negative-missing-record",
            purpose: "prepared authority omits its candidate record",
            case,
            expected_error: ValidationError::MissingRecord,
        },
    );
    assert(negative_fixture_at(5, fixtures@[5]));
    let case = match unexpected_record_case() {
        Ok(case) => case,
        Err(error) => return Err(error),
    };
    fixtures.push(
        NegativeFixture {
            identifier: "negative-unexpected-record",
            purpose: "clean authority retains an untracked second record",
            case,
            expected_error: ValidationError::UnexpectedRecord,
        },
    );
    assert(negative_fixture_at(6, fixtures@[6]));
    let case = match slot_conflict_case() {
        Ok(case) => case,
        Err(error) => return Err(error),
    };
    fixtures.push(
        NegativeFixture {
            identifier: "negative-slot-conflict",
            purpose: "prepared candidate aliases the selected previous slot",
            case,
            expected_error: ValidationError::SlotConflict,
        },
    );
    assert(negative_fixture_at(7, fixtures@[7]));
    let case = match selector_mismatch_case() {
        Ok(case) => case,
        Err(error) => return Err(error),
    };
    fixtures.push(
        NegativeFixture {
            identifier: "negative-selector-mismatch",
            purpose: "committed selector does not select the declared next record",
            case,
            expected_error: ValidationError::SelectorMismatch,
        },
    );
    assert(negative_fixture_at(8, fixtures@[8]));
    let case = match duplicate_extension_case() {
        Ok(case) => case,
        Err(error) => return Err(error),
    };
    fixtures.push(
        NegativeFixture {
            identifier: "negative-duplicate-extension",
            purpose: "two retained extensions share one semantic identifier",
            case,
            expected_error: ValidationError::DuplicateExtension,
        },
    );
    assert(negative_fixture_at(9, fixtures@[9]));
    let case = match unordered_extensions_case() {
        Ok(case) => case,
        Err(error) => return Err(error),
    };
    fixtures.push(
        NegativeFixture {
            identifier: "negative-unordered-extensions",
            purpose: "extension set is supplied in non-increasing identifier order",
            case,
            expected_error: ValidationError::UnorderedExtensions,
        },
    );
    assert(negative_fixture_at(10, fixtures@[10]));
    let case = match commit_id_mismatch_case() {
        Ok(case) => case,
        Err(error) => return Err(error),
    };
    fixtures.push(
        NegativeFixture {
            identifier: "negative-commit-id-mismatch",
            purpose: "authority phase commit does not bind the candidate record",
            case,
            expected_error: ValidationError::CommitIdMismatch,
        },
    );
    assert(negative_fixture_at(11, fixtures@[11]));
    let case = match authority_phase_mismatch_case() {
        Ok(case) => case,
        Err(error) => return Err(error),
    };
    fixtures.push(
        NegativeFixture {
            identifier: "negative-authority-phase-mismatch",
            purpose: "valid receipt is presented under clean rather than committed authority",
            case,
            expected_error: ValidationError::AuthorityPhaseMismatch,
        },
    );
    assert(negative_fixture_at(12, fixtures@[12]));
    let case = match authority_context_mismatch_case() {
        Ok(case) => case,
        Err(error) => return Err(error),
    };
    fixtures.push(
        NegativeFixture {
            identifier: "negative-authority-context-mismatch",
            purpose: "valid receipt and committed authority name different subjects",
            case,
            expected_error: ValidationError::AuthorityContextMismatch,
        },
    );
    assert(negative_fixture_at(13, fixtures@[13]));
    let case = match state_context_mismatch_case() {
        Ok(case) => case,
        Err(error) => return Err(error),
    };
    fixtures.push(
        NegativeFixture {
            identifier: "negative-state-context-mismatch",
            purpose: "complete release disagrees with authoritative measurement epoch",
            case,
            expected_error: ValidationError::StateContextMismatch,
        },
    );
    assert(negative_fixture_at(14, fixtures@[14]));
    let case = match inconsistent_state_case() {
        Ok(case) => case,
        Err(error) => return Err(error),
    };
    fixtures.push(
        NegativeFixture {
            identifier: "negative-inconsistent-state",
            purpose: "protected subject generation contradicts persistent state",
            case,
            expected_error: ValidationError::InconsistentState,
        },
    );
    assert(negative_fixture_at(15, fixtures@[15]));
    let case = match inconsistent_execution_case() {
        Ok(case) => case,
        Err(error) => return Err(error),
    };
    fixtures.push(
        NegativeFixture {
            identifier: "negative-inconsistent-execution",
            purpose: "prepared execution carries a zero receipt sequence",
            case,
            expected_error: ValidationError::InconsistentExecution,
        },
    );
    assert(negative_fixture_at(16, fixtures@[16]));
    Ok(fixtures)
}

} // verus!
