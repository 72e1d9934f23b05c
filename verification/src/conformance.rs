//! Corpus-level conformance of the frozen positive and negative fixture
//! corpora: manifests, metadata, identifier uniqueness, validity, pinned
//! failures and exact error-class coverage.
use vstd::prelude::*;
use crate::negative_corpus::{
    NegativeCase, NegativeCorpusError, NegativeFixture, NegativeFixtureFailure,
    negative_corpus, negative_fixtures, negative_identifiers, negative_purposes,
    validation_error_classes,
};
use crate::negative_laws::{lemma_negative_identifiers_distinct, negative_corpus_fails_as_pinned};
use crate::positive_corpus::{
    positive_corpus, positive_corpus_is_valid, positive_fixtures, positive_identifiers,
    positive_purposes, lemma_positive_identifiers_distinct,
};
use crate::semantic::{Fixture, ValidationError, text_equal};

verus! {

/// Successful corpus-conformance counts.
#[derive(Clone, Copy, Debug, PartialEq, Eq, Structural)]
pub struct CorpusConformanceSummary {
    pub positive_fixtures: usize,
    pub negative_fixtures: usize,
    pub validation_error_classes: usize,
}

/// Stable corpus-level drift or conformance failure.
#[derive(Clone, Copy, Debug, PartialEq, Eq)]
pub enum CorpusConformanceError {
    PositiveManifestMismatch,
    NegativeManifestMismatch,
    EmptyFixtureMetadata(&'static str),
    DuplicateFixtureIdentifier(&'static str),
    InvalidPositiveFixture { identifier: &'static str, error: ValidationError },
    InvalidNegativeCorpus(NegativeCorpusError),
    InvalidNegativeOperand { identifier: &'static str, error: ValidationError },
    NegativeErrorCoverageMismatch,
    InvalidNegativeFixture(NegativeFixtureFailure),
}

/// The frozen positive manifest.
fn positive_manifest() -> (ids: [&'static str; 17])
    ensures
        forall|k: int| 0 <= k < 17 ==> (#[trigger] ids@[k])@ == positive_identifiers()[k],
{
    [
        "persistent-blank-absent-key-generation",
        "persistent-blank-zero-key-generation",
        "persistent-operational-u64-boundaries",
        "persistent-provisioning-initial",
        "persistent-provisioning-recommission",
        "persistent-update-pending",
        "persistent-recovery",
        "persistent-operational-receipt-release",
        "persistent-revoked",
        "persistent-decommissioned",
        "persistent-fault",
        "authority-clean",
        "authority-prepared-applied",
        "authority-prepared-rejected",
        "authority-committed",
        "receipt-minimal-optionals-absent",
        "receipt-optionals-present",
    ]
}

/// The frozen negative manifest.
fn negative_manifest() -> (ids: [&'static str; 17])
    ensures
        forall|k: int| 0 <= k < 17 ==> (#[trigger] ids@[k])@ == negative_identifiers()[k],
{
    [
        "negative-empty-identifier",
        "negative-empty-subject",
        "negative-empty-required-value",
        "negative-wrong-object-class",
        "negative-invalid-slot",
        "negative-missing-record",
        "negative-unexpected-record",
        "negative-slot-conflict",
        "negative-selector-mismatch",
        "negative-duplicate-extension",
        "negative-unordered-extensions",
        "negative-commit-id-mismatch",
        "negative-authority-phase-mismatch",
        "negative-authority-context-mismatch",
        "negative-state-context-mismatch",
        "negative-inconsistent-state",
        "negative-inconsistent-execution",
    ]
}

/// Position of `error` in the stable declaration order of the classes.
pub fn validation_error_index(error: &ValidationError) -> (index: usize)
    ensures
        index < 17,
        validation_error_classes()[index as int] == *error,
{
    match error {
        ValidationError::EmptyIdentifier => 0,
        ValidationError::EmptySubject => 1,
        ValidationError::EmptyRequiredValue => 2,
        ValidationError::WrongObjectClass => 3,
        ValidationError::InvalidSlot => 4,
        ValidationError::MissingRecord => 5,
        ValidationError::UnexpectedRecord => 6,
        ValidationError::SlotConflict => 7,
        ValidationError::SelectorMismatch => 8,
        ValidationError::DuplicateExtension => 9,
        ValidationError::UnorderedExtensions => 10,
        ValidationError::CommitIdMismatch => 11,
        ValidationError::AuthorityPhaseMismatch => 12,
        ValidationError::AuthorityContextMismatch => 13,
        ValidationError::StateContextMismatch => 14,
        ValidationError::InconsistentState => 15,
        ValidationError::InconsistentExecution => 16,
    }
}

/// The identifiers of `negatives` are exactly the frozen negative manifest.
pub open spec fn negative_manifest_matches(negatives: Seq<NegativeFixture>) -> bool {
    &&& negatives.len() == 17
    &&& forall|k: int| 0 <= k < 17 ==> (#[trigger] negatives[k]).identifier@ == negative_identifiers()[k]
}

/// Reject a negative corpus whose identifiers drift from the frozen
/// manifest.
pub fn validate_negative_manifest(negatives: &[NegativeFixture]) -> (res: Result<
    (),
    CorpusConformanceError,
>)
    ensures
        res is Ok <==> negative_manifest_matches(negatives@),
        res matches Err(e) ==> e == CorpusConformanceError::NegativeManifestMismatch,
{
    let manifest = negative_manifest();
    if negatives.len() != 17 {
        return Err(CorpusConformanceError::NegativeManifestMismatch);
    }
    let mut k: usize = 0;
    while k < 17
        invariant
            negatives@.len() == 17,
            forall|j: int| 0 <= j < 17 ==> (#[trigger] manifest@[j])@ == negative_identifiers()[j],
            k <= 17,
            forall|j: int| 0 <= j < k ==> (#[trigger] negatives@[j]).identifier@ == negative_identifiers()[j],
        decreases 17 - k,
    {
        if !text_equal(negatives[k].identifier, manifest[k]) {
            assert(manifest@[k as int]@ == negative_identifiers()[k as int]);
            return Err(CorpusConformanceError::NegativeManifestMismatch);
        }
        assert(manifest@[k as int]@ == negative_identifiers()[k as int]);
        k = k + 1;
    }
    Ok(())
}

/// Reject a negative fixture whose cross-object operands are not each
/// individually valid, naming the first failing operand's error.
pub fn validate_negative_operands(fixture: &NegativeFixture) -> (res: Result<
    (),
    CorpusConformanceError,
>)
    ensures
        res is Ok <==> fixture.case.spec_operands() is Ok,
        res matches Err(e) ==> e == (CorpusConformanceError::InvalidNegativeOperand {
            identifier: fixture.identifier,
            error: fixture.case.spec_operands()->Err_0,
        }),
{
    let result = match &fixture.case {
        NegativeCase::Object(_) => Ok(()),
        NegativeCase::ReceiptAuthority { receipt, authority } => match receipt.validate() {
            Ok(()) => authority.validate(),
            Err(error) => Err(error),
        },
        NegativeCase::ReceiptState { receipt, state } => match receipt.validate() {
            Ok(()) => state.validate(),
            Err(error) => Err(error),
        },
        NegativeCase::ReceiptRelease { receipt, authority, state } => match receipt.validate() {
            Ok(()) => match authority.validate() {
                Ok(()) => state.validate(),
                Err(error) => Err(error),
            },
            Err(error) => Err(error),
        },
    };
    match result {
        Ok(()) => Ok(()),
        Err(error) => Err(
            CorpusConformanceError::InvalidNegativeOperand { identifier: fixture.identifier, error },
        ),
    }
}

/// Reject fixture metadata with an empty identifier or purpose.
pub fn validate_metadata(identifier: &'static str, purpose: &'static str) -> (res: Result<
    (),
    CorpusConformanceError,
>)
    ensures
        res is Ok <==> identifier@.len() > 0 && purpose@.len() > 0,
        res matches Err(e) ==> e == CorpusConformanceError::EmptyFixtureMetadata(identifier),
{
    if identifier.is_empty() || purpose.is_empty() {
        return Err(CorpusConformanceError::EmptyFixtureMetadata(identifier));
    }
    Ok(())
}

/// Every frozen identifier and purpose is non-empty, and no negative
/// identifier repeats a positive one.
proof fn lemma_corpus_metadata()
    ensures
        forall|k: int| 0 <= k < 17 ==> (#[trigger] positive_identifiers()[k]).len() > 0,
        forall|k: int| 0 <= k < 17 ==> (#[trigger] positive_purposes()[k]).len() > 0,
        forall|k: int| 0 <= k < 17 ==> (#[trigger] negative_identifiers()[k]).len() > 0,
        forall|k: int| 0 <= k < 17 ==> (#[trigger] negative_purposes()[k]).len() > 0,
        forall|i: int, j: int|
            0 <= i < 17 && 0 <= j < 17 ==> positive_identifiers()[i] != negative_identifiers()[j],
{
    reveal_strlit("persistent-blank-absent-key-generation");
    reveal_strlit("persistent-blank-zero-key-generation");
    reveal_strlit("persistent-operational-u64-boundaries");
    reveal_strlit("persistent-provisioning-initial");
    reveal_strlit("persistent-provisioning-recommission");
    reveal_strlit("persistent-update-pending");
    reveal_strlit("persistent-recovery");
    reveal_strlit("persistent-operational-receipt-release");
    reveal_strlit("persistent-revoked");
    reveal_strlit("persistent-decommissioned");
    reveal_strlit("persistent-fault");
    reveal_strlit("authority-clean");
    reveal_strlit("authority-prepared-applied");
    reveal_strlit("authority-prepared-rejected");
    reveal_strlit("authority-committed");
    reveal_strlit("receipt-minimal-optionals-absent");
    reveal_strlit("receipt-optionals-present");
    reveal_strlit("zero counters and absent optional lineage");
    reveal_strlit("present zero differs from absent lineage");
    reveal_strlit("maximum-width unsigned semantic values");
    reveal_strlit("present initial provisioning generation and origin");
    reveal_strlit("present recommission generation and origin");
    reveal_strlit("present staged update version");
    reveal_strlit("recovery lifecycle without staged update or provisioning");
    reveal_strlit("authoritative snapshot matching the positive receipt release");
    reveal_strlit("revoked lifecycle with inactive identity");
    reveal_strlit("terminal lifecycle with inactive identity");
    reveal_strlit("fault lifecycle disables identity eligibility");
    reveal_strlit("stable selected record with no candidate");
    reveal_strlit("candidate plus complete withheld execution");
    reveal_strlit("candidate plus stable withheld rejection");
    reveal_strlit("selected next record with retained previous record");
    reveal_strlit("complete required future receipt with optionals absent");
    reveal_strlit("present zero and byte-valued optionals remain distinct");
    reveal_strlit("negative-empty-identifier");
    reveal_strlit("negative-empty-subject");
    reveal_strlit("negative-empty-required-value");
    reveal_strlit("negative-wrong-object-class");
    reveal_strlit("negative-invalid-slot");
    reveal_strlit("negative-missing-record");
    reveal_strlit("negative-unexpected-record");
    reveal_strlit("negative-slot-conflict");
    reveal_strlit("negative-selector-mismatch");
    reveal_strlit("negative-duplicate-extension");
    reveal_strlit("negative-unordered-extensions");
    reveal_strlit("negative-commit-id-mismatch");
    reveal_strlit("negative-authority-phase-mismatch");
    reveal_strlit("negative-authority-context-mismatch");
    reveal_strlit("negative-state-context-mismatch");
    reveal_strlit("negative-inconsistent-state");
    reveal_strlit("negative-inconsistent-execution");
    reveal_strlit("required protected-context identifier is empty");
    reveal_strlit("protected subject has no device identifier");
    reveal_strlit("receipt key identifier is present but empty");
    reveal_strlit("persistent-state payload is domain-substituted as a receipt");
    reveal_strlit("persistent record names a slot outside the two-slot model");
    reveal_strlit("prepared authority omits its candidate record");
    reveal_strlit("clean authority retains an untracked second record");
    reveal_strlit("prepared candidate aliases the selected previous slot");
    reveal_strlit("committed selector does not select the declared next record");
    reveal_strlit("two retained extensions share one semantic identifier");
    reveal_strlit("extension set is supplied in non-increasing identifier order");
    reveal_strlit("authority phase commit does not bind the candidate record");
    reveal_strlit("valid receipt is presented under clean rather than committed authority");
    reveal_strlit("valid receipt and committed authority name different subjects");
    reveal_strlit("complete release disagrees with authoritative measurement epoch");
    reveal_strlit("protected subject generation contradicts persistent state");
    reveal_strlit("prepared execution carries a zero receipt sequence");
    let p = positive_identifiers();
    let q = positive_purposes();
    let n = negative_identifiers();
    let m = negative_purposes();
    assert forall|k: int| 0 <= k < 17 implies p[k].len() > 0 && q[k].len() > 0 && n[k].len() > 0
        && m[k].len() > 0 && n[k][0] == 'n' && p[k][0] != 'n' by {
        if k == 0 {
        } else         if k == 1 {
        } else         if k == 2 {
        } else         if k == 3 {
        } else         if k == 4 {
        } else         if k == 5 {
        } else         if k == 6 {
        } else         if k == 7 {
        } else         if k == 8 {
        } else         if k == 9 {
        } else         if k == 10 {
        } else         if k == 11 {
        } else         if k == 12 {
        } else         if k == 13 {
        } else         if k == 14 {
        } else         if k == 15 {
        } else         if k == 16 {
        }
    }
    assert forall|i: int, j: int| 0 <= i < 17 && 0 <= j < 17 implies p[i] != n[j] by {
        assert(p[i][0] != n[j][0]);
    }
}

/// Whether `identifier` names one of the first `end` fixtures.
fn positive_identifier_used(fixtures: &Vec<Fixture>, end: usize, identifier: &str) -> (used: bool)
    requires
        end <= fixtures@.len(),
    ensures
        used == exists|j: int| 0 <= j < end && (#[trigger] fixtures@[j]).identifier@ == identifier@,
{
    let mut j: usize = 0;
    while j < end
        invariant
            end <= fixtures@.len(),
            j <= end,
            forall|i: int| 0 <= i < j ==> (#[trigger] fixtures@[i]).identifier@ != identifier@,
        decreases end - j,
    {
        if text_equal(fixtures[j].identifier, identifier) {
            return true;
        }
        j = j + 1;
    }
    false
}

/// Whether `identifier` names one of the first `end` negative fixtures.
fn negative_identifier_used(fixtures: &Vec<NegativeFixture>, end: usize, identifier: &str) -> (used:
    bool)
    requires
        end <= fixtures@.len(),
    ensures
        used == exists|j: int| 0 <= j < end && (#[trigger] fixtures@[j]).identifier@ == identifier@,
{
    let mut j: usize = 0;
    while j < end
        invariant
            end <= fixtures@.len(),
            j <= end,
            forall|i: int| 0 <= i < j ==> (#[trigger] fixtures@[i]).identifier@ != identifier@,
        decreases end - j,
    {
        if text_equal(fixtures[j].identifier, identifier) {
            return true;
        }
        j = j + 1;
    }
    false
}

/// The expected errors of `negatives` name every validation error class
/// exactly once.
pub open spec fn covers_each_class_once(negatives: Seq<NegativeFixture>) -> bool {
    &&& negatives.len() == 17
    &&& forall|i: int, j: int|
        0 <= i < j < 17 ==> negatives[i].expected_error != negatives[j].expected_error
}

fn error_coverage_matches(negatives: &Vec<NegativeFixture>) -> (covered: bool)
    ensures
        covered == covers_each_class_once(negatives@),
{
    if negatives.len() != 17 {
        return false;
    }
    let mut seen: Vec<bool> = vec![false; 17];
    let mut i: usize = 0;
    while i < 17
        invariant
            negatives@.len() == 17,
            seen@.len() == 17,
            i <= 17,
            forall|c: int|
                0 <= c < 17 ==> (#[trigger] seen@[c] <==> exists|j: int|
                    0 <= j < i && negatives@[j].expected_error == validation_error_classes()[c]),
            forall|a: int, b: int|
                0 <= a < b < i ==> negatives@[a].expected_error != negatives@[b].expected_error,
        decreases 17 - i,
    {
        let index = validation_error_index(&negatives[i].expected_error);
        if seen[index] {
            return false;
        }
        seen.set(index, true);
        proof {
            crate::negative_laws::lemma_validation_error_classes_distinct();
            assert forall|c: int| 0 <= c < 17 implies (#[trigger] seen@[c] <==> exists|j: int|
                0 <= j < i + 1 && negatives@[j].expected_error
                    == validation_error_classes()[c]) by {
                if c != index {
                    if exists|j: int|
                        0 <= j < i + 1 && negatives@[j].expected_error
                            == validation_error_classes()[c] {
                        let j = choose|j: int|
                            0 <= j < i + 1 && negatives@[j].expected_error
                                == validation_error_classes()[c];
                        assert(j != i);
                    }
                }
            }
        }
        i = i + 1;
    }
    true
}

/// Validate the frozen positive manifest, negative corpus, and exact error
/// coverage without selecting or emitting protocol bytes. The frozen corpora
/// are conformant, so this always reports their three counts.
pub fn validate_corpus_conformance() -> (res: Result<
    CorpusConformanceSummary,
    CorpusConformanceError,
>)
    ensures
        res == Ok::<CorpusConformanceSummary, CorpusConformanceError>(
            CorpusConformanceSummary {
                positive_fixtures: 17,
                negative_fixtures: 17,
                validation_error_classes: 17,
            },
        ),
{
    let positives = positive_fixtures();
    proof {
        positive_corpus_is_valid(positives@);
        lemma_positive_identifiers_distinct();
        lemma_corpus_metadata();
    }
    let manifest = positive_manifest();
    if positives.len() != 17 {
        return Err(CorpusConformanceError::PositiveManifestMismatch);
    }
    let mut k: usize = 0;
    while k < 17
        invariant
            positives@.len() == 17,
            forall|j: int| 0 <= j < 17 ==> (#[trigger] manifest@[j])@ == positive_identifiers()[j],
            forall|j: int| 0 <= j < 17 ==> (#[trigger] positives@[j]).identifier@ == positive_identifiers()[j],
            k <= 17,
        decreases 17 - k,
    {
        if !text_equal(positives[k].identifier, manifest[k]) {
            assert(manifest@[k as int]@ == positive_identifiers()[k as int]);
            assert(positives@[k as int].identifier@ == positive_identifiers()[k as int]);
            return Err(CorpusConformanceError::PositiveManifestMismatch);
        }
        k = k + 1;
    }
    let mut index: usize = 0;
    while index < 17
        invariant
            positives@.len() == 17,
            positive_corpus(positives@),
            forall|j: int| 0 <= j < 17 ==> (#[trigger] positives@[j]).identifier@ == positive_identifiers()[j],
            forall|j: int| 0 <= j < 17 ==> (#[trigger] positives@[j]).object.spec_validate() == Ok::<(), ValidationError>(()),
            forall|a: int, b: int| 0 <= a < b < 17 ==> positive_identifiers()[a] != positive_identifiers()[b],
            forall|j: int| 0 <= j < 17 ==> (#[trigger] positive_identifiers()[j]).len() > 0,
            forall|j: int| 0 <= j < 17 ==> (#[trigger] positive_purposes()[j]).len() > 0,
            index <= 17,
        decreases 17 - index,
    {
        let fixture = &positives[index];
        proof {
            crate::positive_corpus::lemma_positive_corpus_at(positives@, index as int);
        }
        match validate_metadata(fixture.identifier, fixture.purpose) {
            Ok(()) => {},
            Err(error) => return Err(error),
        }
        if positive_identifier_used(&positives, index, fixture.identifier) {
            return Err(CorpusConformanceError::DuplicateFixtureIdentifier(fixture.identifier));
        }
        match fixture.object.validate() {
            Ok(()) => {},
            Err(error) => return Err(
                CorpusConformanceError::InvalidPositiveFixture { identifier: fixture.identifier, error },
            ),
        }
        index = index + 1;
    }
    let negatives = match negative_fixtures() {
        Ok(negatives) => negatives,
        Err(error) => return Err(CorpusConformanceError::InvalidNegativeCorpus(error)),
    };
    proof {
        negative_corpus_fails_as_pinned(negatives@);
        lemma_negative_identifiers_distinct();
    }
    match validate_negative_manifest(negatives.as_slice()) {
        Ok(()) => {},
        Err(error) => return Err(error),
    }
    let mut index: usize = 0;
    while index < 17
        invariant
            negatives@.len() == 17,
            positives@.len() == 17,
            negative_corpus(negatives@),
            forall|j: int| 0 <= j < 17 ==> (#[trigger] positives@[j]).identifier@ == positive_identifiers()[j],
            forall|j: int| 0 <= j < 17 ==> (#[trigger] negatives@[j]).identifier@ == negative_identifiers()[j],
            forall|j: int| 0 <= j < 17 ==> (#[trigger] negatives@[j]).case.spec_evaluate() == Err::<(), ValidationError>(negatives@[j].expected_error),
            forall|j: int| 0 <= j < 17 ==> (#[trigger] negatives@[j]).case.spec_operands() == Ok::<(), ValidationError>(()),
            forall|a: int, b: int| 0 <= a < b < 17 ==> negative_identifiers()[a] != negative_identifiers()[b],
            forall|a: int, b: int| 0 <= a < 17 && 0 <= b < 17 ==> positive_identifiers()[a] != negative_identifiers()[b],
            forall|j: int| 0 <= j < 17 ==> (#[trigger] negative_identifiers()[j]).len() > 0,
            forall|j: int| 0 <= j < 17 ==> (#[trigger] negative_purposes()[j]).len() > 0,
            index <= 17,
        decreases 17 - index,
    {
        let fixture = &negatives[index];
        proof {
            crate::negative_laws::lemma_negative_corpus_at(negatives@, index as int);
        }
        match validate_metadata(fixture.identifier, fixture.purpose) {
            Ok(()) => {},
            Err(error) => return Err(error),
        }
        if positive_identifier_used(&positives, 17, fixture.identifier) {
            return Err(CorpusConformanceError::DuplicateFixtureIdentifier(fixture.identifier));
        }
        if negative_identifier_used(&negatives, index, fixture.identifier) {
            return Err(CorpusConformanceError::DuplicateFixtureIdentifier(fixture.identifier));
        }
        match validate_negative_operands(fixture) {
            Ok(()) => {},
            Err(error) => return Err(error),
        }
        match fixture.validate_expected() {
            Ok(()) => {},
            Err(failure) => return Err(CorpusConformanceError::InvalidNegativeFixture(failure)),
        }
        index = index + 1;
    }
    if !error_coverage_matches(&negatives) {
        return Err(CorpusConformanceError::NegativeErrorCoverageMismatch);
    }
    Ok(
        CorpusConformanceSummary {
            positive_fixtures: positives.len(),
            negative_fixtures: negatives.len(),
            validation_error_classes: 17,
        },
    )
}

} // verus!
