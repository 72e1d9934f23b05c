//! What the frozen negative corpus guarantees: every fixture fails with its
//! pinned error class, every class is pinned exactly once, and every
//! cross-object operand is individually valid.
use vstd::prelude::*;
use crate::negative_corpus::{
    NegativeCase, NegativeFixture, negative_case_at, negative_corpus, negative_fixture_at,
    negative_identifiers, validation_error_classes,
};
use crate::positive_corpus::{
    lemma_fixture_context_valid, lemma_fixture_contexts_match, lemma_positive_object_valid,
};
use crate::semantic::{SemanticObject, ValidationError, chars_before, extension_order_from};

verus! {

/// Evaluation of negative case `k` fails with error class `k`, and its
/// operands are individually valid.
pub open spec fn case_fails_as_pinned(k: int, case: NegativeCase) -> bool {
    &&& case.spec_evaluate() == Err::<(), ValidationError>(validation_error_classes()[k])
    &&& case.spec_operands() == Ok::<(), ValidationError>(())
}

proof fn lemma_empty_identifier(case: NegativeCase)
    requires
        negative_case_at(0, case),
    ensures
        case_fails_as_pinned(0, case),
{
    reveal(negative_case_at);
}

proof fn lemma_empty_subject(case: NegativeCase)
    requires
        negative_case_at(1, case),
    ensures
        case_fails_as_pinned(1, case),
{
    reveal(negative_case_at);
    reveal_strlit("baochip.fixture.profile");
    reveal_strlit("baochip.fixture.unselected-suite");
}

proof fn lemma_empty_required_value(case: NegativeCase)
    requires
        negative_case_at(2, case),
    ensures
        case_fails_as_pinned(2, case),
{
    reveal(negative_case_at);
    if let NegativeCase::Object(SemanticObject::ExecutionReceipt(r)) = case {
        lemma_fixture_context_valid(r.context);
    }
}

proof fn lemma_wrong_object_class(case: NegativeCase)
    requires
        negative_case_at(3, case),
    ensures
        case_fails_as_pinned(3, case),
{
    reveal(negative_case_at);
    if let NegativeCase::Object(SemanticObject::PersistentState(s)) = case {
        lemma_fixture_context_valid(s.context);
    }
}

proof fn lemma_invalid_slot(case: NegativeCase)
    requires
        negative_case_at(4, case),
    ensures
        case_fails_as_pinned(4, case),
{
    reveal(negative_case_at);
    if let NegativeCase::Object(SemanticObject::PersistentState(s)) = case {
        lemma_fixture_context_valid(s.context);
    }
}

proof fn lemma_missing_record(case: NegativeCase)
    requires
        negative_case_at(5, case),
    ensures
        case_fails_as_pinned(5, case),
{
    reveal(negative_case_at);
    if let NegativeCase::Object(SemanticObject::AuthorityMetadata(a)) = case {
        lemma_fixture_context_valid(a.context);
    }
}

proof fn lemma_unexpected_record(case: NegativeCase)
    requires
        negative_case_at(6, case),
    ensures
        case_fails_as_pinned(6, case),
{
    reveal(negative_case_at);
    if let NegativeCase::Object(SemanticObject::AuthorityMetadata(a)) = case {
        lemma_fixture_context_valid(a.context);
    }
}

proof fn lemma_slot_conflict(case: NegativeCase)
    requires
        negative_case_at(7, case),
    ensures
        case_fails_as_pinned(7, case),
{
    reveal(negative_case_at);
    if let NegativeCase::Object(SemanticObject::AuthorityMetadata(a)) = case {
        lemma_fixture_context_valid(a.context);
    }
}

proof fn lemma_selector_mismatch(case: NegativeCase)
    requires
        negative_case_at(8, case),
    ensures
        case_fails_as_pinned(8, case),
{
    reveal(negative_case_at);
    if let NegativeCase::Object(SemanticObject::AuthorityMetadata(a)) = case {
        lemma_fixture_context_valid(a.context);
    }
}

proof fn lemma_duplicate_extension(case: NegativeCase)
    requires
        negative_case_at(9, case),
    ensures
        case_fails_as_pinned(9, case),
{
    reveal(negative_case_at);
    reveal_strlit("baochip.fixture.profile");
    reveal_strlit("baochip.fixture.unselected-suite");
    reveal_strlit("example.bytes");
    reveal_strlit("example.flag");
    reveal_strlit("example.text");
    reveal_strlit("example.unsigned");
    if let NegativeCase::Object(SemanticObject::PersistentState(s)) = case {
        let e = s.context.extensions@;
        assert(e.len() == 4);
        assert forall|i: int| 0 <= i < e.len() implies (#[trigger] e[i]).identifier@.len() > 0 by {
            if i == 0 {
            } else if i == 1 {
            } else if i == 2 {
            } else {
            }
        }
        assert(extension_order_from(e, 0) == Err::<(), ValidationError>(
            ValidationError::DuplicateExtension,
        ));
    }
}

proof fn lemma_unordered_extensions(case: NegativeCase)
    requires
        negative_case_at(10, case),
    ensures
        case_fails_as_pinned(10, case),
{
    reveal(negative_case_at);
    reveal_strlit("baochip.fixture.profile");
    reveal_strlit("baochip.fixture.unselected-suite");
    reveal_strlit("example.bytes");
    reveal_strlit("example.flag");
    reveal_strlit("example.text");
    reveal_strlit("example.unsigned");
    if let NegativeCase::Object(SemanticObject::PersistentState(s)) = case {
        let e = s.context.extensions@;
        assert(e.len() == 4);
        assert(e[0].identifier@ == "example.unsigned"@);
        assert(e[1].identifier@ == "example.text"@);
        assert(e[2].identifier@ == "example.flag"@);
        assert(e[3].identifier@ == "example.bytes"@);
        assert forall|i: int| 0 <= i < e.len() implies (#[trigger] e[i]).identifier@.len() > 0 by {
            if i == 0 {
            } else if i == 1 {
            } else if i == 2 {
            } else {
            }
        }
        assert("example.unsigned"@ != "example.text"@) by {
            assert("example.unsigned"@[8] != "example.text"@[8]);
        }
        assert(chars_before("example.text"@, "example.unsigned"@)) by {
            reveal_with_fuel(chars_before, 10);
        }
        assert(extension_order_from(e, 0) == Err::<(), ValidationError>(
            ValidationError::UnorderedExtensions,
        ));
    }
}

proof fn lemma_commit_id_mismatch(case: NegativeCase)
    requires
        negative_case_at(11, case),
    ensures
        case_fails_as_pinned(11, case),
{
    reveal(negative_case_at);
    if let NegativeCase::Object(SemanticObject::AuthorityMetadata(a)) = case {
        lemma_fixture_context_valid(a.context);
    }
}

proof fn lemma_authority_phase_mismatch(case: NegativeCase)
    requires
        negative_case_at(12, case),
    ensures
        case_fails_as_pinned(12, case),
{
    reveal(negative_case_at);
    if let NegativeCase::ReceiptAuthority { receipt, authority } = case {
        lemma_positive_object_valid(15, SemanticObject::ExecutionReceipt(receipt));
        lemma_positive_object_valid(11, SemanticObject::AuthorityMetadata(authority));
    }
}

proof fn lemma_authority_context_mismatch(case: NegativeCase)
    requires
        negative_case_at(13, case),
    ensures
        case_fails_as_pinned(13, case),
{
    reveal(negative_case_at);
    if let NegativeCase::ReceiptAuthority { receipt, authority } = case {
        lemma_positive_object_valid(15, SemanticObject::ExecutionReceipt(receipt));
        lemma_fixture_context_valid(authority.context);
        assert(authority.context.subject.device_identifier@.len() == 3);
        assert(receipt.context.subject.device_identifier@.len() == 2);
    }
}

proof fn lemma_state_context_mismatch(case: NegativeCase)
    requires
        negative_case_at(14, case),
    ensures
        case_fails_as_pinned(14, case),
{
    reveal(negative_case_at);
    if let NegativeCase::ReceiptRelease { receipt, authority, state } = case {
        lemma_positive_object_valid(15, SemanticObject::ExecutionReceipt(*receipt));
        lemma_positive_object_valid(14, SemanticObject::AuthorityMetadata(authority));
        lemma_fixture_context_valid(state.context);
        lemma_fixture_contexts_match(
            authority.context,
            receipt.context,
            crate::semantic::ObjectClass::AuthorityMetadata,
            crate::semantic::ObjectClass::ExecutionReceipt,
            1,
            None,
        );
        lemma_fixture_contexts_match(
            state.context,
            receipt.context,
            crate::semantic::ObjectClass::PersistentState,
            crate::semantic::ObjectClass::ExecutionReceipt,
            1,
            None,
        );
    }
}

proof fn lemma_inconsistent_state(case: NegativeCase)
    requires
        negative_case_at(15, case),
    ensures
        case_fails_as_pinned(15, case),
{
    reveal(negative_case_at);
    if let NegativeCase::Object(SemanticObject::PersistentState(s)) = case {
        lemma_fixture_context_valid(s.context);
    }
}

proof fn lemma_inconsistent_execution(case: NegativeCase)
    requires
        negative_case_at(16, case),
    ensures
        case_fails_as_pinned(16, case),
{
    reveal(negative_case_at);
    if let NegativeCase::Object(SemanticObject::AuthorityMetadata(a)) = case {
        lemma_fixture_context_valid(a.context);
    }
}

proof fn lemma_case_fails_as_pinned(k: int, case: NegativeCase)
    requires
        0 <= k < 17,
        negative_case_at(k, case),
    ensures
        case_fails_as_pinned(k, case),
{
    if k == 0 {
        lemma_empty_identifier(case);
    } else     if k == 1 {
        lemma_empty_subject(case);
    } else     if k == 2 {
        lemma_empty_required_value(case);
    } else     if k == 3 {
        lemma_wrong_object_class(case);
    } else     if k == 4 {
        lemma_invalid_slot(case);
    } else     if k == 5 {
        lemma_missing_record(case);
    } else     if k == 6 {
        lemma_unexpected_record(case);
    } else     if k == 7 {
        lemma_slot_conflict(case);
    } else     if k == 8 {
        lemma_selector_mismatch(case);
    } else     if k == 9 {
        lemma_duplicate_extension(case);
    } else     if k == 10 {
        lemma_unordered_extensions(case);
    } else     if k == 11 {
        lemma_commit_id_mismatch(case);
    } else     if k == 12 {
        lemma_authority_phase_mismatch(case);
    } else     if k == 13 {
        lemma_authority_context_mismatch(case);
    } else     if k == 14 {
        lemma_state_context_mismatch(case);
    } else     if k == 15 {
        lemma_inconsistent_state(case);
    } else     if k == 16 {
        lemma_inconsistent_execution(case);
    }
}

/// The negative corpus identifiers are pairwise distinct.
pub proof fn lemma_negative_identifiers_distinct()
    ensures
        negative_identifiers().len() == 17,
        forall|i: int, j: int|
            0 <= i < j < 17 ==> negative_identifiers()[i] != negative_identifiers()[j],
{
    reveal_strlit("negative-empty-identifier");
    reveal_strlit("negative-empty-subject");
    reveal_strlit("negative-empty-required-value");
    reveal_strlit("negative-wrong-object-class");
    reveal_strlit("negative-invalid-slot");
    reveal_strlit("negative-missing-record");
    reveal_strlit("negative-unexpected-record");
    reveal_strlit("negative-slot-conflict");
    reveal_strlit("negative-selector-mismatch");
    reveal_strlit("negative-duplicate-extension");
    reveal_strlit("negative-unordered-extensions");
    reveal_strlit("negative-commit-id-mismatch");
    reveal_strlit("negative-authority-phase-mismatch");
    reveal_strlit("negative-authority-context-mismatch");
    reveal_strlit("negative-state-context-mismatch");
    reveal_strlit("negative-inconsistent-state");
    reveal_strlit("negative-inconsistent-execution");
    let ids = negative_identifiers();
    assert(ids[1][9] != ids[7][9]);
    assert(ids[2][9] != ids[10][9]);
    assert(ids[3][9] != ids[11][9]);
    assert(ids[3][9] != ids[15][9]);
    assert(ids[6][9] != ids[8][9]);
    assert(ids[11][9] != ids[15][9]);
    assert(ids[14][9] != ids[16][9]);
    assert forall|i: int, j: int| 0 <= i < j < 17 implies ids[i] != ids[j] by {
        if ids[i].len() == ids[j].len() {
            assert((i == 1 && j == 7) || (i == 2 && j == 10) || (i == 3 && j == 11) || (i == 3 && j == 15) || (i == 6 && j == 8) || (i == 11 && j == 15) || (i == 14 && j == 16));
        }
    }
}

/// Fixture `k` of a corpus that `negative_corpus` describes.
pub proof fn lemma_negative_corpus_at(s: Seq<NegativeFixture>, k: int)
    requires
        negative_corpus(s),
        0 <= k < 17,
    ensures
        negative_fixture_at(k, s[k]),
{
}

proof fn lemma_negative_fixture_pinned(s: Seq<NegativeFixture>, k: int)
    requires
        negative_corpus(s),
        0 <= k < 17,
    ensures
        case_fails_as_pinned(k, s[k].case),
        s[k].expected_error == validation_error_classes()[k],
        s[k].identifier@ == negative_identifiers()[k],
{
    lemma_negative_corpus_at(s, k);
    lemma_case_fails_as_pinned(k, s[k].case);
}

pub proof fn lemma_validation_error_classes_distinct()
    ensures
        forall|i: int, j: int|
            0 <= i < j < 17 ==> validation_error_classes()[i] != validation_error_classes()[j],
{
    let errors = validation_error_classes();
    assert forall|i: int, j: int| 0 <= i < j < 17 implies errors[i] != errors[j] by {
        assert(errors[i] == errors[i]);
    }
}

/// Every fixture of the frozen negative corpus fails closed with exactly its
/// pinned error, and the corpus pins each validation error class exactly
/// once, in declaration order. Identifiers are unique, distinct fixtures
/// carry distinct cases, and the operands of every cross-object case are
/// individually valid, so each such fixture exercises the release relation
/// rather than a malformed operand.
pub proof fn negative_corpus_fails_as_pinned(s: Seq<NegativeFixture>)
    requires
        negative_corpus(s),
    ensures
        forall|k: int|
            0 <= k < 17 ==> (#[trigger] s[k]).case.spec_evaluate() == Err::<(), ValidationError>(
                s[k].expected_error,
            ),
        forall|k: int| 0 <= k < 17 ==> (#[trigger] s[k]).expected_error == validation_error_classes()[k],
        forall|k: int| 0 <= k < 17 ==> (#[trigger] s[k]).case.spec_operands() == Ok::<(), ValidationError>(()),
        forall|i: int, j: int| 0 <= i < j < 17 ==> s[i].identifier@ != s[j].identifier@,
        forall|i: int, j: int| 0 <= i < j < 17 ==> s[i].expected_error != s[j].expected_error,
        forall|i: int, j: int| 0 <= i < j < 17 ==> s[i].case != s[j].case,
{
    lemma_negative_identifiers_distinct();
    lemma_validation_error_classes_distinct();
    assert forall|k: int| 0 <= k < 17 implies case_fails_as_pinned(k, (#[trigger] s[k]).case)
        && s[k].expected_error == validation_error_classes()[k] && s[k].identifier@
        == negative_identifiers()[k] by {
        lemma_negative_fixture_pinned(s, k);
    }
    assert forall|i: int, j: int| 0 <= i < j < 17 implies s[i].case != s[j].case by {
        assert(s[i].case.spec_evaluate() != s[j].case.spec_evaluate());
    }
}

} // verus!
