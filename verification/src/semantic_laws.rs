//! What semantic validation guarantees beyond the individual checks: a valid
//! extension list denotes a set in strictly increasing identifier order, and
//! a released receipt is bound to a valid committed authority and a valid
//! operational snapshot that agree with it.
use vstd::prelude::*;
use crate::semantic::{
    AuthorityMetadataProjection, AuthorityPhaseProjection, ExecutionReceiptProjection, Extension,
    LifecycleState, ObjectClass, PersistentStateProjection, ProtectedContext, ProvisioningOrigin,
    ReceiptLineageContext, ValidationError, chars_before, extension_order_from,
    shared_context_matches,
};

verus! {

/// No text sorts before itself.
pub proof fn lemma_chars_before_irreflexive(a: Seq<char>)
    ensures
        !chars_before(a, a),
    decreases a.len(),
{
    if a.len() > 0 {
        lemma_chars_before_irreflexive(a.drop_first());
    }
}

/// Of two different texts, exactly one sorts before the other.
pub proof fn lemma_chars_before_total(a: Seq<char>, b: Seq<char>)
    ensures
        a != b ==> chars_before(a, b) || chars_before(b, a),
        !(chars_before(a, b) && chars_before(b, a)),
    decreases a.len(),
{
    if a.len() > 0 && b.len() > 0 && a[0] == b[0] {
        lemma_chars_before_total(a.drop_first(), b.drop_first());
        if a.drop_first() == b.drop_first() {
            assert(a.len() == b.len());
            assert forall|i: int| 0 <= i < a.len() implies a[i] == b[i] by {
                if i > 0 {
                    assert(a[i] == a.drop_first()[i - 1]);
                    assert(b[i] == b.drop_first()[i - 1]);
                }
            }
            assert(a =~= b);
        }
    } else if a.len() == 0 && b.len() == 0 {
        assert(a =~= b);
    }
}

/// The text order is transitive.
pub proof fn lemma_chars_before_transitive(a: Seq<char>, b: Seq<char>, c: Seq<char>)
    requires
        chars_before(a, b),
        chars_before(b, c),
    ensures
        chars_before(a, c),
    decreases a.len(),
{
    if a.len() > 0 && b.len() > 0 && c.len() > 0 && a[0] == b[0] && b[0] == c[0] {
        lemma_chars_before_transitive(a.drop_first(), b.drop_first(), c.drop_first());
    }
}

/// Every adjacent pair from `k` onward is strictly increasing when the
/// ordering check from `k` passes.
proof fn lemma_adjacent_increasing(e: Seq<Extension>, k: int)
    requires
        0 <= k,
        extension_order_from(e, k) == Ok::<(), ValidationError>(()),
    ensures
        forall|i: int|
            k <= i < e.len() - 1 ==> chars_before(
                #[trigger] e[i].identifier@,
                e[i + 1].identifier@,
            ),
    decreases e.len() - k,
{
    if k + 1 < e.len() {
        lemma_adjacent_increasing(e, k + 1);
        lemma_chars_before_total(e[k].identifier@, e[k + 1].identifier@);
    }
}

/// Strict increase of adjacent pairs extends to every pair.
proof fn lemma_chain_increasing(e: Seq<Extension>, i: int, j: int)
    requires
        0 <= i < j < e.len(),
        forall|k: int|
            0 <= k < e.len() - 1 ==> chars_before(#[trigger] e[k].identifier@, e[k + 1].identifier@),
    ensures
        chars_before(e[i].identifier@, e[j].identifier@),
    decreases j - i,
{
    if j > i + 1 {
        lemma_chain_increasing(e, i, j - 1);
        assert(chars_before(e[j - 1].identifier@, e[j].identifier@));
        lemma_chars_before_transitive(e[i].identifier@, e[j - 1].identifier@, e[j].identifier@);
    }
}

/// The extensions of a valid protected context form a set: every identifier
/// sorts strictly before every later one, so no identifier occurs twice
/// anywhere in the list, not only among neighbours.
pub proof fn valid_extensions_are_strictly_ordered(c: ProtectedContext)
    requires
        c.spec_validate() == Ok::<(), ValidationError>(()),
    ensures
        forall|i: int, j: int|
            0 <= i < j < c.extensions@.len() ==> chars_before(
                c.extensions@[i].identifier@,
                c.extensions@[j].identifier@,
            ),
        forall|i: int, j: int|
            0 <= i < j < c.extensions@.len() ==> c.extensions@[i].identifier@
                != c.extensions@[j].identifier@,
{
    let e = c.extensions@;
    lemma_adjacent_increasing(e, 0);
    assert forall|i: int, j: int| 0 <= i < j < e.len() implies chars_before(
        e[i].identifier@,
        e[j].identifier@,
    ) by {
        lemma_chain_increasing(e, i, j);
    }
    assert forall|i: int, j: int| 0 <= i < j < e.len() implies e[i].identifier@
        != e[j].identifier@ by {
        lemma_chain_increasing(e, i, j);
        lemma_chars_before_irreflexive(e[i].identifier@);
    }
}

/// A receipt is released only under a valid committed authority and a valid
/// operational persistent snapshot: the receipt, authority and state each
/// validate on their own, all three name the same subject and protected
/// context, the authority selects the state's slot, and the authority phase,
/// the selected record and the snapshot all carry the receipt's commit.
pub proof fn release_binds_committed_authority_and_operational_state(
    receipt: ExecutionReceiptProjection,
    authority: AuthorityMetadataProjection,
    state: PersistentStateProjection,
)
    requires
        receipt.spec_validate_release(authority, state) == Ok::<(), ValidationError>(()),
    ensures
        receipt.spec_validate() == Ok::<(), ValidationError>(()),
        authority.spec_validate() == Ok::<(), ValidationError>(()),
        state.spec_validate() == Ok::<(), ValidationError>(()),
        state.lifecycle_state == LifecycleState::Operational,
        receipt.lifecycle_state == LifecycleState::Operational,
        shared_context_matches(authority.context, receipt.context),
        shared_context_matches(state.context, receipt.context),
        authority.phase matches AuthorityPhaseProjection::Committed {
            selected_next_slot,
            commit_id,
            ..
        } && selected_next_slot == state.slot_id && commit_id == receipt.authority_commit_id
            && authority.id_at(selected_next_slot) == Some(receipt.authority_commit_id),
        state.commit_id == receipt.authority_commit_id,
{
}

/// A receipt passes the authoritative-state check only when both objects are
/// individually valid and every receipt claim equals the corresponding field
/// of the snapshot: commit, lifecycle, device generation, transition
/// counter, measurement epoch, active version and, when the receipt carries
/// one, receipt sequence; and both name the same profile, schema, suite,
/// subject and extensions.
pub proof fn authoritative_state_binds_every_claim(
    receipt: ExecutionReceiptProjection,
    state: PersistentStateProjection,
)
    requires
        receipt.spec_validate_authoritative_state(state) == Ok::<(), ValidationError>(()),
    ensures
        receipt.spec_validate() == Ok::<(), ValidationError>(()),
        state.spec_validate() == Ok::<(), ValidationError>(()),
        state.commit_id == receipt.authority_commit_id,
        state.lifecycle_state == receipt.lifecycle_state,
        state.device_generation == receipt.device_generation,
        state.transition_counter == receipt.transition_counter,
        state.measurement_epoch == receipt.measurement_epoch,
        state.active_version == receipt.active_version,
        receipt.receipt_sequence matches Some(q) ==> q == state.receipt_sequence,
        state.context.profile_identifier@ == receipt.context.profile_identifier@,
        state.context.schema_version == receipt.context.schema_version,
        state.context.integrity_suite_identifier@ == receipt.context.integrity_suite_identifier@,
        state.context.subject.device_identifier@ == receipt.context.subject.device_identifier@,
        state.context.subject.device_generation == receipt.context.subject.device_generation,
        state.context.subject.key_generation == receipt.context.subject.key_generation,
        state.context.extensions@.len() == receipt.context.extensions@.len(),
        forall|i: int|
            0 <= i < state.context.extensions@.len() ==> (#[trigger] state.context.extensions@[i]).identifier@
                == receipt.context.extensions@[i].identifier@
                && state.context.extensions@[i].critical == receipt.context.extensions@[i].critical,
{
    assert forall|i: int| 0 <= i < state.context.extensions@.len() implies (
    #[trigger] state.context.extensions@[i]).identifier@ == receipt.context.extensions@[i].identifier@
        && state.context.extensions@[i].critical == receipt.context.extensions@[i].critical by {
        assert(crate::semantic::extensions_match(
            state.context.extensions@[i],
            receipt.context.extensions@[i],
        ));
    }
}

/// A released receipt agrees with its authoritative snapshot claim by claim:
/// commit, lifecycle, device generation, transition counter, measurement
/// epoch, active version and, when present, receipt sequence.
pub proof fn release_binds_every_claim(
    receipt: ExecutionReceiptProjection,
    authority: AuthorityMetadataProjection,
    state: PersistentStateProjection,
)
    requires
        receipt.spec_validate_release(authority, state) == Ok::<(), ValidationError>(()),
    ensures
        state.commit_id == receipt.authority_commit_id,
        state.lifecycle_state == receipt.lifecycle_state,
        state.device_generation == receipt.device_generation,
        state.transition_counter == receipt.transition_counter,
        state.measurement_epoch == receipt.measurement_epoch,
        state.active_version == receipt.active_version,
        receipt.receipt_sequence matches Some(q) ==> q == state.receipt_sequence,
        authority.record_commit_ids@[state.slot_id as int] == Some(receipt.authority_commit_id),
{
    authoritative_state_binds_every_claim(receipt, state);
}

/// Authority records bind the phase: a clean authority holds exactly the
/// selected record; a prepared authority holds the selected previous record
/// and a distinct candidate record whose commit identifier is the phase's,
/// the checked successor of the previous one; a committed authority selects
/// its next record, which carries the phase's commit identifier, the checked
/// successor of the distinct previous record's.
pub proof fn valid_authority_binds_records(authority: AuthorityMetadataProjection)
    requires
        authority.spec_validate() == Ok::<(), ValidationError>(()),
    ensures
        authority.raw_selected_slot <= 1,
        authority.context.object_class == ObjectClass::AuthorityMetadata,
        authority.phase is Clean ==> authority.record_commit_ids@[authority.raw_selected_slot as int]
            is Some && authority.record_commit_ids@[1 - authority.raw_selected_slot] is None,
        authority.phase matches AuthorityPhaseProjection::Prepared { candidate_slot, commit_id, .. }
            ==> candidate_slot <= 1 && candidate_slot != authority.raw_selected_slot
            && authority.record_commit_ids@[authority.raw_selected_slot as int] is Some
            && authority.record_commit_ids@[authority.raw_selected_slot as int]->0 < u64::MAX
            && authority.record_commit_ids@[authority.raw_selected_slot as int]->0 + 1 == commit_id
            && authority.record_commit_ids@[candidate_slot as int] == Some(commit_id),
        authority.phase matches AuthorityPhaseProjection::Committed {
            previous_slot,
            selected_next_slot,
            commit_id,
        } ==> previous_slot <= 1 && selected_next_slot == authority.raw_selected_slot
            && previous_slot != selected_next_slot
            && authority.record_commit_ids@[previous_slot as int] is Some
            && authority.record_commit_ids@[previous_slot as int]->0 < u64::MAX
            && authority.record_commit_ids@[previous_slot as int]->0 + 1 == commit_id
            && authority.record_commit_ids@[selected_next_slot as int] == Some(commit_id),
{
}

/// The lifecycle fields of a valid persistent snapshot agree: the subject
/// names the snapshot's generation; staged provisioning exists exactly while
/// provisioning, names the next generation, and is initial only for a
/// never-provisioned device and a recommission only otherwise; a staged
/// update exists exactly while pending and is newer than the active version;
/// the identity is active exactly in the operational, update-pending and
/// recovery states; the slot is one of the two.
pub proof fn valid_persistent_state_is_consistent(state: PersistentStateProjection)
    requires
        state.spec_validate() == Ok::<(), ValidationError>(()),
    ensures
        state.context.object_class == ObjectClass::PersistentState,
        state.slot_id <= 1,
        state.context.subject.device_generation == state.device_generation,
        (state.lifecycle_state == LifecycleState::Provisioning) == state.provisioning_generation is Some,
        (state.lifecycle_state == LifecycleState::Provisioning) == state.provisioning_origin is Some,
        state.provisioning_generation matches Some(g) ==> state.device_generation < u64::MAX && g
            == state.device_generation + 1,
        state.provisioning_origin == Some(ProvisioningOrigin::Initial) ==> state.device_generation
            == 0,
        state.provisioning_origin == Some(ProvisioningOrigin::Recommission)
            ==> state.device_generation != 0,
        (state.lifecycle_state == LifecycleState::UpdatePending) == state.pending_version is Some,
        state.pending_version matches Some(v) ==> v > state.active_version,
        state.identity_active == (state.lifecycle_state == LifecycleState::Operational
            || state.lifecycle_state == LifecycleState::UpdatePending || state.lifecycle_state
            == LifecycleState::Recovery),
{
}

/// A valid receipt's lineage agrees with its subject, and the two lineage
/// modes exclude each other: a key-generation lineage names the subject's
/// key generation, and a provisioning-generation lineage names the receipt's
/// device generation for a subject that carries no key generation. The
/// subject names the receipt's generation and every required value is
/// present.
pub proof fn valid_receipt_lineage_matches_subject(receipt: ExecutionReceiptProjection)
    requires
        receipt.spec_validate() == Ok::<(), ValidationError>(()),
    ensures
        receipt.context.object_class == ObjectClass::ExecutionReceipt,
        receipt.context.subject.device_generation == receipt.device_generation,
        receipt.lineage matches ReceiptLineageContext::KeyGeneration(g)
            ==> receipt.context.subject.key_generation == Some(g),
        receipt.lineage matches ReceiptLineageContext::ProvisioningGeneration(g)
            ==> receipt.context.subject.key_generation is None && g == receipt.device_generation,
        receipt.key_identifier@.len() > 0,
        receipt.measurement_root@.len() > 0,
        receipt.measurement_context@.len() > 0,
        receipt.policy_identifier@.len() > 0,
        receipt.input_commitment matches Some(c) ==> c@.len() > 0,
        receipt.output_commitment matches Some(c) ==> c@.len() > 0,
{
}

} // verus!
