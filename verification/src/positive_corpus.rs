//! The frozen positive semantic fixture corpus shared by candidate encoders.
//!
//! Fixture values such as profile and suite identifiers are evaluation-only
//! examples. They assign no production identifiers and select no suite.
use vstd::prelude::*;
use crate::semantic::{
    AuthorityMetadataProjection, AuthorityPhaseProjection, ExecutionProjection,
    ExecutionReceiptProjection, Extension, ExtensionValue, Fixture, LifecycleAuditProjection,
    LifecycleState, ObjectClass, PersistentStateProjection, PreparedOutcomeProjection,
    ProtectedContext, ProvisioningOrigin, ReceiptLineageContext, RejectionClass, SemanticObject,
    SubjectScope, ValidationError, chars_before, extension_order_from, extensions_match,
    shared_context_matches,
};

verus! {

/// The protected values every fixture context shares: profile, schema,
/// suite, and the four ordered example extensions.
pub open spec fn common_context(c: ProtectedContext) -> bool {
    &&& c.profile_identifier@ == "baochip.fixture.profile"@
    &&& c.schema_version == 1
    &&& c.integrity_suite_identifier@ == "baochip.fixture.unselected-suite"@
    &&& c.extensions@.len() == 4
    &&& c.extensions@[0].identifier@ == "example.bytes"@
    &&& !c.extensions@[0].critical
    &&& c.extensions@[0].value matches ExtensionValue::Bytes(b) && b@ == seq![0x00u8, 0xffu8]
    &&& c.extensions@[1].identifier@ == "example.flag"@
    &&& c.extensions@[1].critical
    &&& c.extensions@[1].value == ExtensionValue::Boolean(false)
    &&& c.extensions@[2].identifier@ == "example.text"@
    &&& !c.extensions@[2].critical
    &&& c.extensions@[2].value matches ExtensionValue::Text(t) && t@ == "fixture"@
    &&& c.extensions@[3].identifier@ == "example.unsigned"@
    &&& !c.extensions@[3].critical
    &&& c.extensions@[3].value == ExtensionValue::Unsigned(0)
}

/// `c` is the shared fixture context for `class`, subject generation
/// `generation` and key generation `key_generation`.
pub open spec fn fixture_context(
    c: ProtectedContext,
    class: ObjectClass,
    generation: u64,
    key_generation: Option<u64>,
) -> bool {
    &&& common_context(c)
    &&& c.object_class == class
    &&& c.subject.device_identifier@ == seq![0x42u8, 0x43u8]
    &&& c.subject.device_generation == generation
    &&& c.subject.key_generation == key_generation
}

/// A persistent-state object with exactly these values.
pub open spec fn persistent_values(
    o: SemanticObject,
    key_generation: Option<u64>,
    slot_id: u8,
    commit_id: u64,
    lifecycle_state: LifecycleState,
    device_generation: u64,
    transition_counter: u64,
    measurement_epoch: u64,
    receipt_sequence: u64,
    active_version: u64,
    pending_version: Option<u64>,
    provisioning_generation: Option<u64>,
    provisioning_origin: Option<ProvisioningOrigin>,
    identity_active: bool,
) -> bool {
    &&& o matches SemanticObject::PersistentState(s) && {
        &&& fixture_context(
            s.context,
            ObjectClass::PersistentState,
            device_generation,
            key_generation,
        )
        &&& s.slot_id == slot_id
        &&& s.commit_id == commit_id
        &&& s.lifecycle_state == lifecycle_state
        &&& s.device_generation == device_generation
        &&& s.transition_counter == transition_counter
        &&& s.measurement_epoch == measurement_epoch
        &&& s.receipt_sequence == receipt_sequence
        &&& s.active_version == active_version
        &&& s.pending_version == pending_version
        &&& s.provisioning_generation == provisioning_generation
        &&& s.provisioning_origin == provisioning_origin
        &&& s.identity_active == identity_active
    }
}

/// An authority-metadata object with exactly these values.
pub open spec fn authority_values(
    o: SemanticObject,
    key_generation: Option<u64>,
    raw_selected_slot: u8,
    record_commit_ids: Seq<Option<u64>>,
    phase: AuthorityPhaseProjection,
) -> bool {
    &&& o matches SemanticObject::AuthorityMetadata(a) && {
        &&& fixture_context(a.context, ObjectClass::AuthorityMetadata, 1, key_generation)
        &&& a.raw_selected_slot == raw_selected_slot
        &&& a.record_commit_ids@ == record_commit_ids
        &&& a.phase == phase
    }
}

pub open spec fn bytes_view(value: Option<Vec<u8>>) -> Option<Seq<u8>> {
    match value {
        Some(v) => Some(v@),
        None => None,
    }
}

/// An execution-receipt object with exactly these values; its lifecycle is
/// operational at device generation 1.
pub open spec fn receipt_values(
    o: SemanticObject,
    key_generation: Option<u64>,
    authority_commit_id: u64,
    lineage: ReceiptLineageContext,
    key_identifier: Seq<u8>,
    transition_counter: u64,
    measurement_epoch: u64,
    receipt_sequence: Option<u64>,
    active_version: u64,
    challenge: Option<Seq<u8>>,
    measurement_root: Seq<u8>,
    measurement_context: Seq<char>,
    policy_identifier: Seq<char>,
    policy_version: u64,
    input_commitment: Option<Seq<u8>>,
    output_commitment: Option<Seq<u8>>,
) -> bool {
    &&& o matches SemanticObject::ExecutionReceipt(r) && {
        &&& fixture_context(r.context, ObjectClass::ExecutionReceipt, 1, key_generation)
        &&& r.authority_commit_id == authority_commit_id
        &&& r.lineage == lineage
        &&& r.key_identifier@ == key_identifier
        &&& r.lifecycle_state == LifecycleState::Operational
        &&& r.device_generation == 1
        &&& r.transition_counter == transition_counter
        &&& r.measurement_epoch == measurement_epoch
        &&& r.receipt_sequence == receipt_sequence
        &&& r.active_version == active_version
        &&& bytes_view(r.challenge) == challenge
        &&& r.measurement_root@ == measurement_root
        &&& r.measurement_context@ == measurement_context
        &&& r.policy_identifier@ == policy_identifier
        &&& r.policy_version == policy_version
        &&& bytes_view(r.input_commitment) == input_commitment
        &&& bytes_view(r.output_commitment) == output_commitment
    }
}

/// The lifecycle audit embedded in the prepared fixtures.
pub open spec fn fixture_audit(resulting_state: LifecycleState) -> LifecycleAuditProjection {
    LifecycleAuditProjection {
        previous_state: LifecycleState::Operational,
        resulting_state,
        device_generation: 1,
        staged_device_generation: None,
        transition_counter: 2,
    }
}

/// Identifiers of the frozen positive corpus, in corpus order.
pub open spec fn positive_identifiers() -> Seq<Seq<char>> {
    seq![
        "persistent-blank-absent-key-generation"@,
        "persistent-blank-zero-key-generation"@,
        "persistent-operational-u64-boundaries"@,
        "persistent-provisioning-initial"@,
        "persistent-provisioning-recommission"@,
        "persistent-update-pending"@,
        "persistent-recovery"@,
        "persistent-operational-receipt-release"@,
        "persistent-revoked"@,
        "persistent-decommissioned"@,
        "persistent-fault"@,
        "authority-clean"@,
        "authority-prepared-applied"@,
        "authority-prepared-rejected"@,
        "authority-committed"@,
        "receipt-minimal-optionals-absent"@,
        "receipt-optionals-present"@,
    ]
}

/// The object of positive fixture `k`.
pub open spec fn positive_object_at(k: int, o: SemanticObject) -> bool {
    if k == 0 {
        persistent_values(o, None, 0, 0,
        LifecycleState::Blank, 0, 0, 0, 0, 0, None, None, None, false)
    } else if k == 1 {
        persistent_values(o, Some(0), 0,
        0, LifecycleState::Blank, 0, 0, 0, 0, 0, None, None, None, false)
    } else if k == 2 {
        persistent_values(o, Some(u64::MAX),
        1, u64::MAX, LifecycleState::Operational, u64::MAX, u64::MAX, u64::MAX, u64::MAX, u64::MAX,
        None, None, None, true)
    } else if k == 3 {
        persistent_values(o, None, 1, 1, LifecycleState::Provisioning, 0, 1, 0, 0, 0, None, Some(1), Some(
        ProvisioningOrigin::Initial), false)
    } else if k == 4 {
        persistent_values(o, Some(1),
        0, 2, LifecycleState::Provisioning, 1, 2, 0, 0, 1, None, Some(2), Some(
        ProvisioningOrigin::Recommission), false)
    } else if k == 5 {
        persistent_values(o, Some(1), 1, 3,
        LifecycleState::UpdatePending, 1, 3, 1, 2, 1, Some(2), None, None, true)
    } else if k == 6 {
        persistent_values(o, Some(1), 0, 4,
        LifecycleState::Recovery, 1, 4, 1, 2, 1, None, None, None, true)
    } else if k == 7 {
        persistent_values(o, None, 1, 4,
        LifecycleState::Operational, 1, 3, 3, 1, 4, None, None, None, true)
    } else if k == 8 {
        persistent_values(o, Some(1), 1,
        5, LifecycleState::Revoked, 1, 5, 1, 2, 1, None, None, None, false)
    } else if k == 9 {
        persistent_values(o, Some(1), 0,
        6, LifecycleState::Decommissioned, 1, 6, 1, 2, 1, None, None, None, false)
    } else if k == 10 {
        persistent_values(o, Some(
        1), 1, 7, LifecycleState::Fault, 1, u64::MAX, 1, 2, 1, None, None, None, false)
    } else if k == 11 {
        authority_values(o, Some(1), 0,
        seq![Some(1u64), None], AuthorityPhaseProjection::Clean)
    } else if k == 12 {
        authority_values(o, Some(1),
        0, seq![Some(1u64), Some(2u64)], AuthorityPhaseProjection::Prepared {
        candidate_slot: 1,
        commit_id: 2,
        prepared_outcome: PreparedOutcomeProjection::Applied(
            ExecutionProjection { audit: fixture_audit(LifecycleState::UpdatePending), receipt: None },
        ),
    })
    } else if k == 13 {
        authority_values(o, Some(1), 1,
        seq![Some(3u64), Some(2u64)], AuthorityPhaseProjection::Prepared {
        candidate_slot: 0,
        commit_id: 3,
        prepared_outcome: PreparedOutcomeProjection::Rejected(RejectionClass::IntegrityFailure),
    })
    } else if k == 14 {
        authority_values(o, None, 1, seq![Some(3u64), Some(4u64)], AuthorityPhaseProjection::Committed {
        previous_slot: 0,
        selected_next_slot: 1,
        commit_id: 4,
    })
    } else if k == 15 {
        receipt_values(o, None, 4, ReceiptLineageContext::ProvisioningGeneration(1), seq![0x01u8], 3, 3, None, 4,
        None, seq![0xaau8], "fixture.measurement"@, "fixture.policy"@, 1, None, None)
    } else if k == 16 {
        receipt_values(o, Some(0), 1, ReceiptLineageContext::KeyGeneration(0), seq![0x00u8], 0, 0, Some(0), 0, Some(
        Seq::new(16, |i: int| 0u8)), seq![0x00u8], "fixture.measurement.zero"@,
        "fixture.policy.zero"@, 0, Some(seq![0x00u8]), Some(seq![0x00u8]))
    } else {
        false
    }
}

/// Purposes of the frozen positive corpus, in corpus order.
pub open spec fn positive_purposes() -> Seq<Seq<char>> {
    seq![
        "zero counters and absent optional lineage"@,
        "present zero differs from absent lineage"@,
        "maximum-width unsigned semantic values"@,
        "present initial provisioning generation and origin"@,
        "present recommission generation and origin"@,
        "present staged update version"@,
        "recovery lifecycle without staged update or provisioning"@,
        "authoritative snapshot matching the positive receipt release"@,
        "revoked lifecycle with inactive identity"@,
        "terminal lifecycle with inactive identity"@,
        "fault lifecycle disables identity eligibility"@,
        "stable selected record with no candidate"@,
        "candidate plus complete withheld execution"@,
        "candidate plus stable withheld rejection"@,
        "selected next record with retained previous record"@,
        "complete required future receipt with optionals absent"@,
        "present zero and byte-valued optionals remain distinct"@,
    ]
}

/// Positive fixture `k` of the frozen corpus.
pub open spec fn positive_fixture_at(k: int, f: Fixture) -> bool {
    &&& f.identifier@ == positive_identifiers()[k]
    &&& f.purpose@ == positive_purposes()[k]
    &&& positive_object_at(k, f.object)
}

/// The complete frozen positive corpus, fixture by fixture.
pub open spec fn positive_corpus(s: Seq<Fixture>) -> bool {
    &&& s.len() == 17
    &&& positive_fixture_at(0, s[0])
    &&& positive_fixture_at(1, s[1])
    &&& positive_fixture_at(2, s[2])
    &&& positive_fixture_at(3, s[3])
    &&& positive_fixture_at(4, s[4])
    &&& positive_fixture_at(5, s[5])
    &&& positive_fixture_at(6, s[6])
    &&& positive_fixture_at(7, s[7])
    &&& positive_fixture_at(8, s[8])
    &&& positive_fixture_at(9, s[9])
    &&& positive_fixture_at(10, s[10])
    &&& positive_fixture_at(11, s[11])
    &&& positive_fixture_at(12, s[12])
    &&& positive_fixture_at(13, s[13])
    &&& positive_fixture_at(14, s[14])
    &&& positive_fixture_at(15, s[15])
    &&& positive_fixture_at(16, s[16])
}

fn bytes2(a: u8, b: u8) -> (v: Vec<u8>)
    ensures
        v@ == seq![a, b],
{
    let mut v: Vec<u8> = Vec::new();
    v.push(a);
    v.push(b);
    v
}

fn bytes1(a: u8) -> (v: Vec<u8>)
    ensures
        v@ == seq![a],
{
    let mut v: Vec<u8> = Vec::new();
    v.push(a);
    v
}

/// The shared protected context of every fixture.
pub fn context(object_class: ObjectClass, device_generation: u64, key_generation: Option<u64>) -> (c:
    ProtectedContext)
    ensures
        fixture_context(c, object_class, device_generation, key_generation),
{
    let mut extensions: Vec<Extension> = Vec::new();
    extensions.push(
        Extension {
            identifier: String::from_str("example.bytes"),
            critical: false,
            value: ExtensionValue::Bytes(bytes2(0x00, 0xff)),
        },
    );
    extensions.push(
        Extension {
            identifier: String::from_str("example.flag"),
            critical: true,
            value: ExtensionValue::Boolean(false),
        },
    );
    extensions.push(
        Extension {
            identifier: String::from_str("example.text"),
            critical: false,
            value: ExtensionValue::Text(String::from_str("fixture")),
        },
    );
    extensions.push(
        Extension {
            identifier: String::from_str("example.unsigned"),
            critical: false,
            value: ExtensionValue::Unsigned(0),
        },
    );
    ProtectedContext {
        object_class,
        profile_identifier: String::from_str("baochip.fixture.profile"),
        schema_version: 1,
        integrity_suite_identifier: String::from_str("baochip.fixture.unselected-suite"),
        subject: SubjectScope {
            device_identifier: bytes2(0x42, 0x43),
            device_generation,
            key_generation,
        },
        extensions,
    }
}

fn audit(resulting_state: LifecycleState) -> (a: LifecycleAuditProjection)
    ensures
        a == fixture_audit(resulting_state),
{
    LifecycleAuditProjection {
        previous_state: LifecycleState::Operational,
        resulting_state,
        device_generation: 1,
        staged_device_generation: None,
        transition_counter: 2,
    }
}

fn persistent(
    identifier: &'static str,
    purpose: &'static str,
    key_generation: Option<u64>,
    slot_id: u8,
    commit_id: u64,
    lifecycle_state: LifecycleState,
    device_generation: u64,
    transition_counter: u64,
    measurement_epoch: u64,
    receipt_sequence: u64,
    active_version: u64,
    pending_version: Option<u64>,
    provisioning_generation: Option<u64>,
    provisioning_origin: Option<ProvisioningOrigin>,
    identity_active: bool,
) -> (f: Fixture)
    ensures
        f.identifier@ == identifier@,
        f.purpose@ == purpose@,
        persistent_values(f.object, key_generation, slot_id, commit_id,
            lifecycle_state, device_generation, transition_counter, measurement_epoch,
            receipt_sequence, active_version, pending_version, provisioning_generation,
            provisioning_origin, identity_active),
{
    Fixture {
        identifier,
        purpose,
        object: SemanticObject::PersistentState(
            PersistentStateProjection {
                context: context(ObjectClass::PersistentState, device_generation, key_generation),
                slot_id,
                commit_id,
                lifecycle_state,
                device_generation,
                transition_counter,
                measurement_epoch,
                receipt_sequence,
                active_version,
                pending_version,
                provisioning_generation,
                provisioning_origin,
                identity_active,
            },
        ),
    }
}

fn authority(
    identifier: &'static str,
    purpose: &'static str,
    key_generation: Option<u64>,
    raw_selected_slot: u8,
    record_commit_ids: [Option<u64>; 2],
    phase: AuthorityPhaseProjection,
) -> (f: Fixture)
    ensures
        f.identifier@ == identifier@,
        f.purpose@ == purpose@,
        authority_values(f.object, key_generation, raw_selected_slot, record_commit_ids@, phase),
{
    Fixture {
        identifier,
        purpose,
        object: SemanticObject::AuthorityMetadata(
            AuthorityMetadataProjection {
                context: context(ObjectClass::AuthorityMetadata, 1, key_generation),
                raw_selected_slot,
                record_commit_ids,
                phase,
            },
        ),
    }
}

/// The initial positive corpus, exactly as `positive_corpus` describes it.
#[must_use]
pub fn positive_fixtures() -> (fixtures: Vec<Fixture>)
    ensures
        positive_corpus(fixtures@),
{
    let mut v: Vec<Fixture> = Vec::new();
    v.push(persistent("persistent-blank-absent-key-generation",
        "zero counters and absent optional lineage", None, 0, 0, LifecycleState::Blank, 0, 0, 0,
        0, 0, None, None, None, false));
    v.push(persistent("persistent-blank-zero-key-generation",
        "present zero differs from absent lineage", Some(0), 0, 0, LifecycleState::Blank, 0, 0,
        0, 0, 0, None, None, None, false));
    v.push(persistent("persistent-operational-u64-boundaries",
        "maximum-width unsigned semantic values", Some(u64::MAX), 1, u64::MAX,
        LifecycleState::Operational, u64::MAX, u64::MAX, u64::MAX, u64::MAX, u64::MAX, None, None,
        None, true));
    v.push(persistent("persistent-provisioning-initial",
        "present initial provisioning generation and origin", None, 1, 1,
        LifecycleState::Provisioning, 0, 1, 0, 0, 0, None, Some(1), Some(
        ProvisioningOrigin::Initial), false));
    v.push(persistent("persistent-provisioning-recommission",
        "present recommission generation and origin", Some(1), 0, 2,
        LifecycleState::Provisioning, 1, 2, 0, 0, 1, None, Some(2), Some(
        ProvisioningOrigin::Recommission), false));
    v.push(persistent("persistent-update-pending", "present staged update version", Some(1), 1,
        3, LifecycleState::UpdatePending, 1, 3, 1, 2, 1, Some(2), None, None, true));
    v.push(persistent("persistent-recovery",
        "recovery lifecycle without staged update or provisioning", Some(1), 0, 4,
        LifecycleState::Recovery, 1, 4, 1, 2, 1, None, None, None, true));
    v.push(persistent("persistent-operational-receipt-release",
        "authoritative snapshot matching the positive receipt release", None, 1, 4,
        LifecycleState::Operational, 1, 3, 3, 1, 4, None, None, None, true));
    v.push(persistent("persistent-revoked", "revoked lifecycle with inactive identity", Some(1),
        1, 5, LifecycleState::Revoked, 1, 5, 1, 2, 1, None, None, None, false));
    v.push(persistent("persistent-decommissioned", "terminal lifecycle with inactive identity",
        Some(1), 0, 6, LifecycleState::Decommissioned, 1, 6, 1, 2, 1, None, None, None, false));
    v.push(persistent("persistent-fault", "fault lifecycle disables identity eligibility", Some(
        1), 1, 7, LifecycleState::Fault, 1, u64::MAX, 1, 2, 1, None, None, None, false));
    v.push(authority("authority-clean", "stable selected record with no candidate", Some(1), 0,
        [Some(1), None], AuthorityPhaseProjection::Clean));
    v.push(authority("authority-prepared-applied", "candidate plus complete withheld execution",
        Some(1), 0, [Some(1), Some(2)], AuthorityPhaseProjection::Prepared {
        candidate_slot: 1,
        commit_id: 2,
        prepared_outcome: PreparedOutcomeProjection::Applied(
            ExecutionProjection { audit: audit(LifecycleState::UpdatePending), receipt: None },
        ),
    }));
    v.push(authority("authority-prepared-rejected", "candidate plus stable withheld rejection",
        Some(1), 1, [Some(3), Some(2)], AuthorityPhaseProjection::Prepared {
        candidate_slot: 0,
        commit_id: 3,
        prepared_outcome: PreparedOutcomeProjection::Rejected(RejectionClass::IntegrityFailure),
    }));
    v.push(authority("authority-committed", "selected next record with retained previous record",
        None, 1, [Some(3), Some(4)], AuthorityPhaseProjection::Committed {
        previous_slot: 0,
        selected_next_slot: 1,
        commit_id: 4,
    }));
    v.push(Fixture {
        identifier: "receipt-minimal-optionals-absent",
        purpose: "complete required future receipt with optionals absent",
        object: SemanticObject::ExecutionReceipt(
            ExecutionReceiptProjection {
                context: context(ObjectClass::ExecutionReceipt, 1, None),
                authority_commit_id: 4,
                lineage: ReceiptLineageContext::ProvisioningGeneration(1),
                key_identifier: bytes1(0x01),
                lifecycle_state: LifecycleState::Operational,
                device_generation: 1,
                transition_counter: 3,
                measurement_epoch: 3,
                receipt_sequence: None,
                active_version: 4,
                challenge: None,
                measurement_root: bytes1(0xaa),
                measurement_context: String::from_str("fixture.measurement"),
                policy_identifier: String::from_str("fixture.policy"),
                policy_version: 1,
                input_commitment: None,
                output_commitment: None,
            },
        ),
    });
    let challenge: Vec<u8> = vec![0u8; 16];
    assert(challenge@ =~= Seq::new(16, |i: int| 0u8));
    v.push(Fixture {
        identifier: "receipt-optionals-present",
        purpose: "present zero and byte-valued optionals remain distinct",
        object: SemanticObject::ExecutionReceipt(
            ExecutionReceiptProjection {
                context: context(ObjectClass::ExecutionReceipt, 1, Some(0)),
                authority_commit_id: 1,
                lineage: ReceiptLineageContext::KeyGeneration(0),
                key_identifier: bytes1(0x00),
                lifecycle_state: LifecycleState::Operational,
                device_generation: 1,
                transition_counter: 0,
                measurement_epoch: 0,
                receipt_sequence: Some(0),
                active_version: 0,
                challenge: Some(challenge),
                measurement_root: bytes1(0x00),
                measurement_context: String::from_str("fixture.measurement.zero"),
                policy_identifier: String::from_str("fixture.policy.zero"),
                policy_version: 0,
                input_commitment: Some(bytes1(0x00)),
                output_commitment: Some(bytes1(0x00)),
            },
        ),
    });
    v
}

/// A context with the common fixture values and a non-empty subject is
/// valid, whatever its object class, subject generations and device bytes.
pub proof fn lemma_fixture_context_valid(c: ProtectedContext)
    requires
        common_context(c),
        c.subject.device_identifier@.len() > 0,
    ensures
        c.spec_validate() == Ok::<(), ValidationError>(()),
{
    reveal_strlit("baochip.fixture.profile");
    reveal_strlit("baochip.fixture.unselected-suite");
    reveal_strlit("example.bytes");
    reveal_strlit("example.flag");
    reveal_strlit("example.text");
    reveal_strlit("example.unsigned");
    let e = c.extensions@;
    assert forall|i: int| 0 <= i < e.len() implies (#[trigger] e[i]).identifier@.len() > 0 by {
        if i == 0 {
        } else if i == 1 {
        } else if i == 2 {
        } else {
        }
    }
    assert(!chars_before("example.flag"@, "example.bytes"@)) by {
        reveal_with_fuel(chars_before, 10);
    }
    assert(!chars_before("example.text"@, "example.flag"@)) by {
        reveal_with_fuel(chars_before, 10);
    }
    assert(!chars_before("example.unsigned"@, "example.text"@)) by {
        reveal_with_fuel(chars_before, 10);
    }
    assert("example.bytes"@ != "example.flag"@) by {
        assert("example.bytes"@[8] != "example.flag"@[8]);
    }
    assert("example.flag"@ != "example.text"@) by {
        assert("example.flag"@[8] != "example.text"@[8]);
    }
    assert("example.text"@ != "example.unsigned"@) by {
        assert("example.text"@[8] != "example.unsigned"@[8]);
    }
    assert(extension_order_from(e, 3) == Ok::<(), ValidationError>(()));
    assert(extension_order_from(e, 2) == Ok::<(), ValidationError>(()));
    assert(extension_order_from(e, 1) == Ok::<(), ValidationError>(()));
    assert(extension_order_from(e, 0) == Ok::<(), ValidationError>(()));
}

/// Two fixture contexts with the same subject share every protected value
/// except their object class.
pub proof fn lemma_fixture_contexts_match(
    a: ProtectedContext,
    b: ProtectedContext,
    class_a: ObjectClass,
    class_b: ObjectClass,
    generation: u64,
    key_generation: Option<u64>,
)
    requires
        fixture_context(a, class_a, generation, key_generation),
        fixture_context(b, class_b, generation, key_generation),
    ensures
        shared_context_matches(a, b),
{
    assert forall|i: int| 0 <= i < a.extensions@.len() implies extensions_match(
        #[trigger] a.extensions@[i],
        b.extensions@[i],
    ) by {
        if i == 0 {
        } else if i == 1 {
        } else if i == 2 {
        } else {
        }
    }
}

/// The positive corpus identifiers are pairwise distinct.
pub proof fn lemma_positive_identifiers_distinct()
    ensures
        positive_identifiers().len() == 17,
        forall|i: int, j: int|
            0 <= i < j < 17 ==> positive_identifiers()[i] != positive_identifiers()[j],
{
    reveal_strlit("persistent-blank-absent-key-generation");
    reveal_strlit("persistent-blank-zero-key-generation");
    reveal_strlit("persistent-operational-u64-boundaries");
    reveal_strlit("persistent-provisioning-initial");
    reveal_strlit("persistent-provisioning-recommission");
    reveal_strlit("persistent-update-pending");
    reveal_strlit("persistent-recovery");
    reveal_strlit("persistent-operational-receipt-release");
    reveal_strlit("persistent-revoked");
    reveal_strlit("persistent-decommissioned");
    reveal_strlit("persistent-fault");
    reveal_strlit("authority-clean");
    reveal_strlit("authority-prepared-applied");
    reveal_strlit("authority-prepared-rejected");
    reveal_strlit("authority-committed");
    reveal_strlit("receipt-minimal-optionals-absent");
    reveal_strlit("receipt-optionals-present");
    let ids = positive_identifiers();
    assert(ids[0][11] != ids[7][11]);
    assert(ids[1][11] != ids[4][11]);
    assert(ids[5][11] != ids[9][11]);
    assert(ids[5][0] != ids[16][0]);
    assert(ids[9][0] != ids[16][0]);
    assert(ids[6][0] != ids[14][0]);
    assert forall|i: int, j: int| 0 <= i < j < 17 implies ids[i] != ids[j] by {
        if ids[i].len() == ids[j].len() {
            assert((i == 0 && j == 7) || (i == 1 && j == 4) || (i == 5 && j == 9) || (i == 5
                && j == 16) || (i == 9 && j == 16) || (i == 6 && j == 14));
        }
    }
}

/// The object of positive fixture `k` has the class that `positive_class`
/// names for `k`.
pub open spec fn positive_class(k: int) -> ObjectClass {
    if k <= 10 {
        ObjectClass::PersistentState
    } else if k <= 14 {
        ObjectClass::AuthorityMetadata
    } else {
        ObjectClass::ExecutionReceipt
    }
}

pub proof fn lemma_positive_object_class(k: int, o: SemanticObject)
    requires
        positive_object_at(k, o),
    ensures
        0 <= k < 17,
        (o is PersistentState) == (positive_class(k) == ObjectClass::PersistentState),
        (o is AuthorityMetadata) == (positive_class(k) == ObjectClass::AuthorityMetadata),
        (o is ExecutionReceipt) == (positive_class(k) == ObjectClass::ExecutionReceipt),
{
}

/// Every object of the frozen positive corpus is individually valid.
pub proof fn lemma_positive_object_valid(k: int, o: SemanticObject)
    requires
        positive_object_at(k, o),
    ensures
        o.spec_validate() == Ok::<(), ValidationError>(()),
{
    match o {
        SemanticObject::PersistentState(p) => {
            lemma_fixture_context_valid(p.context);
        },
        SemanticObject::AuthorityMetadata(a) => {
            lemma_fixture_context_valid(a.context);
        },
        SemanticObject::ExecutionReceipt(r) => {
            lemma_fixture_context_valid(r.context);
            reveal_strlit("fixture.measurement");
            reveal_strlit("fixture.policy");
            reveal_strlit("fixture.measurement.zero");
            reveal_strlit("fixture.policy.zero");
        },
    }
}

/// Fixture `k` of a corpus that `positive_corpus` describes.
pub proof fn lemma_positive_corpus_at(s: Seq<Fixture>, k: int)
    requires
        positive_corpus(s),
        0 <= k < 17,
    ensures
        positive_fixture_at(k, s[k]),
{
}

/// Every fixture of the frozen positive corpus is valid, and its
/// identifiers are unique.
pub proof fn positive_corpus_is_valid(s: Seq<Fixture>)
    requires
        positive_corpus(s),
    ensures
        forall|i: int| 0 <= i < 17 ==> (#[trigger] s[i]).object.spec_validate() == Ok::<
            (),
            ValidationError,
        >(()),
        forall|i: int| 0 <= i < 17 ==> (#[trigger] s[i]).identifier@ == positive_identifiers()[i],
        forall|i: int, j: int| 0 <= i < j < 17 ==> s[i].identifier@ != s[j].identifier@,
{
    lemma_positive_identifiers_distinct();
    assert forall|i: int| 0 <= i < 17 implies (#[trigger] s[i]).object.spec_validate() == Ok::<
        (),
        ValidationError,
    >(()) by {
        lemma_positive_corpus_at(s, i);
        lemma_positive_object_valid(i, s[i].object);
    }
    assert forall|i: int| 0 <= i < 17 implies (#[trigger] s[i]).identifier@
        == positive_identifiers()[i] by {
        lemma_positive_corpus_at(s, i);
    }
}

} // verus!
