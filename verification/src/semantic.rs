//! Candidate-neutral semantic objects and their validation rules.
//!
//! These values are typed semantic inputs, not protocol bytes. Nothing here
//! selects an encoding, canonicalization algorithm, integrity suite, or
//! physical representation.
use vstd::prelude::*;

verus! {

/// Protected semantic domains. Enum layout is not a protocol identifier.
#[derive(Clone, Copy, Debug, PartialEq, Eq, Structural)]
pub enum ObjectClass {
    PersistentState,
    AuthorityMetadata,
    ExecutionReceipt,
    LifecycleAudit,
    Endorsement,
    ReferenceValues,
}

/// Security-relevant lifecycle states. Enum layout is not a wire format.
#[derive(Clone, Copy, Debug, PartialEq, Eq, Structural)]
pub enum LifecycleState {
    Blank,
    Provisioning,
    Operational,
    UpdatePending,
    Recovery,
    Revoked,
    Decommissioned,
    Fault,
}

/// Source of a staged provisioning generation.
#[derive(Clone, Copy, Debug, PartialEq, Eq, Structural)]
pub enum ProvisioningOrigin {
    Initial,
    Recommission,
}

/// Exact semantic type of an extension value.
#[derive(Clone, Debug, PartialEq, Eq)]
pub enum ExtensionValue {
    Unsigned(u64),
    Boolean(bool),
    Bytes(Vec<u8>),
    Text(String),
}

/// One retained extension entry.
#[derive(Clone, Debug, PartialEq, Eq)]
pub struct Extension {
    pub identifier: String,
    pub critical: bool,
    pub value: ExtensionValue,
}

/// Subject scope that prevents cross-device or cross-lineage substitution.
#[derive(Clone, Debug, PartialEq, Eq)]
pub struct SubjectScope {
    pub device_identifier: Vec<u8>,
    pub device_generation: u64,
    pub key_generation: Option<u64>,
}

/// Required receipt lineage mode. This is semantic context, not a key format.
#[derive(Clone, Copy, Debug, PartialEq, Eq)]
pub enum ReceiptLineageContext {
    KeyGeneration(u64),
    ProvisioningGeneration(u64),
}

/// Context common to every protected semantic object.
///
/// Extensions are kept in strictly increasing identifier order so that the
/// representation denotes a set without silently dropping ordering
/// differences.
#[derive(Clone, Debug, PartialEq, Eq)]
pub struct ProtectedContext {
    pub object_class: ObjectClass,
    pub profile_identifier: String,
    pub schema_version: u64,
    pub integrity_suite_identifier: String,
    pub subject: SubjectScope,
    pub extensions: Vec<Extension>,
}

/// Complete executable-model persistent-state projection.
#[derive(Clone, Debug, PartialEq, Eq)]
pub struct PersistentStateProjection {
    pub context: ProtectedContext,
    pub slot_id: u8,
    pub commit_id: u64,
    pub lifecycle_state: LifecycleState,
    pub device_generation: u64,
    pub transition_counter: u64,
    pub measurement_epoch: u64,
    pub receipt_sequence: u64,
    pub active_version: u64,
    pub pending_version: Option<u64>,
    pub provisioning_generation: Option<u64>,
    pub provisioning_origin: Option<ProvisioningOrigin>,
    pub identity_active: bool,
}

/// Current lifecycle-model receipt fields embedded in a prepared execution.
#[derive(Clone, Debug, PartialEq, Eq)]
pub struct CurrentReceiptClaims {
    pub lifecycle_state: LifecycleState,
    pub device_generation: u64,
    pub transition_counter: u64,
    pub measurement_epoch: u64,
    pub receipt_sequence: u64,
    pub active_version: u64,
    pub challenge: Option<[u8; 16]>,
}

/// Current non-secret lifecycle audit fields embedded in a prepared execution.
#[derive(Clone, Debug, PartialEq, Eq)]
pub struct LifecycleAuditProjection {
    pub previous_state: LifecycleState,
    pub resulting_state: LifecycleState,
    pub device_generation: u64,
    pub staged_device_generation: Option<u64>,
    pub transition_counter: u64,
}

/// Complete lifecycle execution staged by the persistence model.
#[derive(Clone, Debug, PartialEq, Eq)]
pub struct ExecutionProjection {
    pub audit: LifecycleAuditProjection,
    pub receipt: Option<CurrentReceiptClaims>,
}

/// Stable lifecycle-model rejection classes.
#[derive(Clone, Copy, Debug, PartialEq, Eq)]
pub enum RejectionClass {
    InvalidState,
    Unauthorized,
    InvalidTransition,
    InvalidVersion,
    RollbackDetected,
    ReplayDetected,
    MalformedInput,
    UnsupportedProfile,
    UnsupportedCriticalExtension,
    PersistenceFailure,
    CounterExhausted,
    IntegrityFailure,
    Decommissioned,
    InternalInvariantViolation,
}

/// Prepared command result withheld until selector commit.
#[derive(Clone, Debug, PartialEq, Eq)]
pub enum PreparedOutcomeProjection {
    Applied(ExecutionProjection),
    Rejected(RejectionClass),
}

/// Phase-specific authority fields. The raw selected slot stays outside the
/// phase because it exists in every phase.
#[derive(Clone, Debug, PartialEq, Eq)]
pub enum AuthorityPhaseProjection {
    Clean,
    Prepared { candidate_slot: u8, commit_id: u64, prepared_outcome: PreparedOutcomeProjection },
    Committed { previous_slot: u8, selected_next_slot: u8, commit_id: u64 },
}

/// Complete authority-metadata semantic projection.
#[derive(Clone, Debug, PartialEq, Eq)]
pub struct AuthorityMetadataProjection {
    pub context: ProtectedContext,
    pub raw_selected_slot: u8,
    /// Commit identifier of each present logical record; `None` is an empty
    /// slot, so presence and record identity cannot contradict.
    pub record_commit_ids: [Option<u64>; 2],
    pub phase: AuthorityPhaseProjection,
}

/// Complete execution-receipt projection used as a semantic fixture.
#[derive(Clone, Debug, PartialEq, Eq)]
pub struct ExecutionReceiptProjection {
    pub context: ProtectedContext,
    /// Commit identifier of the authoritative persistent snapshot whose
    /// selector commit released this receipt.
    pub authority_commit_id: u64,
    pub lineage: ReceiptLineageContext,
    pub key_identifier: Vec<u8>,
    pub lifecycle_state: LifecycleState,
    pub device_generation: u64,
    pub transition_counter: u64,
    pub measurement_epoch: u64,
    pub receipt_sequence: Option<u64>,
    pub active_version: u64,
    pub challenge: Option<Vec<u8>>,
    pub measurement_root: Vec<u8>,
    pub measurement_context: String,
    pub policy_identifier: String,
    pub policy_version: u64,
    pub input_commitment: Option<Vec<u8>>,
    pub output_commitment: Option<Vec<u8>>,
}

/// One supported semantic object.
#[derive(Clone, Debug, PartialEq, Eq)]
pub enum SemanticObject {
    PersistentState(PersistentStateProjection),
    AuthorityMetadata(AuthorityMetadataProjection),
    ExecutionReceipt(ExecutionReceiptProjection),
}

/// Named fixture and the distinction it is intended to exercise.
#[derive(Clone, Debug, PartialEq, Eq)]
pub struct Fixture {
    pub identifier: &'static str,
    pub purpose: &'static str,
    pub object: SemanticObject,
}

/// Stable semantic-validation failures. They are not parser rejection codes.
#[derive(Clone, Copy, Debug, PartialEq, Eq, Structural)]
pub enum ValidationError {
    EmptyIdentifier,
    EmptySubject,
    EmptyRequiredValue,
    WrongObjectClass,
    InvalidSlot,
    MissingRecord,
    UnexpectedRecord,
    SlotConflict,
    SelectorMismatch,
    DuplicateExtension,
    UnorderedExtensions,
    CommitIdMismatch,
    AuthorityPhaseMismatch,
    AuthorityContextMismatch,
    StateContextMismatch,
    InconsistentState,
    InconsistentExecution,
}

// ---------------------------------------------------------------------------
// Text and byte comparison
// ---------------------------------------------------------------------------

/// Lexicographic order of code-point sequences, the order of `String`'s `<`.
pub open spec fn chars_before(a: Seq<char>, b: Seq<char>) -> bool
    decreases a.len(),
{
    if a.len() == 0 {
        b.len() > 0
    } else if b.len() == 0 {
        false
    } else if a[0] != b[0] {
        a[0] < b[0]
    } else {
        chars_before(a.drop_first(), b.drop_first())
    }
}

/// Whether `a` sorts strictly before `b`.
pub fn text_before(a: &str, b: &str) -> (before: bool)
    ensures
        before == chars_before(a@, b@),
{
    let a_len = a.unicode_len();
    let b_len = b.unicode_len();
    let mut i: usize = 0;
    assert(a@.skip(0) =~= a@);
    assert(b@.skip(0) =~= b@);
    while i < a_len && i < b_len
        invariant
            a_len == a@.len(),
            b_len == b@.len(),
            i <= a_len,
            i <= b_len,
            chars_before(a@, b@) == chars_before(a@.skip(i as int), b@.skip(i as int)),
        decreases a_len - i,
    {
        let ca = a.get_char(i);
        let cb = b.get_char(i);
        let ghost sa = a@.skip(i as int);
        let ghost sb = b@.skip(i as int);
        assert(sa[0] == ca && sb[0] == cb);
        if ca != cb {
            return ca < cb;
        }
        assert(sa.drop_first() =~= a@.skip(i + 1));
        assert(sb.drop_first() =~= b@.skip(i + 1));
        i = i + 1;
    }
    let ghost sa = a@.skip(i as int);
    let ghost sb = b@.skip(i as int);
    assert(sa.len() == 0 || sb.len() == 0);
    i == a_len && i < b_len
}

/// Whether two texts are equal.
pub fn text_equal(a: &str, b: &str) -> (equal: bool)
    ensures
        equal == (a@ == b@),
{
    let a_len = a.unicode_len();
    let b_len = b.unicode_len();
    if a_len != b_len {
        return false;
    }
    let mut i: usize = 0;
    while i < a_len
        invariant
            a_len == a@.len(),
            b_len == b@.len(),
            a_len == b_len,
            i <= a_len,
            forall|j: int| 0 <= j < i ==> a@[j] == b@[j],
        decreases a_len - i,
    {
        if a.get_char(i) != b.get_char(i) {
            return false;
        }
        i = i + 1;
    }
    assert(a@ =~= b@);
    true
}

/// Whether two byte strings are equal.
pub fn bytes_equal(a: &Vec<u8>, b: &Vec<u8>) -> (equal: bool)
    ensures
        equal == (a@ == b@),
{
    if a.len() != b.len() {
        return false;
    }
    let mut i: usize = 0;
    while i < a.len()
        invariant
            a.len() == b.len(),
            i <= a.len(),
            forall|j: int| 0 <= j < i ==> a@[j] == b@[j],
        decreases a.len() - i,
    {
        if a[i] != b[i] {
            return false;
        }
        i = i + 1;
    }
    assert(a@ =~= b@);
    true
}

// ---------------------------------------------------------------------------
// Protected context
// ---------------------------------------------------------------------------

/// Extension identifier ordering from pair `i` onward: the first adjacent
/// pair that is duplicated or out of order decides the error.
pub open spec fn extension_order_from(extensions: Seq<Extension>, i: int) -> Result<
    (),
    ValidationError,
>
    decreases extensions.len() - i,
{
    if i < 0 || i + 1 >= extensions.len() {
        Ok(())
    } else if extensions[i].identifier@ == extensions[i + 1].identifier@ {
        Err(ValidationError::DuplicateExtension)
    } else if chars_before(extensions[i + 1].identifier@, extensions[i].identifier@) {
        Err(ValidationError::UnorderedExtensions)
    } else {
        extension_order_from(extensions, i + 1)
    }
}

/// Same value and same semantic type.
pub open spec fn extension_values_match(a: ExtensionValue, b: ExtensionValue) -> bool {
    match (a, b) {
        (ExtensionValue::Unsigned(x), ExtensionValue::Unsigned(y)) => x == y,
        (ExtensionValue::Boolean(x), ExtensionValue::Boolean(y)) => x == y,
        (ExtensionValue::Bytes(x), ExtensionValue::Bytes(y)) => x@ == y@,
        (ExtensionValue::Text(x), ExtensionValue::Text(y)) => x@ == y@,
        _ => false,
    }
}

pub open spec fn extensions_match(a: Extension, b: Extension) -> bool {
    a.identifier@ == b.identifier@ && a.critical == b.critical && extension_values_match(
        a.value,
        b.value,
    )
}

pub open spec fn subjects_match(a: SubjectScope, b: SubjectScope) -> bool {
    a.device_identifier@ == b.device_identifier@ && a.device_generation == b.device_generation
        && a.key_generation == b.key_generation
}

/// Two protected contexts bind the same profile, schema, suite, subject and
/// extensions; only the object class, which names each object's own domain,
/// may differ.
pub open spec fn shared_context_matches(a: ProtectedContext, b: ProtectedContext) -> bool {
    &&& a.profile_identifier@ == b.profile_identifier@
    &&& a.schema_version == b.schema_version
    &&& a.integrity_suite_identifier@ == b.integrity_suite_identifier@
    &&& subjects_match(a.subject, b.subject)
    &&& a.extensions@.len() == b.extensions@.len()
    &&& forall|i: int|
        0 <= i < a.extensions@.len() ==> extensions_match(
            #[trigger] a.extensions@[i],
            b.extensions@[i],
        )
}

fn extension_value_equal(a: &ExtensionValue, b: &ExtensionValue) -> (equal: bool)
    ensures
        equal == extension_values_match(*a, *b),
{
    match (a, b) {
        (ExtensionValue::Unsigned(x), ExtensionValue::Unsigned(y)) => *x == *y,
        (ExtensionValue::Boolean(x), ExtensionValue::Boolean(y)) => *x == *y,
        (ExtensionValue::Bytes(x), ExtensionValue::Bytes(y)) => bytes_equal(x, y),
        (ExtensionValue::Text(x), ExtensionValue::Text(y)) => text_equal(x.as_str(), y.as_str()),
        _ => false,
    }
}

fn shared_context_equal(a: &ProtectedContext, b: &ProtectedContext) -> (equal: bool)
    ensures
        equal == shared_context_matches(*a, *b),
{
    if !text_equal(a.profile_identifier.as_str(), b.profile_identifier.as_str())
        || a.schema_version != b.schema_version || !text_equal(
        a.integrity_suite_identifier.as_str(),
        b.integrity_suite_identifier.as_str(),
    ) || !bytes_equal(&a.subject.device_identifier, &b.subject.device_identifier)
        || a.subject.device_generation != b.subject.device_generation
        || a.subject.key_generation != b.subject.key_generation || a.extensions.len()
        != b.extensions.len() {
        return false;
    }
    let mut i: usize = 0;
    while i < a.extensions.len()
        invariant
            a.extensions@.len() == b.extensions@.len(),
            i <= a.extensions@.len(),
            forall|j: int| 0 <= j < i ==> extensions_match(#[trigger] a.extensions@[j], b.extensions@[j]),
        decreases a.extensions.len() - i,
    {
        let x = &a.extensions[i];
        let y = &b.extensions[i];
        if !text_equal(x.identifier.as_str(), y.identifier.as_str()) || x.critical != y.critical
            || !extension_value_equal(&x.value, &y.value) {
            return false;
        }
        i = i + 1;
    }
    true
}

impl ProtectedContext {
    pub open spec fn spec_validate(self) -> Result<(), ValidationError> {
        if self.profile_identifier@.len() == 0 || self.integrity_suite_identifier@.len() == 0 {
            Err(ValidationError::EmptyIdentifier)
        } else if self.subject.device_identifier@.len() == 0 {
            Err(ValidationError::EmptySubject)
        } else if exists|i: int|
            0 <= i < self.extensions@.len() && (#[trigger] self.extensions@[i]).identifier@.len()
                == 0 {
            Err(ValidationError::EmptyIdentifier)
        } else {
            extension_order_from(self.extensions@, 0)
        }
    }

    fn validate(&self) -> (res: Result<(), ValidationError>)
        ensures
            res == self.spec_validate(),
    {
        if self.profile_identifier.as_str().is_empty()
            || self.integrity_suite_identifier.as_str().is_empty() {
            return Err(ValidationError::EmptyIdentifier);
        }
        if self.subject.device_identifier.len() == 0 {
            return Err(ValidationError::EmptySubject);
        }
        let n = self.extensions.len();
        let mut i: usize = 0;
        while i < n
            invariant
                n == self.extensions@.len(),
                i <= n,
                self.profile_identifier@.len() > 0,
                self.integrity_suite_identifier@.len() > 0,
                self.subject.device_identifier@.len() > 0,
                forall|j: int| 0 <= j < i ==> (#[trigger] self.extensions@[j]).identifier@.len() > 0,
            decreases n - i,
        {
            if self.extensions[i].identifier.as_str().is_empty() {
                assert(self.extensions@[i as int].identifier@.len() == 0);
                return Err(ValidationError::EmptyIdentifier);
            }
            i = i + 1;
        }
        assert(!exists|j: int|
            0 <= j < self.extensions@.len() && (#[trigger] self.extensions@[j]).identifier@.len()
                == 0);
        let mut k: usize = 0;
        while n > 0 && k < n - 1
            invariant
                n == self.extensions@.len(),
                self.profile_identifier@.len() > 0,
                self.integrity_suite_identifier@.len() > 0,
                self.subject.device_identifier@.len() > 0,
                forall|j: int| 0 <= j < n ==> (#[trigger] self.extensions@[j]).identifier@.len() > 0,
                extension_order_from(self.extensions@, 0) == extension_order_from(
                    self.extensions@,
                    k as int,
                ),
            decreases n - k,
        {
            let first = self.extensions[k].identifier.as_str();
            let second = self.extensions[k + 1].identifier.as_str();
            if text_equal(first, second) {
                return Err(ValidationError::DuplicateExtension);
            }
            if text_before(second, first) {
                return Err(ValidationError::UnorderedExtensions);
            }
            k = k + 1;
        }
        Ok(())
    }
}

// ---------------------------------------------------------------------------
// Persistent state
// ---------------------------------------------------------------------------

/// The lifecycle fields of a persistent snapshot agree with each other and
/// with the protected subject.
pub open spec fn state_consistent(s: PersistentStateProjection) -> bool {
    let identity_required = s.lifecycle_state == LifecycleState::Operational || s.lifecycle_state
        == LifecycleState::UpdatePending || s.lifecycle_state == LifecycleState::Recovery;
    let provisioning = s.lifecycle_state == LifecycleState::Provisioning;
    &&& s.context.subject.device_generation == s.device_generation
    &&& s.identity_active == identity_required
    &&& provisioning == s.provisioning_generation is Some
    &&& provisioning == s.provisioning_origin is Some
    &&& s.provisioning_generation matches Some(g) ==> s.device_generation < u64::MAX && g
        == s.device_generation + 1
    &&& s.provisioning_origin == Some(ProvisioningOrigin::Initial) ==> s.device_generation == 0
    &&& s.provisioning_origin == Some(ProvisioningOrigin::Recommission) ==> s.device_generation
        != 0
    &&& (s.lifecycle_state == LifecycleState::UpdatePending) == s.pending_version is Some
    &&& s.pending_version matches Some(v) ==> v > s.active_version
}

fn lifecycle_equal(a: LifecycleState, b: LifecycleState) -> (equal: bool)
    ensures
        equal == (a == b),
{
    a == b
}

impl PersistentStateProjection {
    pub open spec fn spec_validate(self) -> Result<(), ValidationError> {
        if self.context.spec_validate() is Err {
            self.context.spec_validate()
        } else if self.context.object_class != ObjectClass::PersistentState {
            Err(ValidationError::WrongObjectClass)
        } else if self.slot_id > 1 {
            Err(ValidationError::InvalidSlot)
        } else if !state_consistent(self) {
            Err(ValidationError::InconsistentState)
        } else {
            Ok(())
        }
    }

    /// Validate semantic invariants without producing bytes.
    pub fn validate(&self) -> (res: Result<(), ValidationError>)
        ensures
            res == self.spec_validate(),
    {
        match self.context.validate() {
            Ok(()) => {},
            Err(e) => return Err(e),
        }
        if self.context.object_class != ObjectClass::PersistentState {
            return Err(ValidationError::WrongObjectClass);
        }
        if self.slot_id > 1 {
            return Err(ValidationError::InvalidSlot);
        }
        if self.context.subject.device_generation != self.device_generation {
            return Err(ValidationError::InconsistentState);
        }
        let identity_required = lifecycle_equal(self.lifecycle_state, LifecycleState::Operational)
            || lifecycle_equal(self.lifecycle_state, LifecycleState::UpdatePending)
            || lifecycle_equal(self.lifecycle_state, LifecycleState::Recovery);
        if self.identity_active != identity_required {
            return Err(ValidationError::InconsistentState);
        }
        let provisioning = lifecycle_equal(self.lifecycle_state, LifecycleState::Provisioning);
        let has_generation = self.provisioning_generation.is_some();
        let has_origin = self.provisioning_origin.is_some();
        if (provisioning && !(has_generation && has_origin)) || (!provisioning && (has_generation
            || has_origin)) {
            return Err(ValidationError::InconsistentState);
        }
        match self.provisioning_generation {
            Some(generation) => {
                if self.device_generation.checked_add(1) != Some(generation) {
                    return Err(ValidationError::InconsistentState);
                }
            },
            None => {},
        }
        match self.provisioning_origin {
            Some(ProvisioningOrigin::Initial) => {
                if self.device_generation != 0 {
                    return Err(ValidationError::InconsistentState);
                }
            },
            Some(ProvisioningOrigin::Recommission) => {
                if self.device_generation == 0 {
                    return Err(ValidationError::InconsistentState);
                }
            },
            None => {},
        }
        let update_pending = lifecycle_equal(self.lifecycle_state, LifecycleState::UpdatePending);
        if update_pending != self.pending_version.is_some() {
            return Err(ValidationError::InconsistentState);
        }
        match self.pending_version {
            Some(version) => {
                if version <= self.active_version {
                    return Err(ValidationError::InconsistentState);
                }
            },
            None => {},
        }
        Ok(())
    }
}

// ---------------------------------------------------------------------------
// Authority metadata
// ---------------------------------------------------------------------------

/// A receipt embedded in a prepared execution binds an operational,
/// non-provisioning execution and nonzero identity values.
pub open spec fn execution_consistent(e: ExecutionProjection) -> bool {
    e.receipt matches Some(r) ==> {
        &&& e.audit.previous_state == LifecycleState::Operational
        &&& e.audit.resulting_state == LifecycleState::Operational
        &&& e.audit.staged_device_generation is None
        &&& r.lifecycle_state == e.audit.resulting_state
        &&& r.device_generation == e.audit.device_generation
        &&& r.transition_counter == e.audit.transition_counter
        &&& r.device_generation != 0
        &&& r.transition_counter != 0
        &&& r.receipt_sequence != 0
        &&& r.active_version != 0
    }
}

impl ExecutionProjection {
    fn validate(&self) -> (res: Result<(), ValidationError>)
        ensures
            res == (if execution_consistent(*self) {
                Ok(())
            } else {
                Err(ValidationError::InconsistentExecution)
            }),
    {
        match &self.receipt {
            Some(receipt) => {
                if !lifecycle_equal(self.audit.previous_state, LifecycleState::Operational)
                    || !lifecycle_equal(self.audit.resulting_state, LifecycleState::Operational)
                    || self.audit.staged_device_generation.is_some() || !lifecycle_equal(
                    receipt.lifecycle_state,
                    self.audit.resulting_state,
                ) || receipt.device_generation != self.audit.device_generation
                    || receipt.transition_counter != self.audit.transition_counter
                    || receipt.device_generation == 0 || receipt.transition_counter == 0
                    || receipt.receipt_sequence == 0 || receipt.active_version == 0 {
                    return Err(ValidationError::InconsistentExecution);
                }
                Ok(())
            },
            None => Ok(()),
        }
    }
}

impl PreparedOutcomeProjection {
    pub open spec fn spec_validate(self) -> Result<(), ValidationError> {
        match self {
            PreparedOutcomeProjection::Applied(execution) => if execution_consistent(execution) {
                Ok(())
            } else {
                Err(ValidationError::InconsistentExecution)
            },
            PreparedOutcomeProjection::Rejected(_) => Ok(()),
        }
    }

    fn validate(&self) -> (res: Result<(), ValidationError>)
        ensures
            res == self.spec_validate(),
    {
        match self {
            PreparedOutcomeProjection::Applied(execution) => execution.validate(),
            PreparedOutcomeProjection::Rejected(_) => Ok(()),
        }
    }
}

/// `next` is the checked successor of `previous`.
pub open spec fn successor(previous: u64, next: u64) -> bool {
    previous < u64::MAX && next == previous + 1
}

impl AuthorityMetadataProjection {
    pub open spec fn id_at(self, slot: u8) -> Option<u64> {
        self.record_commit_ids@[slot as int]
    }

    pub open spec fn spec_validate(self) -> Result<(), ValidationError> {
        if self.context.spec_validate() is Err {
            self.context.spec_validate()
        } else if self.context.object_class != ObjectClass::AuthorityMetadata {
            Err(ValidationError::WrongObjectClass)
        } else if self.raw_selected_slot > 1 {
            Err(ValidationError::InvalidSlot)
        } else {
            let raw = self.raw_selected_slot;
            match self.phase {
                AuthorityPhaseProjection::Clean => {
                    if self.id_at(raw) is None {
                        Err(ValidationError::MissingRecord)
                    } else if self.id_at((1 - raw) as u8) is Some {
                        Err(ValidationError::UnexpectedRecord)
                    } else {
                        Ok(())
                    }
                },
                AuthorityPhaseProjection::Prepared { candidate_slot, commit_id, prepared_outcome } => {
                    if candidate_slot > 1 {
                        Err(ValidationError::InvalidSlot)
                    } else if candidate_slot == raw {
                        Err(ValidationError::SlotConflict)
                    } else if self.id_at(raw) is None || self.id_at(candidate_slot) is None {
                        Err(ValidationError::MissingRecord)
                    } else if !successor(self.id_at(raw)->0, commit_id) || self.id_at(
                        candidate_slot,
                    )->0 != commit_id {
                        Err(ValidationError::CommitIdMismatch)
                    } else {
                        prepared_outcome.spec_validate()
                    }
                },
                AuthorityPhaseProjection::Committed { previous_slot, selected_next_slot, commit_id } => {
                    if previous_slot > 1 || selected_next_slot > 1 {
                        Err(ValidationError::InvalidSlot)
                    } else if previous_slot == selected_next_slot {
                        Err(ValidationError::SlotConflict)
                    } else if selected_next_slot != raw {
                        Err(ValidationError::SelectorMismatch)
                    } else if self.id_at(previous_slot) is None || self.id_at(
                        selected_next_slot,
                    ) is None {
                        Err(ValidationError::MissingRecord)
                    } else if !successor(self.id_at(previous_slot)->0, commit_id) || self.id_at(
                        selected_next_slot,
                    )->0 != commit_id {
                        Err(ValidationError::CommitIdMismatch)
                    } else {
                        Ok(())
                    }
                },
            }
        }
    }

    /// Validate phase, slot, presence, and prepared-outcome invariants.
    pub fn validate(&self) -> (res: Result<(), ValidationError>)
        ensures
            res == self.spec_validate(),
    {
        match self.context.validate() {
            Ok(()) => {},
            Err(e) => return Err(e),
        }
        if self.context.object_class != ObjectClass::AuthorityMetadata {
            return Err(ValidationError::WrongObjectClass);
        }
        if self.raw_selected_slot > 1 {
            return Err(ValidationError::InvalidSlot);
        }
        let raw = self.raw_selected_slot;
        match &self.phase {
            AuthorityPhaseProjection::Clean => {
                if self.record_commit_ids[raw as usize].is_none() {
                    return Err(ValidationError::MissingRecord);
                }
                if self.record_commit_ids[(1 - raw) as usize].is_some() {
                    return Err(ValidationError::UnexpectedRecord);
                }
                Ok(())
            },
            AuthorityPhaseProjection::Prepared { candidate_slot, commit_id, prepared_outcome } => {
                if *candidate_slot > 1 {
                    return Err(ValidationError::InvalidSlot);
                }
                if *candidate_slot == raw {
                    return Err(ValidationError::SlotConflict);
                }
                let previous = match self.record_commit_ids[raw as usize] {
                    Some(id) => id,
                    None => return Err(ValidationError::MissingRecord),
                };
                let candidate = match self.record_commit_ids[*candidate_slot as usize] {
                    Some(id) => id,
                    None => return Err(ValidationError::MissingRecord),
                };
                if previous.checked_add(1) != Some(*commit_id) || candidate != *commit_id {
                    return Err(ValidationError::CommitIdMismatch);
                }
                prepared_outcome.validate()
            },
            AuthorityPhaseProjection::Committed { previous_slot, selected_next_slot, commit_id } => {
                if *previous_slot > 1 || *selected_next_slot > 1 {
                    return Err(ValidationError::InvalidSlot);
                }
                if *previous_slot == *selected_next_slot {
                    return Err(ValidationError::SlotConflict);
                }
                if *selected_next_slot != raw {
                    return Err(ValidationError::SelectorMismatch);
                }
                let previous = match self.record_commit_ids[*previous_slot as usize] {
                    Some(id) => id,
                    None => return Err(ValidationError::MissingRecord),
                };
                let selected = match self.record_commit_ids[*selected_next_slot as usize] {
                    Some(id) => id,
                    None => return Err(ValidationError::MissingRecord),
                };
                if previous.checked_add(1) != Some(*commit_id) || selected != *commit_id {
                    return Err(ValidationError::CommitIdMismatch);
                }
                Ok(())
            },
        }
    }
}

// ---------------------------------------------------------------------------
// Execution receipts
// ---------------------------------------------------------------------------

/// The receipt lineage agrees with the protected subject.
pub open spec fn lineage_consistent(r: ExecutionReceiptProjection) -> bool {
    match r.lineage {
        ReceiptLineageContext::KeyGeneration(g) => r.context.subject.key_generation == Some(g),
        ReceiptLineageContext::ProvisioningGeneration(g) => r.context.subject.key_generation is None
            && g == r.device_generation,
    }
}

/// Every required receipt value is present and non-empty, and every present
/// optional commitment is non-empty.
pub open spec fn receipt_values_present(r: ExecutionReceiptProjection) -> bool {
    &&& r.key_identifier@.len() > 0
    &&& r.measurement_root@.len() > 0
    &&& r.measurement_context@.len() > 0
    &&& r.policy_identifier@.len() > 0
    &&& r.input_commitment matches Some(c) ==> c@.len() > 0
    &&& r.output_commitment matches Some(c) ==> c@.len() > 0
}

/// Every receipt claim agrees with the authoritative persistent snapshot:
/// shared protected context, commit, lifecycle, generation, counters, epoch,
/// active version and, when present, receipt sequence.
pub open spec fn state_releases_receipt(
    r: ExecutionReceiptProjection,
    s: PersistentStateProjection,
) -> bool {
    &&& shared_context_matches(s.context, r.context)
    &&& s.commit_id == r.authority_commit_id
    &&& s.lifecycle_state == r.lifecycle_state
    &&& s.device_generation == r.device_generation
    &&& s.transition_counter == r.transition_counter
    &&& s.measurement_epoch == r.measurement_epoch
    &&& s.active_version == r.active_version
    &&& r.receipt_sequence matches Some(q) ==> q == s.receipt_sequence
}

fn optional_bytes_empty(value: &Option<Vec<u8>>) -> (empty: bool)
    ensures
        empty == (value matches Some(c) && c@.len() == 0),
{
    match value {
        Some(c) => c.len() == 0,
        None => false,
    }
}

impl ExecutionReceiptProjection {
    pub open spec fn spec_validate(self) -> Result<(), ValidationError> {
        if self.context.spec_validate() is Err {
            self.context.spec_validate()
        } else if self.context.object_class != ObjectClass::ExecutionReceipt {
            Err(ValidationError::WrongObjectClass)
        } else if self.context.subject.device_generation != self.device_generation
            || !lineage_consistent(self) {
            Err(ValidationError::InconsistentState)
        } else if !receipt_values_present(self) {
            Err(ValidationError::EmptyRequiredValue)
        } else {
            Ok(())
        }
    }

    pub open spec fn spec_validate_release_authority(
        self,
        authority: AuthorityMetadataProjection,
    ) -> Result<(), ValidationError> {
        if self.spec_validate() is Err {
            self.spec_validate()
        } else if authority.spec_validate() is Err {
            authority.spec_validate()
        } else {
            match authority.phase {
                AuthorityPhaseProjection::Committed { selected_next_slot, commit_id, .. } => {
                    if !shared_context_matches(authority.context, self.context) || commit_id
                        != self.authority_commit_id || authority.id_at(selected_next_slot)
                        != Some(self.authority_commit_id) {
                        Err(ValidationError::AuthorityContextMismatch)
                    } else {
                        Ok(())
                    }
                },
                _ => Err(ValidationError::AuthorityPhaseMismatch),
            }
        }
    }

    pub open spec fn spec_validate_authoritative_state(self, state: PersistentStateProjection) -> Result<
        (),
        ValidationError,
    > {
        if self.spec_validate() is Err {
            self.spec_validate()
        } else if state.spec_validate() is Err {
            state.spec_validate()
        } else if !state_releases_receipt(self, state) {
            Err(ValidationError::StateContextMismatch)
        } else {
            Ok(())
        }
    }

    pub open spec fn spec_validate_release(
        self,
        authority: AuthorityMetadataProjection,
        state: PersistentStateProjection,
    ) -> Result<(), ValidationError> {
        if self.spec_validate_release_authority(authority) is Err {
            self.spec_validate_release_authority(authority)
        } else if self.spec_validate_authoritative_state(state) is Err {
            self.spec_validate_authoritative_state(state)
        } else if authority.phase->selected_next_slot != state.slot_id || state.lifecycle_state
            != LifecycleState::Operational {
            Err(ValidationError::StateContextMismatch)
        } else {
            Ok(())
        }
    }

    /// Validate required receipt semantics without serializing the object.
    pub fn validate(&self) -> (res: Result<(), ValidationError>)
        ensures
            res == self.spec_validate(),
    {
        match self.context.validate() {
            Ok(()) => {},
            Err(e) => return Err(e),
        }
        if self.context.object_class != ObjectClass::ExecutionReceipt {
            return Err(ValidationError::WrongObjectClass);
        }
        if self.context.subject.device_generation != self.device_generation {
            return Err(ValidationError::InconsistentState);
        }
        match self.lineage {
            ReceiptLineageContext::KeyGeneration(generation) => {
                if self.context.subject.key_generation != Some(generation) {
                    return Err(ValidationError::InconsistentState);
                }
            },
            ReceiptLineageContext::ProvisioningGeneration(generation) => {
                if self.context.subject.key_generation.is_some() || generation
                    != self.device_generation {
                    return Err(ValidationError::InconsistentState);
                }
            },
        }
        if self.key_identifier.len() == 0 || self.measurement_root.len() == 0
            || self.measurement_context.as_str().is_empty()
            || self.policy_identifier.as_str().is_empty() {
            return Err(ValidationError::EmptyRequiredValue);
        }
        if optional_bytes_empty(&self.input_commitment) || optional_bytes_empty(
            &self.output_commitment,
        ) {
            return Err(ValidationError::EmptyRequiredValue);
        }
        Ok(())
    }

    /// Validate that selector commit in a matching authority object released
    /// this receipt.
    pub fn validate_release_authority(&self, authority: &AuthorityMetadataProjection) -> (res:
        Result<(), ValidationError>)
        ensures
            res == self.spec_validate_release_authority(*authority),
    {
        match self.validate() {
            Ok(()) => {},
            Err(e) => return Err(e),
        }
        match authority.validate() {
            Ok(()) => {},
            Err(e) => return Err(e),
        }
        let (selected_next_slot, commit_id) = match &authority.phase {
            AuthorityPhaseProjection::Committed { selected_next_slot, commit_id, .. } => (
                *selected_next_slot,
                *commit_id,
            ),
            _ => return Err(ValidationError::AuthorityPhaseMismatch),
        };
        let selected_commit_id = authority.record_commit_ids[selected_next_slot as usize];
        if !shared_context_equal(&authority.context, &self.context) || commit_id
            != self.authority_commit_id || selected_commit_id != Some(self.authority_commit_id) {
            return Err(ValidationError::AuthorityContextMismatch);
        }
        Ok(())
    }

    /// Validate every receipt claim represented in the authoritative
    /// persistent snapshot that released it.
    pub fn validate_authoritative_state(&self, state: &PersistentStateProjection) -> (res: Result<
        (),
        ValidationError,
    >)
        ensures
            res == self.spec_validate_authoritative_state(*state),
    {
        match self.validate() {
            Ok(()) => {},
            Err(e) => return Err(e),
        }
        match state.validate() {
            Ok(()) => {},
            Err(e) => return Err(e),
        }
        let sequence_matches = match self.receipt_sequence {
            Some(sequence) => sequence == state.receipt_sequence,
            None => true,
        };
        if !shared_context_equal(&state.context, &self.context) || state.commit_id
            != self.authority_commit_id || !lifecycle_equal(
            state.lifecycle_state,
            self.lifecycle_state,
        ) || state.device_generation != self.device_generation || state.transition_counter
            != self.transition_counter || state.measurement_epoch != self.measurement_epoch
            || state.active_version != self.active_version || !sequence_matches {
            return Err(ValidationError::StateContextMismatch);
        }
        Ok(())
    }

    /// Validate the complete release relationship among receipt, committed
    /// authority metadata, and selected persistent state; only an operational
    /// snapshot releases a receipt.
    pub fn validate_release(
        &self,
        authority: &AuthorityMetadataProjection,
        state: &PersistentStateProjection,
    ) -> (res: Result<(), ValidationError>)
        ensures
            res == self.spec_validate_release(*authority, *state),
    {
        match self.validate_release_authority(authority) {
            Ok(()) => {},
            Err(e) => return Err(e),
        }
        match self.validate_authoritative_state(state) {
            Ok(()) => {},
            Err(e) => return Err(e),
        }
        let selected_next_slot = match &authority.phase {
            AuthorityPhaseProjection::Committed { selected_next_slot, .. } => *selected_next_slot,
            _ => return Err(ValidationError::AuthorityPhaseMismatch),
        };
        if selected_next_slot != state.slot_id || !lifecycle_equal(
            state.lifecycle_state,
            LifecycleState::Operational,
        ) {
            return Err(ValidationError::StateContextMismatch);
        }
        Ok(())
    }
}

impl SemanticObject {
    pub open spec fn spec_validate(self) -> Result<(), ValidationError> {
        match self {
            SemanticObject::PersistentState(state) => state.spec_validate(),
            SemanticObject::AuthorityMetadata(authority) => authority.spec_validate(),
            SemanticObject::ExecutionReceipt(receipt) => receipt.spec_validate(),
        }
    }

    /// Validate the object's semantic invariants without selecting bytes.
    pub fn validate(&self) -> (res: Result<(), ValidationError>)
        ensures
            res == self.spec_validate(),
    {
        match self {
            SemanticObject::PersistentState(state) => state.validate(),
            SemanticObject::AuthorityMetadata(authority) => authority.validate(),
            SemanticObject::ExecutionReceipt(receipt) => receipt.validate(),
        }
    }
}

} // verus!
