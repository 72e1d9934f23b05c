//! Atomic persistence and interruption model layered over the lifecycle
//! model: two complete record slots, one authoritative selector, and abstract
//! integrity verdicts that are oracle inputs, not computed from bytes.
use vstd::prelude::*;
use crate::model::{Command, Execution, LifecycleState, Rejection, StateMachine};

verus! {

/// Durable transaction phase.
#[derive(Clone, Copy, Debug, PartialEq, Eq, Structural)]
pub enum PersistencePhase {
    Clean,
    Prepared { slot: usize, commit_id: u64 },
    Committed { previous_slot: usize, active_slot: usize, commit_id: u64 },
}

/// Outcome produced by the lifecycle model while preparing a record.
#[derive(Clone, Copy, Debug, PartialEq, Eq)]
pub enum CommandOutcome {
    Applied(Execution),
    Rejected(Rejection),
}

/// Persistence-level operation recorded for research inspection.
#[derive(Clone, Copy, Debug, PartialEq, Eq)]
pub enum PersistenceOperation {
    Prepared,
    RejectedWithoutChange,
    SelectorCommitted,
    PreviousRecordCleaned,
    RecoveredStable,
    RecoveredPrevious,
    RecoveredNext,
    RecoveredIntegrityPrevious,
    RecoveredIntegrityNext,
    RecoveredIntegritySoleValid,
}

/// Non-secret persistence audit event.
#[derive(Clone, Copy, Debug, PartialEq, Eq)]
pub struct PersistenceAudit {
    pub operation: PersistenceOperation,
    pub prior_lifecycle: LifecycleState,
    pub resulting_lifecycle: LifecycleState,
    pub commit_id: u64,
}

/// Result of preparing a lifecycle command. The command outcome itself is
/// withheld until selector commit.
#[derive(Clone, Copy, Debug, PartialEq, Eq)]
pub enum PrepareResult {
    Staged { audit: PersistenceAudit },
    NotStaged { rejection: Rejection, audit: PersistenceAudit },
}

/// Result of a selector commit: the released command outcome and its audit.
#[derive(Clone, Copy, Debug, PartialEq, Eq)]
pub struct CommitResult {
    pub outcome: CommandOutcome,
    pub audit: PersistenceAudit,
}

/// Stable persistence-model failure classes.
#[derive(Clone, Copy, Debug, PartialEq, Eq)]
pub enum PersistenceError {
    Busy,
    NoPreparedRecord,
    NoCommittedRecord,
    InvalidSlotIndex,
    CorruptedSelector,
    MissingActiveRecord,
    CorruptedActiveRecord,
    MissingCandidateRecord,
    CorruptedCandidateRecord,
    MissingPreviousRecord,
    UnexpectedRecord,
    SlotConflict,
    SelectorMismatch,
    CommitIdMismatch,
    MissingPreparedOutcome,
    UnexpectedPreparedOutcome,
    CommitIdExhausted,
    SuccessfulCommandWithoutDurableChange,
    NoValidRecord,
    AmbiguousIntegrityRecovery,
}

/// Abstract trusted integrity verdict of a record or of the selector.
#[derive(Clone, Copy, Debug, PartialEq, Eq, Structural)]
pub enum IntegrityVerdict {
    Valid,
    Corrupted,
}

/// One complete logical record.
#[derive(Clone, Copy, Debug, PartialEq, Eq)]
pub struct Record {
    pub commit_id: u64,
    pub state: StateMachine,
    pub integrity: IntegrityVerdict,
}

/// Typed integrity faults for exercising recovery policy in tests.
#[derive(Clone, Copy, Debug, PartialEq, Eq)]
pub enum IntegrityTestFault {
    /// Mark the selected record corrupted.
    ActiveRecord,
    /// Mark the unselected record corrupted.
    InactiveRecord,
    /// Mark the selector corrupted.
    Selector,
    /// Mark every present record corrupted.
    AllRecords,
    /// Copy the selected record into the unselected slot.
    DuplicateActiveRecord,
}

/// Two-slot durable state model with an abstract atomic selector.
///
/// Every field is visible so that malformed phase, selector and record
/// relationships can be constructed directly; every operation returns a
/// stable error for them without panicking or mutating the model.
#[derive(Clone, Copy, Debug, PartialEq, Eq)]
pub struct DurableModel {
    pub slots: [Option<Record>; 2],
    pub active_slot: usize,
    pub selector_integrity: IntegrityVerdict,
    pub phase: PersistencePhase,
    pub prepared_outcome: Option<CommandOutcome>,
}

/// Mathematical view of a durable model.
pub struct DurableView {
    pub slots: Seq<Option<Record>>,
    pub active_slot: usize,
    pub selector_integrity: IntegrityVerdict,
    pub phase: PersistencePhase,
    pub prepared_outcome: Option<CommandOutcome>,
}

impl View for DurableModel {
    type V = DurableView;

    open spec fn view(&self) -> DurableView {
        DurableView {
            slots: self.slots@,
            active_slot: self.active_slot,
            selector_integrity: self.selector_integrity,
            phase: self.phase,
            prepared_outcome: self.prepared_outcome,
        }
    }
}

/// `next` is the checked successor of `previous`.
pub open spec fn successor(previous: u64, next: u64) -> bool {
    previous < u64::MAX && next == previous + 1
}

/// The command outcome recorded for a lifecycle result.
pub open spec fn outcome_of(result: Result<Execution, Rejection>) -> CommandOutcome {
    match result {
        Ok(execution) => CommandOutcome::Applied(execution),
        Err(rejection) => CommandOutcome::Rejected(rejection),
    }
}

pub open spec fn audit(
    operation: PersistenceOperation,
    prior: LifecycleState,
    resulting: LifecycleState,
    commit_id: u64,
) -> PersistenceAudit {
    PersistenceAudit {
        operation,
        prior_lifecycle: prior,
        resulting_lifecycle: resulting,
        commit_id,
    }
}

impl DurableView {
    pub open spec fn present(self, i: int) -> bool {
        self.slots[i] is Some
    }

    pub open spec fn valid(self, i: int) -> bool {
        self.slots[i] is Some && self.slots[i]->0.integrity == IntegrityVerdict::Valid
    }

    pub open spec fn rec(self, i: int) -> Record {
        self.slots[i]->0
    }

    pub open spec fn selector_valid(self) -> bool {
        self.selector_integrity == IntegrityVerdict::Valid
    }

    /// The selected record is in range, trustworthy and complete.
    pub open spec fn check_active(self) -> Result<(), PersistenceError> {
        if self.active_slot > 1 {
            Err(PersistenceError::InvalidSlotIndex)
        } else if !self.selector_valid() {
            Err(PersistenceError::CorruptedSelector)
        } else if !self.present(self.active_slot as int) {
            Err(PersistenceError::MissingActiveRecord)
        } else if !self.valid(self.active_slot as int) {
            Err(PersistenceError::CorruptedActiveRecord)
        } else {
            Ok(())
        }
    }

    /// The complete phase/selector/record invariant required before any
    /// ordinary operation reads, selects, or clears a record.
    pub open spec fn check(self) -> Result<(), PersistenceError> {
        if self.check_active() is Err {
            self.check_active()
        } else {
            let active = self.active_slot as int;
            match self.phase {
                PersistencePhase::Clean => {
                    if self.prepared_outcome is Some {
                        Err(PersistenceError::UnexpectedPreparedOutcome)
                    } else if self.present(1 - active) {
                        Err(PersistenceError::UnexpectedRecord)
                    } else {
                        Ok(())
                    }
                },
                PersistencePhase::Prepared { slot, commit_id } => {
                    if slot > 1 {
                        Err(PersistenceError::InvalidSlotIndex)
                    } else if slot == self.active_slot {
                        Err(PersistenceError::SlotConflict)
                    } else if self.prepared_outcome is None {
                        Err(PersistenceError::MissingPreparedOutcome)
                    } else if !self.present(slot as int) {
                        Err(PersistenceError::MissingCandidateRecord)
                    } else if !self.valid(slot as int) {
                        Err(PersistenceError::CorruptedCandidateRecord)
                    } else if !successor(self.rec(active).commit_id, commit_id) || self.rec(
                        slot as int,
                    ).commit_id != commit_id {
                        Err(PersistenceError::CommitIdMismatch)
                    } else {
                        Ok(())
                    }
                },
                PersistencePhase::Committed { previous_slot, active_slot: selected, commit_id } => {
                    if previous_slot > 1 || selected > 1 {
                        Err(PersistenceError::InvalidSlotIndex)
                    } else if selected != self.active_slot {
                        Err(PersistenceError::SelectorMismatch)
                    } else if previous_slot == selected {
                        Err(PersistenceError::SlotConflict)
                    } else if self.prepared_outcome is Some {
                        Err(PersistenceError::UnexpectedPreparedOutcome)
                    } else if !self.present(previous_slot as int) {
                        Err(PersistenceError::MissingPreviousRecord)
                    } else if self.rec(active).commit_id != commit_id || (self.valid(
                        previous_slot as int,
                    ) && !successor(self.rec(previous_slot as int).commit_id, commit_id)) {
                        Err(PersistenceError::CommitIdMismatch)
                    } else {
                        Ok(())
                    }
                },
            }
        }
    }

    /// The authoritative lifecycle state, once the invariant holds.
    pub open spec fn authoritative(self) -> Result<Record, PersistenceError> {
        if self.check() is Err {
            Err(self.check()->Err_0)
        } else {
            Ok(self.rec(self.active_slot as int))
        }
    }

    pub open spec fn spec_prepare(self, command: Command) -> (
        DurableView,
        Result<PrepareResult, PersistenceError>,
    ) {
        if !(self.phase is Clean) {
            (self, Err(PersistenceError::Busy))
        } else if self.check() is Err {
            (self, Err(self.check()->Err_0))
        } else {
            let active = self.rec(self.active_slot as int);
            let (candidate, result) = active.state.spec_apply(command);
            let prior = active.state.lifecycle;
            let resulting = candidate.lifecycle;
            if candidate == active.state {
                match result {
                    Err(rejection) => (
                        self,
                        Ok(
                            PrepareResult::NotStaged {
                                rejection,
                                audit: audit(
                                    PersistenceOperation::RejectedWithoutChange,
                                    prior,
                                    resulting,
                                    active.commit_id,
                                ),
                            },
                        ),
                    ),
                    Ok(_) => (self, Err(PersistenceError::SuccessfulCommandWithoutDurableChange)),
                }
            } else if active.commit_id == u64::MAX {
                (self, Err(PersistenceError::CommitIdExhausted))
            } else {
                let commit_id = (active.commit_id + 1) as u64;
                let slot = (1 - self.active_slot) as usize;
                (
                    DurableView {
                        slots: self.slots.update(
                            slot as int,
                            Some(
                                Record {
                                    commit_id,
                                    state: candidate,
                                    integrity: IntegrityVerdict::Valid,
                                },
                            ),
                        ),
                        phase: PersistencePhase::Prepared { slot, commit_id },
                        prepared_outcome: Some(outcome_of(result)),
                        ..self
                    },
                    Ok(
                        PrepareResult::Staged {
                            audit: audit(PersistenceOperation::Prepared, prior, resulting, commit_id),
                        },
                    ),
                )
            }
        }
    }

    pub open spec fn spec_commit(self) -> (DurableView, Result<CommitResult, PersistenceError>) {
        match self.phase {
            PersistencePhase::Prepared { slot, commit_id } => {
                if self.check() is Err {
                    (self, Err(self.check()->Err_0))
                } else {
                    (
                        DurableView {
                            active_slot: slot,
                            phase: PersistencePhase::Committed {
                                previous_slot: self.active_slot,
                                active_slot: slot,
                                commit_id,
                            },
                            prepared_outcome: None,
                            ..self
                        },
                        Ok(
                            CommitResult {
                                outcome: self.prepared_outcome->0,
                                audit: audit(
                                    PersistenceOperation::SelectorCommitted,
                                    self.rec(self.active_slot as int).state.lifecycle,
                                    self.rec(slot as int).state.lifecycle,
                                    commit_id,
                                ),
                            },
                        ),
                    )
                }
            },
            _ => (self, Err(PersistenceError::NoPreparedRecord)),
        }
    }

    pub open spec fn spec_cleanup(self) -> (DurableView, Result<PersistenceAudit, PersistenceError>) {
        match self.phase {
            PersistencePhase::Committed { previous_slot, commit_id, .. } => {
                if self.check() is Err {
                    (self, Err(self.check()->Err_0))
                } else {
                    let selected = self.rec(self.active_slot as int).state.lifecycle;
                    let prior = if self.valid(previous_slot as int) {
                        self.rec(previous_slot as int).state.lifecycle
                    } else {
                        selected
                    };
                    (
                        DurableView {
                            slots: self.slots.update(previous_slot as int, None),
                            phase: PersistencePhase::Clean,
                            ..self
                        },
                        Ok(
                            audit(
                                PersistenceOperation::PreviousRecordCleaned,
                                prior,
                                selected,
                                commit_id,
                            ),
                        ),
                    )
                }
            },
            _ => (self, Err(PersistenceError::NoCommittedRecord)),
        }
    }

    /// The clean model in which `selected` is authoritative and `discarded`
    /// is erased.
    pub open spec fn settled(self, selected: usize, discarded: int) -> DurableView {
        DurableView {
            slots: self.slots.update(discarded, None),
            active_slot: selected,
            selector_integrity: IntegrityVerdict::Valid,
            phase: PersistencePhase::Clean,
            prepared_outcome: None,
        }
    }

    /// Recovery of a clean model: with a valid selector the valid selected
    /// record stays authoritative and the model is left exactly as it is,
    /// including any record in the other slot; with a corrupted selector the
    /// single valid record is selected and the other slot erased.
    pub open spec fn spec_recover_clean(self) -> (
        DurableView,
        Result<PersistenceAudit, PersistenceError>,
    ) {
        if self.prepared_outcome is Some {
            (self, Err(PersistenceError::UnexpectedPreparedOutcome))
        } else if self.selector_valid() {
            let active = self.active_slot as int;
            if self.active_slot > 1 {
                (self, Err(PersistenceError::InvalidSlotIndex))
            } else if !self.present(active) {
                (self, Err(PersistenceError::MissingActiveRecord))
            } else if !self.valid(active) {
                (self, Err(PersistenceError::CorruptedActiveRecord))
            } else {
                let r = self.rec(active);
                (
                    self,
                    Ok(
                        audit(
                            PersistenceOperation::RecoveredStable,
                            r.state.lifecycle,
                            r.state.lifecycle,
                            r.commit_id,
                        ),
                    ),
                )
            }
        } else if !self.valid(0) && !self.valid(1) {
            (self, Err(PersistenceError::NoValidRecord))
        } else if self.valid(0) && self.valid(1) {
            (self, Err(PersistenceError::AmbiguousIntegrityRecovery))
        } else {
            let selected: usize = if self.valid(0) {
                0
            } else {
                1
            };
            let r = self.rec(selected as int);
            (
                self.settled(selected, 1 - selected),
                Ok(
                    audit(
                        PersistenceOperation::RecoveredIntegritySoleValid,
                        r.state.lifecycle,
                        r.state.lifecycle,
                        r.commit_id,
                    ),
                ),
            )
        }
    }

    pub open spec fn spec_recover_prepared(self, slot: usize, commit_id: u64) -> (
        DurableView,
        Result<PersistenceAudit, PersistenceError>,
    ) {
        if self.prepared_outcome is None {
            (self, Err(PersistenceError::MissingPreparedOutcome))
        } else if slot > 1 {
            (self, Err(PersistenceError::InvalidSlotIndex))
        } else if self.selector_valid() && self.active_slot > 1 {
            (self, Err(PersistenceError::InvalidSlotIndex))
        } else if self.selector_valid() && self.active_slot == slot {
            (self, Err(PersistenceError::SlotConflict))
        } else {
            let previous: usize = if self.selector_valid() {
                self.active_slot
            } else {
                (1 - slot) as usize
            };
            if !self.present(previous as int) {
                (self, Err(PersistenceError::MissingActiveRecord))
            } else if !self.valid(previous as int) {
                (self, Err(PersistenceError::CorruptedActiveRecord))
            } else if !successor(self.rec(previous as int).commit_id, commit_id) {
                (self, Err(PersistenceError::CommitIdMismatch))
            } else if !self.present(slot as int) {
                (self, Err(PersistenceError::MissingCandidateRecord))
            } else if self.valid(slot as int) && self.rec(slot as int).commit_id != commit_id {
                (self, Err(PersistenceError::CommitIdMismatch))
            } else {
                let kept = self.rec(previous as int);
                let operation = if self.selector_valid() && self.valid(slot as int) {
                    PersistenceOperation::RecoveredPrevious
                } else {
                    PersistenceOperation::RecoveredIntegrityPrevious
                };
                let prior = if self.valid(slot as int) {
                    self.rec(slot as int).state.lifecycle
                } else {
                    kept.state.lifecycle
                };
                (
                    self.settled(previous, slot as int),
                    Ok(audit(operation, prior, kept.state.lifecycle, kept.commit_id)),
                )
            }
        }
    }

    pub open spec fn spec_recover_committed(
        self,
        previous_slot: usize,
        selected: usize,
        commit_id: u64,
    ) -> (DurableView, Result<PersistenceAudit, PersistenceError>) {
        if self.prepared_outcome is Some {
            (self, Err(PersistenceError::UnexpectedPreparedOutcome))
        } else if previous_slot > 1 || selected > 1 {
            (self, Err(PersistenceError::InvalidSlotIndex))
        } else if self.selector_valid() && self.active_slot != selected {
            (self, Err(PersistenceError::SelectorMismatch))
        } else if previous_slot == selected {
            (self, Err(PersistenceError::SlotConflict))
        } else if !self.present(selected as int) {
            (self, Err(PersistenceError::MissingActiveRecord))
        } else if !self.valid(selected as int) {
            (self, Err(PersistenceError::CorruptedActiveRecord))
        } else if !self.present(previous_slot as int) {
            (self, Err(PersistenceError::MissingPreviousRecord))
        } else if self.rec(selected as int).commit_id != commit_id || (self.valid(
            previous_slot as int,
        ) && !successor(self.rec(previous_slot as int).commit_id, commit_id)) {
            (self, Err(PersistenceError::CommitIdMismatch))
        } else {
            let kept = self.rec(selected as int);
            let operation = if self.selector_valid() && self.valid(previous_slot as int) {
                PersistenceOperation::RecoveredNext
            } else {
                PersistenceOperation::RecoveredIntegrityNext
            };
            let prior = if self.valid(previous_slot as int) {
                self.rec(previous_slot as int).state.lifecycle
            } else {
                kept.state.lifecycle
            };
            (
                self.settled(selected, previous_slot as int),
                Ok(audit(operation, prior, kept.state.lifecycle, kept.commit_id)),
            )
        }
    }

    /// Interruption recovery: the previous authoritative record, the selected
    /// next record, or a stable error that leaves everything unchanged.
    pub open spec fn spec_recover(self) -> (DurableView, Result<PersistenceAudit, PersistenceError>) {
        match self.phase {
            PersistencePhase::Clean => self.spec_recover_clean(),
            PersistencePhase::Prepared { slot, commit_id } => self.spec_recover_prepared(
                slot,
                commit_id,
            ),
            PersistencePhase::Committed { previous_slot, active_slot, commit_id } =>
                self.spec_recover_committed(previous_slot, active_slot, commit_id),
        }
    }

    pub open spec fn spec_inject(self, fault: IntegrityTestFault) -> (
        DurableView,
        Result<(), PersistenceError>,
    ) {
        let active = self.active_slot as int;
        match fault {
            IntegrityTestFault::Selector => (
                DurableView { selector_integrity: IntegrityVerdict::Corrupted, ..self },
                Ok(()),
            ),
            IntegrityTestFault::AllRecords => (
                DurableView {
                    slots: Seq::new(
                        2,
                        |i: int|
                            match self.slots[i] {
                                Some(r) => Some(
                                    Record { integrity: IntegrityVerdict::Corrupted, ..r },
                                ),
                                None => None,
                            },
                    ),
                    ..self
                },
                Ok(()),
            ),
            _ => {
                if self.active_slot > 1 {
                    (self, Err(PersistenceError::InvalidSlotIndex))
                } else if !self.present(active) {
                    (self, Err(PersistenceError::MissingActiveRecord))
                } else {
                    match fault {
                        IntegrityTestFault::ActiveRecord => (
                            DurableView {
                                slots: self.slots.update(
                                    active,
                                    Some(
                                        Record {
                                            integrity: IntegrityVerdict::Corrupted,
                                            ..self.rec(active)
                                        },
                                    ),
                                ),
                                ..self
                            },
                            Ok(()),
                        ),
                        IntegrityTestFault::InactiveRecord => {
                            if !self.present(1 - active) {
                                (self, Err(PersistenceError::MissingCandidateRecord))
                            } else {
                                (
                                    DurableView {
                                        slots: self.slots.update(
                                            1 - active,
                                            Some(
                                                Record {
                                                    integrity: IntegrityVerdict::Corrupted,
                                                    ..self.rec(1 - active)
                                                },
                                            ),
                                        ),
                                        ..self
                                    },
                                    Ok(()),
                                )
                            }
                        },
                        _ => (
                            DurableView {
                                slots: self.slots.update(1 - active, self.slots[active]),
                                ..self
                            },
                            Ok(()),
                        ),
                    }
                }
            },
        }
    }
}

impl DurableModel {
    /// A clean model whose only record, commit identifier 0, is `initial_state`.
    #[must_use]
    pub fn new(initial_state: StateMachine) -> (model: Self)
        ensures
            model@.slots == seq![
                Some(
                    Record {
                        commit_id: 0,
                        state: initial_state,
                        integrity: IntegrityVerdict::Valid,
                    },
                ),
                None,
            ],
            model@.active_slot == 0,
            model@.selector_integrity == IntegrityVerdict::Valid,
            model@.phase == PersistencePhase::Clean,
            model@.prepared_outcome is None,
    {
        let model = DurableModel {
            slots: [
                Some(
                    Record {
                        commit_id: 0,
                        state: initial_state,
                        integrity: IntegrityVerdict::Valid,
                    },
                ),
                None,
            ],
            active_slot: 0,
            selector_integrity: IntegrityVerdict::Valid,
            phase: PersistencePhase::Clean,
            prepared_outcome: None,
        };
        assert(model@.slots =~= seq![model.slots[0], model.slots[1]]);
        model
    }

    #[must_use]
    pub fn phase(&self) -> (phase: PersistencePhase)
        ensures
            phase == self.phase,
    {
        self.phase
    }

    /// Validate the complete phase/selector/record invariant.
    fn check(&self) -> (res: Result<(), PersistenceError>)
        ensures
            res == self@.check(),
    {
        if self.active_slot > 1 {
            return Err(PersistenceError::InvalidSlotIndex);
        }
        if self.selector_integrity != IntegrityVerdict::Valid {
            return Err(PersistenceError::CorruptedSelector);
        }
        let active = self.active_slot;
        let active_record = match &self.slots[active] {
            Some(r) => *r,
            None => return Err(PersistenceError::MissingActiveRecord),
        };
        if active_record.integrity != IntegrityVerdict::Valid {
            return Err(PersistenceError::CorruptedActiveRecord);
        }
        match self.phase {
            PersistencePhase::Clean => {
                if self.prepared_outcome.is_some() {
                    return Err(PersistenceError::UnexpectedPreparedOutcome);
                }
                if self.slots[1 - active].is_some() {
                    return Err(PersistenceError::UnexpectedRecord);
                }
                Ok(())
            },
            PersistencePhase::Prepared { slot, commit_id } => {
                if slot > 1 {
                    return Err(PersistenceError::InvalidSlotIndex);
                }
                if slot == active {
                    return Err(PersistenceError::SlotConflict);
                }
                if self.prepared_outcome.is_none() {
                    return Err(PersistenceError::MissingPreparedOutcome);
                }
                let candidate = match &self.slots[slot] {
                    Some(r) => *r,
                    None => return Err(PersistenceError::MissingCandidateRecord),
                };
                if candidate.integrity != IntegrityVerdict::Valid {
                    return Err(PersistenceError::CorruptedCandidateRecord);
                }
                if active_record.commit_id == u64::MAX || active_record.commit_id + 1 != commit_id
                    || candidate.commit_id != commit_id {
                    return Err(PersistenceError::CommitIdMismatch);
                }
                Ok(())
            },
            PersistencePhase::Committed { previous_slot, active_slot: selected, commit_id } => {
                if previous_slot > 1 || selected > 1 {
                    return Err(PersistenceError::InvalidSlotIndex);
                }
                if selected != active {
                    return Err(PersistenceError::SelectorMismatch);
                }
                if previous_slot == selected {
                    return Err(PersistenceError::SlotConflict);
                }
                if self.prepared_outcome.is_some() {
                    return Err(PersistenceError::UnexpectedPreparedOutcome);
                }
                let previous = match &self.slots[previous_slot] {
                    Some(r) => *r,
                    None => return Err(PersistenceError::MissingPreviousRecord),
                };
                if active_record.commit_id != commit_id {
                    return Err(PersistenceError::CommitIdMismatch);
                }
                if previous.integrity == IntegrityVerdict::Valid && (previous.commit_id
                    == u64::MAX || previous.commit_id + 1 != commit_id) {
                    return Err(PersistenceError::CommitIdMismatch);
                }
                Ok(())
            },
        }
    }

    /// The authoritative record, after validating the complete invariant.
    fn authoritative(&self) -> (res: Result<&Record, PersistenceError>)
        ensures
            match res {
                Ok(r) => self@.authoritative() == Ok::<Record, PersistenceError>(*r),
                Err(e) => self@.authoritative() == Err::<Record, PersistenceError>(e),
            },
    {
        match self.check() {
            Ok(()) => {},
            Err(e) => return Err(e),
        }
        match &self.slots[self.active_slot] {
            Some(r) => Ok(r),
            None => Err(PersistenceError::MissingActiveRecord),
        }
    }

    /// Return the currently authoritative lifecycle state.
    ///
    /// Fails with a stable error unless the complete invariant holds; a
    /// corrupted selected record is never returned.
    pub fn active_state(&self) -> (res: Result<&StateMachine, PersistenceError>)
        ensures
            match res {
                Ok(state) => self@.authoritative() matches Ok(r) && r.state == *state,
                Err(e) => self@.authoritative() == Err::<Record, PersistenceError>(e),
            },
    {
        match self.authoritative() {
            Ok(r) => Ok(&r.state),
            Err(e) => Err(e),
        }
    }

    /// Return the currently authoritative logical commit identifier.
    pub fn active_commit_id(&self) -> (res: Result<u64, PersistenceError>)
        ensures
            match res {
                Ok(id) => self@.authoritative() matches Ok(r) && r.commit_id == id,
                Err(e) => self@.authoritative() == Err::<Record, PersistenceError>(e),
            },
    {
        match self.authoritative() {
            Ok(r) => Ok(r.commit_id),
            Err(e) => Err(e),
        }
    }

    /// Execute a command against a copy of the authoritative state and stage
    /// any resulting durable state in the inactive slot. The command outcome
    /// is withheld until selector commit.
    pub fn prepare(&mut self, command: Command) -> (res: Result<PrepareResult, PersistenceError>)
        ensures
            (final(self)@, res) == old(self)@.spec_prepare(command),
    {
        if self.phase != PersistencePhase::Clean {
            return Err(PersistenceError::Busy);
        }
        let active = match self.authoritative() {
            Ok(r) => *r,
            Err(e) => return Err(e),
        };
        let prior_lifecycle = active.state.lifecycle();
        let mut candidate = active.state;
        let command_result = candidate.apply(command);
        let resulting_lifecycle = candidate.lifecycle();
        if candidate == active.state {
            return match command_result {
                Err(rejection) => Ok(
                    PrepareResult::NotStaged {
                        rejection,
                        audit: PersistenceAudit {
                            operation: PersistenceOperation::RejectedWithoutChange,
                            prior_lifecycle,
                            resulting_lifecycle,
                            commit_id: active.commit_id,
                        },
                    },
                ),
                Ok(_) => Err(PersistenceError::SuccessfulCommandWithoutDurableChange),
            };
        }
        let commit_id = match active.commit_id.checked_add(1) {
            Some(id) => id,
            None => return Err(PersistenceError::CommitIdExhausted),
        };
        let candidate_slot = 1 - self.active_slot;
        self.slots[candidate_slot] = Some(
            Record { commit_id, state: candidate, integrity: IntegrityVerdict::Valid },
        );
        self.phase = PersistencePhase::Prepared { slot: candidate_slot, commit_id };
        self.prepared_outcome = Some(
            match command_result {
                Ok(execution) => CommandOutcome::Applied(execution),
                Err(rejection) => CommandOutcome::Rejected(rejection),
            },
        );
        Ok(
            PrepareResult::Staged {
                audit: PersistenceAudit {
                    operation: PersistenceOperation::Prepared,
                    prior_lifecycle,
                    resulting_lifecycle,
                    commit_id,
                },
            },
        )
    }

    /// Atomically select the prepared record as authoritative and release
    /// the withheld command outcome.
    pub fn commit(&mut self) -> (res: Result<CommitResult, PersistenceError>)
        ensures
            (final(self)@, res) == old(self)@.spec_commit(),
    {
        let (slot, commit_id) = match self.phase {
            PersistencePhase::Prepared { slot, commit_id } => (slot, commit_id),
            _ => return Err(PersistenceError::NoPreparedRecord),
        };
        match self.check() {
            Ok(()) => {},
            Err(e) => return Err(e),
        }
        let previous = match &self.slots[self.active_slot] {
            Some(r) => r.state.lifecycle(),
            None => return Err(PersistenceError::MissingActiveRecord),
        };
        let next = match &self.slots[slot] {
            Some(r) => r.state.lifecycle(),
            None => return Err(PersistenceError::MissingCandidateRecord),
        };
        let outcome = match self.prepared_outcome {
            Some(o) => o,
            None => return Err(PersistenceError::MissingPreparedOutcome),
        };
        let previous_slot = self.active_slot;
        self.active_slot = slot;
        self.phase = PersistencePhase::Committed { previous_slot, active_slot: slot, commit_id };
        self.prepared_outcome = None;
        Ok(
            CommitResult {
                outcome,
                audit: PersistenceAudit {
                    operation: PersistenceOperation::SelectorCommitted,
                    prior_lifecycle: previous,
                    resulting_lifecycle: next,
                    commit_id,
                },
            },
        )
    }

    /// Erase the obsolete previous record and return to a clean state.
    pub fn cleanup(&mut self) -> (res: Result<PersistenceAudit, PersistenceError>)
        ensures
            (final(self)@, res) == old(self)@.spec_cleanup(),
    {
        let (previous_slot, commit_id) = match self.phase {
            PersistencePhase::Committed { previous_slot, commit_id, .. } => (
                previous_slot,
                commit_id,
            ),
            _ => return Err(PersistenceError::NoCommittedRecord),
        };
        match self.check() {
            Ok(()) => {},
            Err(e) => return Err(e),
        }
        let selected = match &self.slots[self.active_slot] {
            Some(r) => r.state.lifecycle(),
            None => return Err(PersistenceError::MissingActiveRecord),
        };
        let prior = match &self.slots[previous_slot] {
            Some(r) => if r.integrity == IntegrityVerdict::Valid {
                r.state.lifecycle()
            } else {
                selected
            },
            None => selected,
        };
        self.slots[previous_slot] = None;
        self.phase = PersistencePhase::Clean;
        Ok(
            PersistenceAudit {
                operation: PersistenceOperation::PreviousRecordCleaned,
                prior_lifecycle: prior,
                resulting_lifecycle: selected,
                commit_id,
            },
        )
    }

    /// Whether slot `i` holds a record with a valid verdict.
    fn slot_valid(&self, i: usize) -> (valid: bool)
        requires
            i < 2,
        ensures
            valid == self@.valid(i as int),
    {
        match &self.slots[i] {
            Some(r) => r.integrity == IntegrityVerdict::Valid,
            None => false,
        }
    }

    /// Make `selected` authoritative, erase `discarded`, and return to clean.
    fn settle(&mut self, selected: usize, discarded: usize)
        requires
            discarded < 2,
        ensures
            final(self)@ == old(self)@.settled(selected, discarded as int),
    {
        self.slots[discarded] = None;
        self.active_slot = selected;
        self.selector_integrity = IntegrityVerdict::Valid;
        self.phase = PersistencePhase::Clean;
        self.prepared_outcome = None;
    }

    fn recover_clean(&mut self) -> (res: Result<PersistenceAudit, PersistenceError>)
        requires
            old(self).phase == PersistencePhase::Clean,
        ensures
            (final(self)@, res) == old(self)@.spec_recover_clean(),
    {
        if self.prepared_outcome.is_some() {
            return Err(PersistenceError::UnexpectedPreparedOutcome);
        }
        if self.selector_integrity == IntegrityVerdict::Valid {
            if self.active_slot > 1 {
                return Err(PersistenceError::InvalidSlotIndex);
            }
            let r = match &self.slots[self.active_slot] {
                Some(r) => *r,
                None => return Err(PersistenceError::MissingActiveRecord),
            };
            if r.integrity != IntegrityVerdict::Valid {
                return Err(PersistenceError::CorruptedActiveRecord);
            }
            return Ok(
                PersistenceAudit {
                    operation: PersistenceOperation::RecoveredStable,
                    prior_lifecycle: r.state.lifecycle(),
                    resulting_lifecycle: r.state.lifecycle(),
                    commit_id: r.commit_id,
                },
            );
        }
        let valid0 = self.slot_valid(0);
        let valid1 = self.slot_valid(1);
        if !valid0 && !valid1 {
            return Err(PersistenceError::NoValidRecord);
        }
        if valid0 && valid1 {
            return Err(PersistenceError::AmbiguousIntegrityRecovery);
        }
        let selected: usize = if valid0 {
            0
        } else {
            1
        };
        let r = match &self.slots[selected] {
            Some(r) => *r,
            None => return Err(PersistenceError::NoValidRecord),
        };
        self.settle(selected, 1 - selected);
        Ok(
            PersistenceAudit {
                operation: PersistenceOperation::RecoveredIntegritySoleValid,
                prior_lifecycle: r.state.lifecycle(),
                resulting_lifecycle: r.state.lifecycle(),
                commit_id: r.commit_id,
            },
        )
    }

    fn recover_prepared(&mut self, slot: usize, commit_id: u64) -> (res: Result<
        PersistenceAudit,
        PersistenceError,
    >)
        ensures
            (final(self)@, res) == old(self)@.spec_recover_prepared(slot, commit_id),
    {
        if self.prepared_outcome.is_none() {
            return Err(PersistenceError::MissingPreparedOutcome);
        }
        if slot > 1 {
            return Err(PersistenceError::InvalidSlotIndex);
        }
        let selector_valid = self.selector_integrity == IntegrityVerdict::Valid;
        if selector_valid && self.active_slot > 1 {
            return Err(PersistenceError::InvalidSlotIndex);
        }
        if selector_valid && self.active_slot == slot {
            return Err(PersistenceError::SlotConflict);
        }
        let previous: usize = if selector_valid {
            self.active_slot
        } else {
            1 - slot
        };
        let kept = match &self.slots[previous] {
            Some(r) => *r,
            None => return Err(PersistenceError::MissingActiveRecord),
        };
        if kept.integrity != IntegrityVerdict::Valid {
            return Err(PersistenceError::CorruptedActiveRecord);
        }
        if kept.commit_id == u64::MAX || kept.commit_id + 1 != commit_id {
            return Err(PersistenceError::CommitIdMismatch);
        }
        let candidate = match &self.slots[slot] {
            Some(r) => *r,
            None => return Err(PersistenceError::MissingCandidateRecord),
        };
        let candidate_valid = candidate.integrity == IntegrityVerdict::Valid;
        if candidate_valid && candidate.commit_id != commit_id {
            return Err(PersistenceError::CommitIdMismatch);
        }
        let operation = if selector_valid && candidate_valid {
            PersistenceOperation::RecoveredPrevious
        } else {
            PersistenceOperation::RecoveredIntegrityPrevious
        };
        let prior = if candidate_valid {
            candidate.state.lifecycle()
        } else {
            kept.state.lifecycle()
        };
        self.settle(previous, slot);
        Ok(
            PersistenceAudit {
                operation,
                prior_lifecycle: prior,
                resulting_lifecycle: kept.state.lifecycle(),
                commit_id: kept.commit_id,
            },
        )
    }

    fn recover_committed(&mut self, previous_slot: usize, selected: usize, commit_id: u64) -> (res:
        Result<PersistenceAudit, PersistenceError>)
        ensures
            (final(self)@, res) == old(self)@.spec_recover_committed(
                previous_slot,
                selected,
                commit_id,
            ),
    {
        if self.prepared_outcome.is_some() {
            return Err(PersistenceError::UnexpectedPreparedOutcome);
        }
        if previous_slot > 1 || selected > 1 {
            return Err(PersistenceError::InvalidSlotIndex);
        }
        let selector_valid = self.selector_integrity == IntegrityVerdict::Valid;
        if selector_valid && self.active_slot != selected {
            return Err(PersistenceError::SelectorMismatch);
        }
        if previous_slot == selected {
            return Err(PersistenceError::SlotConflict);
        }
        let kept = match &self.slots[selected] {
            Some(r) => *r,
            None => return Err(PersistenceError::MissingActiveRecord),
        };
        if kept.integrity != IntegrityVerdict::Valid {
            return Err(PersistenceError::CorruptedActiveRecord);
        }
        let previous = match &self.slots[previous_slot] {
            Some(r) => *r,
            None => return Err(PersistenceError::MissingPreviousRecord),
        };
        let previous_valid = previous.integrity == IntegrityVerdict::Valid;
        if kept.commit_id != commit_id {
            return Err(PersistenceError::CommitIdMismatch);
        }
        if previous_valid && (previous.commit_id == u64::MAX || previous.commit_id + 1
            != commit_id) {
            return Err(PersistenceError::CommitIdMismatch);
        }
        let operation = if selector_valid && previous_valid {
            PersistenceOperation::RecoveredNext
        } else {
            PersistenceOperation::RecoveredIntegrityNext
        };
        let prior = if previous_valid {
            previous.state.lifecycle()
        } else {
            kept.state.lifecycle()
        };
        self.settle(selected, previous_slot);
        Ok(
            PersistenceAudit {
                operation,
                prior_lifecycle: prior,
                resulting_lifecycle: kept.state.lifecycle(),
                commit_id: kept.commit_id,
            },
        )
    }

    /// Simulate power loss and recover according to the authoritative
    /// selector, or, when the selector verdict is corrupted, according to
    /// unambiguous phase authority.
    ///
    /// Every failure is a stable error that leaves the model unchanged.
    pub fn crash_and_recover(&mut self) -> (res: Result<PersistenceAudit, PersistenceError>)
        ensures
            (final(self)@, res) == old(self)@.spec_recover(),
    {
        match self.phase {
            PersistencePhase::Clean => self.recover_clean(),
            PersistencePhase::Prepared { slot, commit_id } => self.recover_prepared(slot, commit_id),
            PersistencePhase::Committed { previous_slot, active_slot, commit_id } => {
                self.recover_committed(previous_slot, active_slot, commit_id)
            },
        }
    }

    /// Inject a typed integrity fault for tests of recovery policy.
    ///
    /// This is not a runtime corruption detector and never a state-loading
    /// API.
    pub fn inject_test_fault(&mut self, fault: IntegrityTestFault) -> (res: Result<
        (),
        PersistenceError,
    >)
        ensures
            (final(self)@, res) == old(self)@.spec_inject(fault),
    {
        match fault {
            IntegrityTestFault::Selector => {
                self.selector_integrity = IntegrityVerdict::Corrupted;
                return Ok(());
            },
            IntegrityTestFault::AllRecords => {
                let ghost before = self@;
                let mut i: usize = 0;
                while i < 2
                    invariant
                        i <= 2,
                        self@.slots.len() == 2,
                        self@ == (DurableView { slots: self@.slots, ..before }),
                        forall|j: int|
                            0 <= j < i ==> self@.slots[j] == match before.slots[j] {
                                Some(r) => Some(
                                    Record { integrity: IntegrityVerdict::Corrupted, ..r },
                                ),
                                None => None,
                            },
                        forall|j: int| i <= j < 2 ==> self@.slots[j] == before.slots[j],
                    decreases 2 - i,
                {
                    match self.slots[i] {
                        Some(r) => {
                            self.slots[i] = Some(
                                Record { integrity: IntegrityVerdict::Corrupted, ..r },
                            );
                        },
                        None => {},
                    }
                    i = i + 1;
                }
                assert(self@.slots =~= Seq::new(
                    2,
                    |j: int|
                        match before.slots[j] {
                            Some(r) => Some(Record { integrity: IntegrityVerdict::Corrupted, ..r }),
                            None => None,
                        },
                ));
                return Ok(());
            },
            _ => {},
        }
        if self.active_slot > 1 {
            return Err(PersistenceError::InvalidSlotIndex);
        }
        let active = self.active_slot;
        let record = match self.slots[active] {
            Some(r) => r,
            None => return Err(PersistenceError::MissingActiveRecord),
        };
        match fault {
            IntegrityTestFault::ActiveRecord => {
                self.slots[active] = Some(
                    Record { integrity: IntegrityVerdict::Corrupted, ..record },
                );
                Ok(())
            },
            IntegrityTestFault::InactiveRecord => {
                let other = match self.slots[1 - active] {
                    Some(r) => r,
                    None => return Err(PersistenceError::MissingCandidateRecord),
                };
                self.slots[1 - active] = Some(
                    Record { integrity: IntegrityVerdict::Corrupted, ..other },
                );
                Ok(())
            },
            _ => {
                self.slots[1 - active] = Some(record);
                Ok(())
            },
        }
    }
}

} // verus!
