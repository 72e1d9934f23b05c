//! Baochip research models.
//!
//! `model` is the deterministic lifecycle state machine, `persistence` layers
//! a two-slot atomic persistence and interruption model over it, and
//! `semantic` holds the candidate-neutral semantic objects and their
//! validation rules. `positive_corpus` and `negative_corpus` are the frozen
//! fixture corpora, and `conformance` checks them as a whole. The `*_laws`
//! modules state and prove what holds across operations, states and corpora.

pub mod model;
pub mod model_laws;
pub mod persistence;
pub mod persistence_laws;
pub mod semantic;
pub mod semantic_laws;
pub mod positive_corpus;
pub mod negative_corpus;
pub mod negative_laws;
pub mod conformance;
