//! A builder generator: from the shape of a record type (its named fields,
//! their declared types, and per-field directive attributes) it plans a
//! companion builder type — one storage field, one default initializer, one
//! setter and one construction step per record field — as a structured
//! intermediate representation that a rendering layer can print as source.
//!
//! The pipeline has three verified stages: shape extraction (the record's
//! field list), field classification (optional wrapper / growable collection /
//! plain value, plus the `each` setter-name override), and emission of the
//! per-field plan. A small dynamic semantics of emitted plans is given as
//! well, with proofs of the builder laws (what setting and constructing do),
//! and an executable interpreter of plans that follows that semantics.

pub mod classify;
pub mod command;
pub mod emit;
pub mod interp;
pub mod laws;
pub mod model;
pub mod semantics;
