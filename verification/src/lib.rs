//! Validation and serialisation of resonance-ionisation scheme submissions.
//!
//! The crate turns the text typed into a submission form into a checked
//! model, writes that model as a JSON document, reads such a document back,
//! and composes the links through which a document is handed in.
//!
//! - [`elements`]: the chemical elements, their symbols and ionisation
//!   potentials.
//! - [`number`]: which texts are numbers, lists of numbers, and numbers as
//!   JSON writes them.
//! - [`model`]: the submission and its parts.
//! - [`json`]: JSON trees, read and printed by `serde_json`.
//! - [`codec`]: the document of a submission, written and read.
//! - [`roundtrip`]: the proof that a document holds its submission.
//! - [`submit`]: the links for GitHub and e-mail.
//! - [`form`]: the form with its editors, messages and actions.
//! - [`text`]: helpers on text.
//!
//! Numbers are kept as text throughout and never computed with.

pub mod codec;
pub mod elements;
pub mod form;
pub mod json;
pub mod model;
pub mod number;
pub mod roundtrip;
pub mod submit;
pub mod text;
