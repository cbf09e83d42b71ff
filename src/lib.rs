//! A modal form for composing launcher entries: field registry, validation,
//! the Normal/Insert state machine, and the `key=value` record it produces.
pub mod cli;
pub mod fields;
pub mod input;
pub mod layout;
pub mod paths;
pub mod proofs;
pub mod record;
pub mod state;
pub mod text;
pub mod validate;
