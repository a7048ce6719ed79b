//! The `update!` language: `update!(target { field: value, .. })`, expanded
//! into update-builder calls whose values are evaluated before the target
//! is borrowed.

pub mod expand;
pub mod laws;
pub mod parse;
