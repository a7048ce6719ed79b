//! The `create!` language: struct-literal syntax for create builders, with
//! scoped creation (`in expr { .. }`), typed batches (`Type::[ .. ]`),
//! tuples and arrays of items, and nested records.

pub mod embedded;
pub mod expand;
pub mod laws;
pub mod parse;
