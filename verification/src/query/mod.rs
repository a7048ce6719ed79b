//! The `query!` language: `Source [FILTER expr] [ORDER BY .field ASC|DESC]
//! [OFFSET n] [LIMIT n]`, parsed from tokens and expanded into calls on the
//! query builder.

pub mod expand;
pub mod laws;
pub mod parse;
