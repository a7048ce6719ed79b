//! `#[auto]`: how Toasty fills in a field of a newly created row.
use vstd::prelude::*;

use super::attr::{
    attr_is, close_span, close_span_exec, expect_err, expect_err_exec, group_at, group_at_exec,
    leftover_err, leftover_err_exec, Attr, MetaKind,
};
use crate::diag::{Diag, ErrorKind, Want};
use crate::tokens::{is_ident, is_ident_exec, Delim, Tok};

verus! {

/// The strategy named by `#[auto]`, `#[auto(uuid(v4))]`, `#[auto(uuid(v7))]`
/// or `#[auto(increment)]`.
#[derive(Clone, Copy, PartialEq, Eq, Debug, Structural)]
pub enum AutoStrategy {
    Unspecified,
    Uuid(UuidVersion),
    Increment,
}

/// The UUID version of `#[auto(uuid(..))]`.
#[derive(Clone, Copy, PartialEq, Eq, Debug, Structural)]
pub enum UuidVersion {
    V4,
    V7,
}

/// `v4` or `v7` as the whole of the region `lo..hi` (the contents of the
/// parentheses after `uuid`, closed by the token at `hi`).
pub open spec fn uuid_version_spec(toks: Seq<Tok>, syms: Seq<String>, lo: int, hi: int) -> Result<UuidVersion, Diag> {
    let scope = close_span(toks, hi);
    let v = if is_ident(toks, syms, lo, hi, "v4"@) {
        Ok(UuidVersion::V4)
    } else if is_ident(toks, syms, lo, hi, "v7"@) {
        Ok(UuidVersion::V7)
    } else {
        Err(expect_err(toks, lo, hi, scope, Want::V4OrV7))
    };
    match v {
        Ok(v) => if lo + 1 < hi {
            Err(leftover_err(toks, lo + 1, hi, scope, Some(Delim::Paren)))
        } else {
            Ok(v)
        },
        Err(e) => Err(e),
    }
}

/// The arguments of a `#[auto(..)]` attribute: the whole of `toks[0..n]`,
/// a group delimited by `delim` whose closing token has span `scope`.
pub open spec fn auto_args_spec(toks: Seq<Tok>, syms: Seq<String>, n: int, scope: usize, delim: Delim) -> Result<AutoStrategy, Diag> {
    if is_ident(toks, syms, 0, n, "uuid"@) {
        match group_at(toks, 1, n, scope, Delim::Paren, Want::Parens) {
            Err(e) => Err(e),
            Ok(c) => match uuid_version_spec(toks, syms, 2, c) {
                Err(e) => Err(e),
                Ok(v) => if c + 1 < n {
                    Err(leftover_err(toks, c + 1, n, scope, Some(delim)))
                } else {
                    Ok(AutoStrategy::Uuid(v))
                },
            },
        }
    } else if is_ident(toks, syms, 0, n, "increment"@) {
        if 1 < n {
            Err(leftover_err(toks, 1, n, scope, Some(delim)))
        } else {
            Ok(AutoStrategy::Increment)
        }
    } else {
        Err(expect_err(toks, 0, n, scope, Want::UuidOrIncrement))
    }
}

/// What `#[auto ...]` means: bare `#[auto]` leaves the strategy to the field
/// type; a list is parsed by `auto_args_spec`; `#[auto = ..]` is an error.
pub open spec fn auto_from_attr_spec(a: Attr, syms: Seq<String>) -> Result<AutoStrategy, Diag> {
    match a.kind {
        MetaKind::Path => Ok(AutoStrategy::Unspecified),
        MetaKind::NameValue => Err(Diag::at(a.span, ErrorKind::ParensRequired { name: a.name.unwrap_or(0) })),
        MetaKind::List => auto_args_spec(a.args@, syms, a.args@.len() as int, a.close_span, a.delim),
    }
}

fn uuid_version(toks: &Vec<Tok>, syms: &Vec<String>, lo: usize, hi: usize) -> (r: Result<UuidVersion, Diag>)
    requires
        lo <= hi < toks@.len(),
    ensures
        r == uuid_version_spec(toks@, syms@, lo as int, hi as int),
{
    let scope = close_span_exec(toks, hi);
    let v = if is_ident_exec(toks, syms, lo, hi, "v4") {
        UuidVersion::V4
    } else if is_ident_exec(toks, syms, lo, hi, "v7") {
        UuidVersion::V7
    } else {
        return Err(expect_err_exec(toks, lo, hi, scope, Want::V4OrV7));
    };
    if lo + 1 < hi {
        Err(leftover_err_exec(toks, lo + 1, hi, scope, Some(Delim::Paren)))
    } else {
        Ok(v)
    }
}

/// Parses the arguments of `#[auto(..)]`.
pub fn auto_args(toks: &Vec<Tok>, syms: &Vec<String>, scope: usize, delim: Delim) -> (r: Result<AutoStrategy, Diag>)
    ensures
        r == auto_args_spec(toks@, syms@, toks@.len() as int, scope, delim),
{
    let n = toks.len();
    if is_ident_exec(toks, syms, 0, n, "uuid") {
        let c = match group_at_exec(toks, 1, n, scope, Delim::Paren, Want::Parens) {
            Ok(c) => c,
            Err(e) => return Err(e),
        };
        let v = match uuid_version(toks, syms, 2, c) {
            Ok(v) => v,
            Err(e) => return Err(e),
        };
        if c + 1 < n {
            Err(leftover_err_exec(toks, c + 1, n, scope, Some(delim)))
        } else {
            Ok(AutoStrategy::Uuid(v))
        }
    } else if is_ident_exec(toks, syms, 0, n, "increment") {
        if 1 < n {
            Err(leftover_err_exec(toks, 1, n, scope, Some(delim)))
        } else {
            Ok(AutoStrategy::Increment)
        }
    } else {
        Err(expect_err_exec(toks, 0, n, scope, Want::UuidOrIncrement))
    }
}

impl AutoStrategy {
    /// Reads the strategy of an `#[auto]` attribute.
    pub fn from_ast(a: &Attr, syms: &Vec<String>) -> (r: Result<AutoStrategy, Diag>)
        ensures
            r == auto_from_attr_spec(*a, syms@),
    {
        match a.kind {
            MetaKind::Path => Ok(AutoStrategy::Unspecified),
            MetaKind::NameValue => {
                let name = match a.name {
                    Some(s) => s,
                    None => 0,
                };
                Err(Diag { span: a.span, kind: ErrorKind::ParensRequired { name } })
            },
            MetaKind::List => auto_args(&a.args, syms, a.close_span, a.delim),
        }
    }
}

} // verus!
