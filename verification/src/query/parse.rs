//! Parsing the `query!` input.
//!
//! Keywords match up to ASCII case. The filter grammar, from loosest to
//! tightest binding:
//!
//! ```text
//! or      := and (OR and)*
//! and     := unary (AND unary)*
//! unary   := NOT unary | atom
//! atom    := ( or ) | primary [cmp primary]
//! primary := .field(.field)* | #ident | #( expr ) | literal
//! ```
use vstd::prelude::*;

use crate::diag::{Diag, ErrorKind, Want};
use crate::tokens::{span_at, span_at_exec};
use crate::schema::attr::{
    close_span, close_span_exec, expect_err, expect_err_exec, group_at, group_at_exec, ident_at,
    ident_at_exec, is_reserved_word, is_reserved_word_exec, leftover_err, leftover_err_exec,
    peek_ident, peek_ident_exec,
};
use crate::tokens::{
    is_ident, is_ident_exec, is_keyword, is_keyword_exec, is_lit, is_lit_exec, is_open,
    is_open_exec, is_punct, is_punct2, is_punct2_exec, is_punct_exec, sym_string, sym_text, Delim,
    LitKind, Tok,
};

verus! {

/// Comparison operators.
#[derive(Clone, Copy, PartialEq, Eq, Debug, Structural)]
pub enum CompareOpKind {
    Eq,
    Ne,
    Gt,
    Ge,
    Lt,
    Le,
}

/// A comparison operator and the span of its first token.
#[derive(Clone, Copy, PartialEq, Eq, Debug, Structural)]
pub struct CompareOp {
    pub kind: CompareOpKind,
    pub span: usize,
}

/// A dot-prefixed field path `.a.b.c`: the index of the leading `.`, and
/// the index just after the last segment. The segments' identifiers stand
/// at `dot + 1`, `dot + 3`, ..., below `end`.
#[derive(Clone, Copy, PartialEq, Eq, Debug, Structural)]
pub struct FieldPath {
    pub dot: usize,
    pub end: usize,
}

/// A literal in the input.
#[derive(Clone, Copy, PartialEq, Eq, Debug, Structural)]
pub enum LitRef {
    /// The literal token at this index.
    Token(usize),
    /// A `-` followed by a numeric literal: their indices.
    Negative { minus: usize, lit: usize },
    /// `true` or `false` (in any case) at this index.
    Bool { value: bool, at: usize },
}

/// A filter expression.
#[derive(Debug)]
pub enum Expr {
    And(Box<Expr>, Box<Expr>),
    Or(Box<Expr>, Box<Expr>),
    Not(Box<Expr>),
    BinaryOp(Box<Expr>, CompareOp, Box<Expr>),
    Paren(Box<Expr>),
    Field(FieldPath),
    Lit(LitRef),
    /// `#ident`: the index of the identifier.
    Var(usize),
    /// `#( expr )`: the expression's tokens, `start..end`.
    RustExpr { start: usize, end: usize },
}

#[derive(Clone, Copy, PartialEq, Eq, Debug, Structural)]
pub enum OrderDirection {
    Asc,
    Desc,
}

#[derive(Clone, Copy, PartialEq, Eq, Debug, Structural)]
pub struct OrderByClause {
    pub field: FieldPath,
    pub direction: OrderDirection,
}

/// A LIMIT or OFFSET value.
#[derive(Clone, Copy, PartialEq, Eq, Debug, Structural)]
pub enum PaginationExpr {
    Lit(LitRef),
    Var(usize),
    RustExpr { start: usize, end: usize },
}

/// The parsed input of `query!`.
#[derive(Debug)]
pub struct QueryInput {
    /// The model path: the tokens in `source_start..source_end`.
    pub source_start: usize,
    pub source_end: usize,
    pub filter: Option<Expr>,
    pub order_by: Option<OrderByClause>,
    pub offset: Option<PaginationExpr>,
    pub limit: Option<PaginationExpr>,
}

/// The token at `i` is an identifier (not a reserved word) equal to `kw` up
/// to ASCII case.
pub open spec fn query_kw(toks: Seq<Tok>, syms: Seq<String>, i: int, hi: int, kw: Seq<char>) -> bool {
    is_keyword(toks, syms, i, hi, kw) && !is_reserved_word(sym_text(syms, toks[i]->sym as int))
}

pub fn query_kw_exec(toks: &Vec<Tok>, syms: &Vec<String>, i: usize, hi: usize, kw: &str) -> (r: bool)
    ensures
        r == query_kw(toks@, syms@, i as int, hi as int, kw@),
{
    if !is_keyword_exec(toks, syms, i, hi, kw) {
        return false;
    }
    match toks[i] {
        Tok::Ident { sym, .. } => {
            let t = sym_string(syms, sym);
            !is_reserved_word_exec(t.as_str())
        },
        _ => false,
    }
}

/// A path segment identifier: any identifier but a reserved word, or one of
/// `self`, `super`, `Self`, `crate`, `try`.
pub open spec fn seg_ok(t: Seq<char>) -> bool {
    !is_reserved_word(t) || t == "self"@ || t == "super"@ || t == "Self"@ || t == "crate"@ || t == "try"@
}

/// One path segment at `i`: the index after it.
pub open spec fn path_seg_at(toks: Seq<Tok>, syms: Seq<String>, i: int, hi: int, scope: usize) -> Result<int, Diag> {
    if 0 <= i < hi && i < toks.len() && toks[i] is Ident {
        if seg_ok(sym_text(syms, toks[i]->sym as int)) {
            Ok(i + 1)
        } else {
            Err(Diag::at(toks[i].span_of(), ErrorKind::KeywordNotIdent { sym: toks[i]->sym }))
        }
    } else {
        Err(expect_err(toks, i, hi, scope, Want::Ident))
    }
}

/// The further `::segment`s of a path from `k`: the index after them.
pub open spec fn path_more(toks: Seq<Tok>, syms: Seq<String>, k: int, hi: int, scope: usize) -> Result<int, Diag>
    decreases hi - k,
{
    if k < hi && is_punct2(toks, k, hi, ':', ':') && !is_open(toks, k + 2, hi, Delim::Paren) {
        match path_seg_at(toks, syms, k + 2, hi, scope) {
            Err(e) => Err(e),
            Ok(k2) => path_more(toks, syms, k2, hi, scope),
        }
    } else {
        Ok(k)
    }
}

/// The model path at `i`: `[::]segment(::segment)*`.
pub open spec fn source_path_at(toks: Seq<Tok>, syms: Seq<String>, i: int, hi: int, scope: usize) -> Result<int, Diag> {
    let j = if is_punct2(toks, i, hi, ':', ':') { i + 2 } else { i };
    match path_seg_at(toks, syms, j, hi, scope) {
        Err(e) => Err(e),
        Ok(k) => path_more(toks, syms, k, hi, scope),
    }
}

/// The end of the `.ident` segments from `j` (a keyword ends them).
pub open spec fn segs_end(toks: Seq<Tok>, syms: Seq<String>, j: int, hi: int) -> int
    decreases hi - j,
{
    if j < hi && is_punct(toks, j, hi, '.') && peek_ident(toks, syms, j + 1, hi) {
        segs_end(toks, syms, j + 2, hi)
    } else {
        j
    }
}

/// A field path at `i`.
pub open spec fn field_path_at(toks: Seq<Tok>, syms: Seq<String>, i: int, hi: int, scope: usize) -> Result<(FieldPath, int), Diag> {
    if !is_punct(toks, i, hi, '.') {
        Err(expect_err(toks, i, hi, scope, Want::Dot))
    } else {
        match ident_at(toks, syms, i + 1, hi, scope) {
            Err(e) => Err(e),
            Ok(_) => {
                let end = segs_end(toks, syms, i + 2, hi);
                Ok((FieldPath { dot: i as usize, end: end as usize }, end))
            },
        }
    }
}

/// A comparison operator at `i`, and the index after it.
pub open spec fn compare_op_at(toks: Seq<Tok>, i: int, hi: int) -> Option<(CompareOpKind, int)> {
    if is_punct2(toks, i, hi, '=', '=') {
        Some((CompareOpKind::Eq, i + 2))
    } else if is_punct2(toks, i, hi, '!', '=') {
        Some((CompareOpKind::Ne, i + 2))
    } else if is_punct2(toks, i, hi, '>', '=') {
        Some((CompareOpKind::Ge, i + 2))
    } else if is_punct2(toks, i, hi, '<', '=') {
        Some((CompareOpKind::Le, i + 2))
    } else if is_punct(toks, i, hi, '>') {
        Some((CompareOpKind::Gt, i + 1))
    } else if is_punct(toks, i, hi, '<') {
        Some((CompareOpKind::Lt, i + 1))
    } else {
        None
    }
}

/// A literal at `i`: a literal token, `true` / `false`, or `-` before a
/// numeric literal.
pub open spec fn lit_at(toks: Seq<Tok>, syms: Seq<String>, i: int, hi: int) -> Option<(LitRef, int)> {
    if 0 <= i < hi && i < toks.len() && toks[i] is Lit {
        Some((LitRef::Token(i as usize), i + 1))
    } else if is_ident(toks, syms, i, hi, "true"@) {
        Some((LitRef::Bool { value: true, at: i as usize }, i + 1))
    } else if is_ident(toks, syms, i, hi, "false"@) {
        Some((LitRef::Bool { value: false, at: i as usize }, i + 1))
    } else if is_punct(toks, i, hi, '-') && (is_lit(toks, i + 1, hi, LitKind::Int) || is_lit(toks, i + 1, hi, LitKind::Float)) {
        Some((LitRef::Negative { minus: i as usize, lit: (i + 1) as usize }, i + 2))
    } else {
        None
    }
}

/// `#ident` or `#( expr )` with the `#` at `i`: the variable's index, or the
/// parentheses' indices.
pub open spec fn external_at(toks: Seq<Tok>, syms: Seq<String>, i: int, hi: int, scope: usize) -> Result<(Option<usize>, int, int), Diag> {
    if is_open(toks, i + 1, hi, Delim::Paren) {
        match group_at(toks, i + 1, hi, scope, Delim::Paren, Want::Parens) {
            Err(e) => Err(e),
            Ok(c) => if c <= i + 2 {
                Err(expect_err(toks, i + 2, c, close_span(toks, c), Want::Expression))
            } else {
                Ok((None, i + 1, c))
            },
        }
    } else {
        match ident_at(toks, syms, i + 1, hi, scope) {
            Err(e) => Err(e),
            Ok(_) => Ok((Some((i + 1) as usize), i + 1, i + 1)),
        }
    }
}

/// A primary expression at `i`.
pub open spec fn primary_at(toks: Seq<Tok>, syms: Seq<String>, i: int, hi: int, scope: usize) -> Result<(Expr, int), Diag> {
    if is_punct(toks, i, hi, '.') {
        match field_path_at(toks, syms, i, hi, scope) {
            Err(e) => Err(e),
            Ok((p, j)) => Ok((Expr::Field(p), j)),
        }
    } else if is_punct(toks, i, hi, '#') {
        match external_at(toks, syms, i, hi, scope) {
            Err(e) => Err(e),
            Ok((v, o, c)) => match v {
                Some(x) => Ok((Expr::Var(x), i + 2)),
                None => Ok((Expr::RustExpr { start: (o + 1) as usize, end: c as usize }, c + 1)),
            },
        }
    } else if lit_at(toks, syms, i, hi) is Some {
        let (l, j) = lit_at(toks, syms, i, hi).unwrap();
        Ok((Expr::Lit(l), j))
    } else if query_kw(toks, syms, i, hi, "true"@) {
        Ok((Expr::Lit(LitRef::Bool { value: true, at: i as usize }), i + 1))
    } else if query_kw(toks, syms, i, hi, "false"@) {
        Ok((Expr::Lit(LitRef::Bool { value: false, at: i as usize }), i + 1))
    } else {
        Err(expect_err(toks, i, hi, scope, Want::FilterOperand))
    }
}

/// An OR expression at `i`.
pub open spec fn or_at(toks: Seq<Tok>, syms: Seq<String>, i: int, hi: int, scope: usize) -> Result<(Expr, int), Diag>
    decreases hi - i, 4int,
{
    match and_at(toks, syms, i, hi, scope) {
        Err(e) => Err(e),
        Ok((lhs, j)) => if j <= i || j > hi {
            Ok((lhs, j))
        } else {
            or_rest(toks, syms, lhs, j, hi, scope)
        },
    }
}

/// The `OR` operands after `lhs`, from `j`, folded to the left.
pub open spec fn or_rest(toks: Seq<Tok>, syms: Seq<String>, lhs: Expr, j: int, hi: int, scope: usize) -> Result<(Expr, int), Diag>
    decreases hi - j, 4int,
{
    if query_kw(toks, syms, j, hi, "or"@) {
        match and_at(toks, syms, j + 1, hi, scope) {
            Err(e) => Err(e),
            Ok((rhs, k)) => if k <= j || k > hi {
                Ok((Expr::Or(Box::new(lhs), Box::new(rhs)), k))
            } else {
                or_rest(toks, syms, Expr::Or(Box::new(lhs), Box::new(rhs)), k, hi, scope)
            },
        }
    } else {
        Ok((lhs, j))
    }
}

/// An AND expression at `i`.
pub open spec fn and_at(toks: Seq<Tok>, syms: Seq<String>, i: int, hi: int, scope: usize) -> Result<(Expr, int), Diag>
    decreases hi - i, 3int,
{
    match unary_at(toks, syms, i, hi, scope) {
        Err(e) => Err(e),
        Ok((lhs, j)) => if j <= i || j > hi {
            Ok((lhs, j))
        } else {
            and_rest(toks, syms, lhs, j, hi, scope)
        },
    }
}

/// The `AND` operands after `lhs`, from `j`, folded to the left.
pub open spec fn and_rest(toks: Seq<Tok>, syms: Seq<String>, lhs: Expr, j: int, hi: int, scope: usize) -> Result<(Expr, int), Diag>
    decreases hi - j, 3int,
{
    if query_kw(toks, syms, j, hi, "and"@) {
        match unary_at(toks, syms, j + 1, hi, scope) {
            Err(e) => Err(e),
            Ok((rhs, k)) => if k <= j || k > hi {
                Ok((Expr::And(Box::new(lhs), Box::new(rhs)), k))
            } else {
                and_rest(toks, syms, Expr::And(Box::new(lhs), Box::new(rhs)), k, hi, scope)
            },
        }
    } else {
        Ok((lhs, j))
    }
}

/// A NOT prefix or an atom at `i`.
pub open spec fn unary_at(toks: Seq<Tok>, syms: Seq<String>, i: int, hi: int, scope: usize) -> Result<(Expr, int), Diag>
    decreases hi - i, 2int,
{
    if query_kw(toks, syms, i, hi, "not"@) {
        match unary_at(toks, syms, i + 1, hi, scope) {
            Err(e) => Err(e),
            Ok((x, j)) => Ok((Expr::Not(Box::new(x)), j)),
        }
    } else {
        atom_at(toks, syms, i, hi, scope)
    }
}

/// A parenthesized expression, or a primary with an optional comparison,
/// at `i`.
pub open spec fn atom_at(toks: Seq<Tok>, syms: Seq<String>, i: int, hi: int, scope: usize) -> Result<(Expr, int), Diag>
    decreases hi - i, 1int,
{
    if is_open(toks, i, hi, Delim::Paren) {
        match group_at(toks, i, hi, scope, Delim::Paren, Want::Parens) {
            Err(e) => Err(e),
            Ok(c) => if c <= i || c >= hi {
                Err(Diag::at(toks[i].span_of(), ErrorKind::Unbalanced))
            } else {
                match or_at(toks, syms, i + 1, c, close_span(toks, c)) {
                    Err(e) => Err(e),
                    Ok((x, j)) => if j < c {
                        Err(leftover_err(toks, j, c, close_span(toks, c), Some(Delim::Paren)))
                    } else {
                        Ok((Expr::Paren(Box::new(x)), c + 1))
                    },
                }
            },
        }
    } else {
        match primary_at(toks, syms, i, hi, scope) {
            Err(e) => Err(e),
            Ok((lhs, j)) => match compare_op_at(toks, j, hi) {
                None => Ok((lhs, j)),
                Some((kind, j2)) => match primary_at(toks, syms, j2, hi, scope) {
                    Err(e) => Err(e),
                    Ok((rhs, k)) => Ok((Expr::BinaryOp(Box::new(lhs), CompareOp { kind, span: toks[j].span_of() }, Box::new(rhs)), k)),
                },
            },
        }
    }
}

/// `ORDER BY`'s field and direction at `i` (ascending by default).
pub open spec fn order_by_at(toks: Seq<Tok>, syms: Seq<String>, i: int, hi: int, scope: usize) -> Result<(OrderByClause, int), Diag> {
    match field_path_at(toks, syms, i, hi, scope) {
        Err(e) => Err(e),
        Ok((field, j)) => if query_kw(toks, syms, j, hi, "asc"@) {
            Ok((OrderByClause { field, direction: OrderDirection::Asc }, j + 1))
        } else if query_kw(toks, syms, j, hi, "desc"@) {
            Ok((OrderByClause { field, direction: OrderDirection::Desc }, j + 1))
        } else {
            Ok((OrderByClause { field, direction: OrderDirection::Asc }, j))
        },
    }
}

/// A LIMIT / OFFSET value at `i`: an integer literal (possibly negative),
/// `#ident` or `#( expr )`.
pub open spec fn pagination_at(toks: Seq<Tok>, syms: Seq<String>, i: int, hi: int, scope: usize) -> Result<(PaginationExpr, int), Diag> {
    if is_lit(toks, i, hi, LitKind::Int) {
        Ok((PaginationExpr::Lit(LitRef::Token(i as usize)), i + 1))
    } else if is_punct(toks, i, hi, '-') && is_lit(toks, i + 1, hi, LitKind::Int) {
        Ok((PaginationExpr::Lit(LitRef::Negative { minus: i as usize, lit: (i + 1) as usize }), i + 2))
    } else if is_punct(toks, i, hi, '#') {
        match external_at(toks, syms, i, hi, scope) {
            Err(e) => Err(e),
            Ok((v, o, c)) => match v {
                Some(x) => Ok((PaginationExpr::Var(x), i + 2)),
                None => Ok((PaginationExpr::RustExpr { start: (o + 1) as usize, end: c as usize }, c + 1)),
            },
        }
    } else {
        Err(expect_err(toks, i, hi, scope, Want::PaginationValue))
    }
}

/// An optional `FILTER expr` clause at `i`.
pub open spec fn filter_clause(toks: Seq<Tok>, syms: Seq<String>, i: int, hi: int, scope: usize) -> Result<(Option<Expr>, int), Diag> {
    if query_kw(toks, syms, i, hi, "filter"@) {
        match or_at(toks, syms, i + 1, hi, scope) {
            Err(e) => Err(e),
            Ok((x, j)) => Ok((Some(x), j)),
        }
    } else {
        Ok((None, i))
    }
}

/// An optional `ORDER BY` clause at `i`.
pub open spec fn order_clause(toks: Seq<Tok>, syms: Seq<String>, i: int, hi: int, scope: usize) -> Result<(Option<OrderByClause>, int), Diag> {
    if query_kw(toks, syms, i, hi, "order"@) {
        if !query_kw(toks, syms, i + 1, hi, "by"@) {
            Err(expect_err(toks, i + 1, hi, scope, Want::ByAfterOrder))
        } else {
            match order_by_at(toks, syms, i + 2, hi, scope) {
                Err(e) => Err(e),
                Ok((o, j)) => Ok((Some(o), j)),
            }
        }
    } else {
        Ok((None, i))
    }
}

/// An optional `OFFSET` or `LIMIT` clause (keyword `kw`) at `i`.
pub open spec fn page_clause(toks: Seq<Tok>, syms: Seq<String>, i: int, hi: int, scope: usize, kw: Seq<char>) -> Result<(Option<PaginationExpr>, int), Diag> {
    if query_kw(toks, syms, i, hi, kw) {
        match pagination_at(toks, syms, i + 1, hi, scope) {
            Err(e) => Err(e),
            Ok((p, j)) => Ok((Some(p), j)),
        }
    } else {
        Ok((None, i))
    }
}

/// The `query!` input held in `toks` (`scope` is the span to blame at its
/// end).
pub open spec fn query_spec(toks: Seq<Tok>, syms: Seq<String>, scope: usize) -> Result<QueryInput, Diag> {
    let hi = toks.len() as int;
    match source_path_at(toks, syms, 0, hi, scope) {
        Err(e) => Err(e),
        Ok(p) => match filter_clause(toks, syms, p, hi, scope) {
            Err(e) => Err(e),
            Ok((filter, q)) => match order_clause(toks, syms, q, hi, scope) {
                Err(e) => Err(e),
                Ok((order_by, r)) => match page_clause(toks, syms, r, hi, scope, "offset"@) {
                    Err(e) => Err(e),
                    Ok((offset, s)) => match page_clause(toks, syms, s, hi, scope, "limit"@) {
                        Err(e) => Err(e),
                        Ok((limit, t)) => if t < hi {
                            Err(Diag::at(span_at(toks, t, hi, scope), ErrorKind::TrailingQuery))
                        } else {
                            Ok(QueryInput { source_start: 0, source_end: p as usize, filter, order_by, offset, limit })
                        },
                    },
                },
            },
        },
    }
}

fn path_seg_exec(toks: &Vec<Tok>, syms: &Vec<String>, i: usize, hi: usize, scope: usize) -> (r: Result<usize, Diag>)
    requires
        hi <= toks@.len(),
    ensures
        r matches Ok(k) ==> path_seg_at(toks@, syms@, i as int, hi as int, scope) == Ok::<int, Diag>(k as int) && k == i + 1 && k <= hi,
        r matches Err(e) ==> path_seg_at(toks@, syms@, i as int, hi as int, scope) == Err::<int, Diag>(e),
{
    if i < hi {
        match toks[i] {
            Tok::Ident { sym, span } => {
                let t = sym_string(syms, sym);
                let s = t.as_str();
                proof {
                    reveal_strlit("self");
                    reveal_strlit("super");
                    reveal_strlit("Self");
                    reveal_strlit("crate");
                    reveal_strlit("try");
                }
                let ok = !is_reserved_word_exec(s) || crate::text::str_eq(s, "self") || crate::text::str_eq(s, "super") || crate::text::str_eq(s, "Self") || crate::text::str_eq(s, "crate") || crate::text::str_eq(s, "try");
                if ok {
                    Ok(i + 1)
                } else {
                    Err(Diag { span, kind: ErrorKind::KeywordNotIdent { sym } })
                }
            },
            _ => Err(expect_err_exec(toks, i, hi, scope, Want::Ident)),
        }
    } else {
        Err(expect_err_exec(toks, i, hi, scope, Want::Ident))
    }
}

fn source_path_exec(toks: &Vec<Tok>, syms: &Vec<String>, i: usize, hi: usize, scope: usize) -> (r: Result<usize, Diag>)
    requires
        hi <= toks@.len(),
        i <= hi,
    ensures
        r matches Ok(k) ==> source_path_at(toks@, syms@, i as int, hi as int, scope) == Ok::<int, Diag>(k as int) && i < k <= hi,
        r matches Err(e) ==> source_path_at(toks@, syms@, i as int, hi as int, scope) == Err::<int, Diag>(e),
{
    let j = if is_punct2_exec(toks, i, hi, ':', ':') { i + 2 } else { i };
    let mut k = match path_seg_exec(toks, syms, j, hi, scope) {
        Err(e) => return Err(e),
        Ok(k) => k,
    };
    while k < hi && is_punct2_exec(toks, k, hi, ':', ':') && !is_open_exec(toks, k + 2, hi, Delim::Paren)
        invariant
            hi <= toks@.len(),
            i < k <= hi,
            source_path_at(toks@, syms@, i as int, hi as int, scope) == path_more(toks@, syms@, k as int, hi as int, scope),
        decreases hi - k,
    {
        k = match path_seg_exec(toks, syms, k + 2, hi, scope) {
            Err(e) => return Err(e),
            Ok(k2) => k2,
        };
    }
    Ok(k)
}

fn field_path_exec(toks: &Vec<Tok>, syms: &Vec<String>, i: usize, hi: usize, scope: usize) -> (r: Result<(FieldPath, usize), Diag>)
    requires
        hi <= toks@.len(),
    ensures
        r matches Ok((p, k)) ==> field_path_at(toks@, syms@, i as int, hi as int, scope) == Ok::<(FieldPath, int), Diag>((p, k as int)) && i < k <= hi,
        r matches Err(e) ==> field_path_at(toks@, syms@, i as int, hi as int, scope) == Err::<(FieldPath, int), Diag>(e),
{
    if !is_punct_exec(toks, i, hi, '.') {
        return Err(expect_err_exec(toks, i, hi, scope, Want::Dot));
    }
    match ident_at_exec(toks, syms, i + 1, hi, scope) {
        Err(e) => Err(e),
        Ok(_) => {
            let mut j = i + 2;
            while j < hi && is_punct_exec(toks, j, hi, '.') && peek_ident_exec(toks, syms, j + 1, hi)
                invariant
                    hi <= toks@.len(),
                    i + 2 <= j <= hi,
                    segs_end(toks@, syms@, i + 2, hi as int) == segs_end(toks@, syms@, j as int, hi as int),
                decreases hi - j,
            {
                j = j + 2;
            }
            Ok((FieldPath { dot: i, end: j }, j))
        },
    }
}

fn compare_op_exec(toks: &Vec<Tok>, i: usize, hi: usize) -> (r: Option<(CompareOpKind, usize)>)
    requires
        hi <= toks@.len(),
    ensures
        r matches Some((k, j)) ==> compare_op_at(toks@, i as int, hi as int) == Some((k, j as int)) && i < j <= hi,
        r is None ==> compare_op_at(toks@, i as int, hi as int) is None,
{
    if is_punct2_exec(toks, i, hi, '=', '=') {
        Some((CompareOpKind::Eq, i + 2))
    } else if is_punct2_exec(toks, i, hi, '!', '=') {
        Some((CompareOpKind::Ne, i + 2))
    } else if is_punct2_exec(toks, i, hi, '>', '=') {
        Some((CompareOpKind::Ge, i + 2))
    } else if is_punct2_exec(toks, i, hi, '<', '=') {
        Some((CompareOpKind::Le, i + 2))
    } else if is_punct_exec(toks, i, hi, '>') {
        Some((CompareOpKind::Gt, i + 1))
    } else if is_punct_exec(toks, i, hi, '<') {
        Some((CompareOpKind::Lt, i + 1))
    } else {
        None
    }
}

fn lit_exec(toks: &Vec<Tok>, syms: &Vec<String>, i: usize, hi: usize) -> (r: Option<(LitRef, usize)>)
    requires
        hi <= toks@.len(),
    ensures
        r matches Some((l, j)) ==> lit_at(toks@, syms@, i as int, hi as int) == Some((l, j as int)) && i < j <= hi,
        r is None ==> lit_at(toks@, syms@, i as int, hi as int) is None,
{
    if i < hi {
        match toks[i] {
            Tok::Lit { .. } => {
                return Some((LitRef::Token(i), i + 1));
            },
            _ => {},
        }
    }
    if is_ident_exec(toks, syms, i, hi, "true") {
        Some((LitRef::Bool { value: true, at: i }, i + 1))
    } else if is_ident_exec(toks, syms, i, hi, "false") {
        Some((LitRef::Bool { value: false, at: i }, i + 1))
    } else if is_punct_exec(toks, i, hi, '-') && (is_lit_exec(toks, i + 1, hi, LitKind::Int) || is_lit_exec(toks, i + 1, hi, LitKind::Float)) {
        Some((LitRef::Negative { minus: i, lit: i + 1 }, i + 2))
    } else {
        None
    }
}

fn external_exec(toks: &Vec<Tok>, syms: &Vec<String>, i: usize, hi: usize, scope: usize) -> (r: Result<(Option<usize>, usize, usize), Diag>)
    requires
        hi <= toks@.len(),
        i < hi,
    ensures
        r matches Ok((v, o, c)) ==> external_at(toks@, syms@, i as int, hi as int, scope) == Ok::<(Option<usize>, int, int), Diag>((v, o as int, c as int)) && i < o <= c < hi,
        r matches Err(e) ==> external_at(toks@, syms@, i as int, hi as int, scope) == Err::<(Option<usize>, int, int), Diag>(e),
{
    if is_open_exec(toks, i + 1, hi, Delim::Paren) {
        match group_at_exec(toks, i + 1, hi, scope, Delim::Paren, Want::Parens) {
            Err(e) => Err(e),
            Ok(c) => {
                if c <= i + 2 {
                    let cs = close_span_exec(toks, c);
                    Err(expect_err_exec(toks, i + 2, c, cs, Want::Expression))
                } else {
                    Ok((None, i + 1, c))
                }
            },
        }
    } else {
        match ident_at_exec(toks, syms, i + 1, hi, scope) {
            Err(e) => Err(e),
            Ok(_) => Ok((Some(i + 1), i + 1, i + 1)),
        }
    }
}

fn primary_exec(toks: &Vec<Tok>, syms: &Vec<String>, i: usize, hi: usize, scope: usize) -> (r: Result<(Expr, usize), Diag>)
    requires
        hi <= toks@.len(),
    ensures
        r matches Ok((x, j)) ==> primary_at(toks@, syms@, i as int, hi as int, scope) == Ok::<(Expr, int), Diag>((x, j as int)) && i < j <= hi,
        r matches Err(e) ==> primary_at(toks@, syms@, i as int, hi as int, scope) == Err::<(Expr, int), Diag>(e),
{
    if is_punct_exec(toks, i, hi, '.') {
        match field_path_exec(toks, syms, i, hi, scope) {
            Err(e) => Err(e),
            Ok((p, j)) => Ok((Expr::Field(p), j)),
        }
    } else if is_punct_exec(toks, i, hi, '#') {
        match external_exec(toks, syms, i, hi, scope) {
            Err(e) => Err(e),
            Ok((v, o, c)) => match v {
                Some(x) => Ok((Expr::Var(x), i + 2)),
                None => Ok((Expr::RustExpr { start: o + 1, end: c }, c + 1)),
            },
        }
    } else {
        match lit_exec(toks, syms, i, hi) {
            Some((l, j)) => Ok((Expr::Lit(l), j)),
            None => {
                if query_kw_exec(toks, syms, i, hi, "true") {
                    Ok((Expr::Lit(LitRef::Bool { value: true, at: i }), i + 1))
                } else if query_kw_exec(toks, syms, i, hi, "false") {
                    Ok((Expr::Lit(LitRef::Bool { value: false, at: i }), i + 1))
                } else {
                    Err(expect_err_exec(toks, i, hi, scope, Want::FilterOperand))
                }
            },
        }
    }
}

fn or_exec(toks: &Vec<Tok>, syms: &Vec<String>, i: usize, hi: usize, scope: usize) -> (r: Result<(Expr, usize), Diag>)
    requires
        hi <= toks@.len(),
    ensures
        r matches Ok((x, j)) ==> or_at(toks@, syms@, i as int, hi as int, scope) == Ok::<(Expr, int), Diag>((x, j as int)) && i < j <= hi,
        r matches Err(e) ==> or_at(toks@, syms@, i as int, hi as int, scope) == Err::<(Expr, int), Diag>(e),
    decreases hi - i, 4int,
{
    let (lhs0, j0) = match and_exec(toks, syms, i, hi, scope) {
        Err(e) => return Err(e),
        Ok(p) => p,
    };
    let mut lhs = lhs0;
    let mut j = j0;
    while query_kw_exec(toks, syms, j, hi, "or")
        invariant
            hi <= toks@.len(),
            i < j <= hi,
            or_at(toks@, syms@, i as int, hi as int, scope) == or_rest(toks@, syms@, lhs, j as int, hi as int, scope),
        decreases hi - j,
    {
        let (rhs, k) = match and_exec(toks, syms, j + 1, hi, scope) {
            Err(e) => return Err(e),
            Ok(p) => p,
        };
        lhs = Expr::Or(Box::new(lhs), Box::new(rhs));
        j = k;
    }
    Ok((lhs, j))
}

fn and_exec(toks: &Vec<Tok>, syms: &Vec<String>, i: usize, hi: usize, scope: usize) -> (r: Result<(Expr, usize), Diag>)
    requires
        hi <= toks@.len(),
    ensures
        r matches Ok((x, j)) ==> and_at(toks@, syms@, i as int, hi as int, scope) == Ok::<(Expr, int), Diag>((x, j as int)) && i < j <= hi,
        r matches Err(e) ==> and_at(toks@, syms@, i as int, hi as int, scope) == Err::<(Expr, int), Diag>(e),
    decreases hi - i, 3int,
{
    let (lhs0, j0) = match unary_exec(toks, syms, i, hi, scope) {
        Err(e) => return Err(e),
        Ok(p) => p,
    };
    let mut lhs = lhs0;
    let mut j = j0;
    while query_kw_exec(toks, syms, j, hi, "and")
        invariant
            hi <= toks@.len(),
            i < j <= hi,
            and_at(toks@, syms@, i as int, hi as int, scope) == and_rest(toks@, syms@, lhs, j as int, hi as int, scope),
        decreases hi - j,
    {
        let (rhs, k) = match unary_exec(toks, syms, j + 1, hi, scope) {
            Err(e) => return Err(e),
            Ok(p) => p,
        };
        lhs = Expr::And(Box::new(lhs), Box::new(rhs));
        j = k;
    }
    Ok((lhs, j))
}

fn unary_exec(toks: &Vec<Tok>, syms: &Vec<String>, i: usize, hi: usize, scope: usize) -> (r: Result<(Expr, usize), Diag>)
    requires
        hi <= toks@.len(),
    ensures
        r matches Ok((x, j)) ==> unary_at(toks@, syms@, i as int, hi as int, scope) == Ok::<(Expr, int), Diag>((x, j as int)) && i < j <= hi,
        r matches Err(e) ==> unary_at(toks@, syms@, i as int, hi as int, scope) == Err::<(Expr, int), Diag>(e),
    decreases hi - i, 2int,
{
    if query_kw_exec(toks, syms, i, hi, "not") {
        match unary_exec(toks, syms, i + 1, hi, scope) {
            Err(e) => Err(e),
            Ok((x, j)) => Ok((Expr::Not(Box::new(x)), j)),
        }
    } else {
        atom_exec(toks, syms, i, hi, scope)
    }
}

fn atom_exec(toks: &Vec<Tok>, syms: &Vec<String>, i: usize, hi: usize, scope: usize) -> (r: Result<(Expr, usize), Diag>)
    requires
        hi <= toks@.len(),
    ensures
        r matches Ok((x, j)) ==> atom_at(toks@, syms@, i as int, hi as int, scope) == Ok::<(Expr, int), Diag>((x, j as int)) && i < j <= hi,
        r matches Err(e) ==> atom_at(toks@, syms@, i as int, hi as int, scope) == Err::<(Expr, int), Diag>(e),
    decreases hi - i, 1int,
{
    if is_open_exec(toks, i, hi, Delim::Paren) {
        let c = match group_at_exec(toks, i, hi, scope, Delim::Paren, Want::Parens) {
            Err(e) => return Err(e),
            Ok(c) => c,
        };
        let cs = close_span_exec(toks, c);
        match or_exec(toks, syms, i + 1, c, cs) {
            Err(e) => Err(e),
            Ok((x, j)) => {
                if j < c {
                    Err(leftover_err_exec(toks, j, c, cs, Some(Delim::Paren)))
                } else {
                    Ok((Expr::Paren(Box::new(x)), c + 1))
                }
            },
        }
    } else {
        let (lhs, j) = match primary_exec(toks, syms, i, hi, scope) {
            Err(e) => return Err(e),
            Ok(p) => p,
        };
        match compare_op_exec(toks, j, hi) {
            None => Ok((lhs, j)),
            Some((kind, j2)) => match primary_exec(toks, syms, j2, hi, scope) {
                Err(e) => Err(e),
                Ok((rhs, k)) => {
                    let span = toks[j].span();
                    Ok((Expr::BinaryOp(Box::new(lhs), CompareOp { kind, span }, Box::new(rhs)), k))
                },
            },
        }
    }
}

fn order_by_exec(toks: &Vec<Tok>, syms: &Vec<String>, i: usize, hi: usize, scope: usize) -> (r: Result<(OrderByClause, usize), Diag>)
    requires
        hi <= toks@.len(),
    ensures
        r matches Ok((o, j)) ==> order_by_at(toks@, syms@, i as int, hi as int, scope) == Ok::<(OrderByClause, int), Diag>((o, j as int)) && i < j <= hi,
        r matches Err(e) ==> order_by_at(toks@, syms@, i as int, hi as int, scope) == Err::<(OrderByClause, int), Diag>(e),
{
    let (field, j) = match field_path_exec(toks, syms, i, hi, scope) {
        Err(e) => return Err(e),
        Ok(p) => p,
    };
    if query_kw_exec(toks, syms, j, hi, "asc") {
        Ok((OrderByClause { field, direction: OrderDirection::Asc }, j + 1))
    } else if query_kw_exec(toks, syms, j, hi, "desc") {
        Ok((OrderByClause { field, direction: OrderDirection::Desc }, j + 1))
    } else {
        Ok((OrderByClause { field, direction: OrderDirection::Asc }, j))
    }
}

fn pagination_exec(toks: &Vec<Tok>, syms: &Vec<String>, i: usize, hi: usize, scope: usize) -> (r: Result<(PaginationExpr, usize), Diag>)
    requires
        hi <= toks@.len(),
    ensures
        r matches Ok((p, j)) ==> pagination_at(toks@, syms@, i as int, hi as int, scope) == Ok::<(PaginationExpr, int), Diag>((p, j as int)) && i < j <= hi,
        r matches Err(e) ==> pagination_at(toks@, syms@, i as int, hi as int, scope) == Err::<(PaginationExpr, int), Diag>(e),
{
    if is_lit_exec(toks, i, hi, LitKind::Int) {
        Ok((PaginationExpr::Lit(LitRef::Token(i)), i + 1))
    } else if is_punct_exec(toks, i, hi, '-') && is_lit_exec(toks, i + 1, hi, LitKind::Int) {
        Ok((PaginationExpr::Lit(LitRef::Negative { minus: i, lit: i + 1 }), i + 2))
    } else if is_punct_exec(toks, i, hi, '#') {
        match external_exec(toks, syms, i, hi, scope) {
            Err(e) => Err(e),
            Ok((v, o, c)) => match v {
                Some(x) => Ok((PaginationExpr::Var(x), i + 2)),
                None => Ok((PaginationExpr::RustExpr { start: o + 1, end: c }, c + 1)),
            },
        }
    } else {
        Err(expect_err_exec(toks, i, hi, scope, Want::PaginationValue))
    }
}

fn page_clause_exec(toks: &Vec<Tok>, syms: &Vec<String>, i: usize, hi: usize, scope: usize, kw: &str) -> (r: Result<(Option<PaginationExpr>, usize), Diag>)
    requires
        hi <= toks@.len(),
        i <= hi,
    ensures
        r matches Ok((p, j)) ==> page_clause(toks@, syms@, i as int, hi as int, scope, kw@) == Ok::<(Option<PaginationExpr>, int), Diag>((p, j as int)) && i <= j <= hi,
        r matches Err(e) ==> page_clause(toks@, syms@, i as int, hi as int, scope, kw@) == Err::<(Option<PaginationExpr>, int), Diag>(e),
{
    if query_kw_exec(toks, syms, i, hi, kw) {
        match pagination_exec(toks, syms, i + 1, hi, scope) {
            Err(e) => Err(e),
            Ok((p, j)) => Ok((Some(p), j)),
        }
    } else {
        Ok((None, i))
    }
}

impl QueryInput {
    /// Parses the input of `query!` (`scope` is the span to blame at its
    /// end).
    pub fn parse(toks: &Vec<Tok>, syms: &Vec<String>, scope: usize) -> (r: Result<QueryInput, Diag>)
        ensures
            r matches Ok(q) ==> query_spec(toks@, syms@, scope) == Ok::<QueryInput, Diag>(q),
            r matches Err(e) ==> query_spec(toks@, syms@, scope) == Err::<QueryInput, Diag>(e),
    {
        let hi = toks.len();
        let p = match source_path_exec(toks, syms, 0, hi, scope) {
            Err(e) => return Err(e),
            Ok(p) => p,
        };
        let (filter, q) = if query_kw_exec(toks, syms, p, hi, "filter") {
            match or_exec(toks, syms, p + 1, hi, scope) {
                Err(e) => return Err(e),
                Ok((x, j)) => (Some(x), j),
            }
        } else {
            (None, p)
        };
        let (order_by, r) = if query_kw_exec(toks, syms, q, hi, "order") {
            if !query_kw_exec(toks, syms, q + 1, hi, "by") {
                return Err(expect_err_exec(toks, q + 1, hi, scope, Want::ByAfterOrder));
            }
            match order_by_exec(toks, syms, q + 2, hi, scope) {
                Err(e) => return Err(e),
                Ok((o, j)) => (Some(o), j),
            }
        } else {
            (None, q)
        };
        let (offset, s) = match page_clause_exec(toks, syms, r, hi, scope, "offset") {
            Err(e) => return Err(e),
            Ok(p) => p,
        };
        let (limit, t) = match page_clause_exec(toks, syms, s, hi, scope, "limit") {
            Err(e) => return Err(e),
            Ok(p) => p,
        };
        if t < hi {
            return Err(Diag { span: span_at_exec(toks, t, hi, scope), kind: ErrorKind::TrailingQuery });
        }
        Ok(QueryInput { source_start: 0, source_end: p, filter, order_by, offset, limit })
    }
}

} // verus!
