//! Parsing the `create!` input.
//!
//! ```text
//! item    := ( items ) | [ items ] | in expr { entries }
//!          | path { entries } | path :: [ sets ]
//! entries := (name [: value]),*        a bare name is `name: name`
//! value   := { entries } | [ values ] | expression
//! ```
//!
//! Lists are comma separated and may end with a comma. An expression runs to
//! the next comma outside any group; the compiler checks it where the
//! expansion puts it.
use vstd::prelude::*;

use super::embedded::{emb_at, emb_at_exec, EmbStruct};
use crate::diag::{Diag, ErrorKind, Want};
use crate::schema::attr::{
    close_span, close_span_exec, expect_err, expect_err_exec, group_at, group_at_exec, ident_at,
    ident_at_exec, leftover_err, leftover_err_exec,
};
use crate::tokens::{
    is_ident, is_ident_exec, is_open, is_open_exec, is_punct, is_punct2, is_punct2_exec,
    is_punct_exec, lemma_tree_end, tree_end, tree_end_exec, Delim, Tok,
};

verus! {

/// A field value.
#[derive(Debug)]
pub enum FieldValue {
    /// An expression: the input tokens `start..end`.
    Expr { start: usize, end: usize },
    /// `{ entries }`: a nested record.
    Single(Box<FieldSet>),
    /// `[ values ]`
    List(Box<ValueList>),
    /// An expression (the input tokens `start..end`) that is an embedded
    /// literal.
    Embedded { start: usize, end: usize, lit: Box<EmbStruct> },
}

#[derive(Debug)]
pub enum ValueList {
    Nil,
    Cons(Box<FieldValue>, Box<ValueList>),
}

/// `name: value` (the name is the identifier at index `name`).
#[derive(Debug)]
pub struct FieldEntry {
    pub name: usize,
    pub value: FieldValue,
}

/// The entries of a `{ .. }` block, in order.
#[derive(Debug)]
pub enum FieldSet {
    Nil,
    Cons(Box<FieldEntry>, Box<FieldSet>),
}

#[derive(Debug)]
pub enum SetList {
    Nil,
    Cons(Box<FieldSet>, Box<SetList>),
}

/// An item to create.
#[derive(Debug)]
pub enum CreateItem {
    /// `Path { entries }`; the path is the tokens `path_start..path_end`.
    Typed { path_start: usize, path_end: usize, fields: Box<FieldSet> },
    /// `in expr { entries }`; the expression is `expr_start..expr_end`.
    Scoped { expr_start: usize, expr_end: usize, fields: Box<FieldSet> },
    /// `Path::[ { .. }, { .. } ]`
    TypedBatch { path_start: usize, path_end: usize, items: Box<SetList> },
    /// `[ item, item ]`
    Batch(Box<ItemList>),
    /// `( item, item )`
    Tuple(Box<ItemList>),
}

#[derive(Debug)]
pub enum ItemList {
    Nil,
    Cons(Box<CreateItem>, Box<ItemList>),
}

/// The end of the expression starting at `i`: the next comma outside any
/// group, or `hi`.
pub open spec fn value_end(toks: Seq<Tok>, i: int, hi: int) -> int
    decreases hi - i,
{
    if i >= hi || i < 0 || i >= toks.len() {
        hi
    } else if is_punct(toks, i, hi, ',') {
        i
    } else if toks[i] is Open {
        match tree_end(toks, i, hi) {
            Some(e) => if e > i { value_end(toks, e, hi) } else { hi },
            None => hi,
        }
    } else {
        value_end(toks, i + 1, hi)
    }
}

/// An identifier that may stand in a path: any but a reserved word, or
/// one of `self`, `super`, `Self`, `crate`, `try`.
pub open spec fn path_ident(toks: Seq<Tok>, syms: Seq<String>, i: int, hi: int) -> bool {
    0 <= i < hi && i < toks.len() && toks[i] is Ident && crate::query::parse::seg_ok(crate::tokens::sym_text(syms, toks[i]->sym as int))
}

pub(crate) fn path_ident_exec(toks: &Vec<Tok>, syms: &Vec<String>, i: usize, hi: usize) -> (r: bool)
    ensures
        r == path_ident(toks@, syms@, i as int, hi as int),
{
    if i < hi && i < toks.len() {
        match toks[i] {
            Tok::Ident { sym, .. } => {
                let t = crate::tokens::sym_string(syms, sym);
                let s = t.as_str();
                proof {
                    reveal_strlit("self");
                    reveal_strlit("super");
                    reveal_strlit("Self");
                    reveal_strlit("crate");
                    reveal_strlit("try");
                }
                !crate::schema::attr::is_reserved_word_exec(s) || crate::text::str_eq(s, "self") || crate::text::str_eq(s, "super")
                    || crate::text::str_eq(s, "Self") || crate::text::str_eq(s, "crate") || crate::text::str_eq(s, "try")
            },
            _ => false,
        }
    } else {
        false
    }
}

/// The end of the path `[::]ident(::ident)*` at `k` (after its first
/// segment), not taking a `::` that precedes `[`.
pub open spec fn path_tail(toks: Seq<Tok>, syms: Seq<String>, k: int, hi: int) -> int
    decreases hi - k,
{
    if k < hi && is_punct2(toks, k, hi, ':', ':') && path_ident(toks, syms, k + 2, hi) {
        path_tail(toks, syms, k + 3, hi)
    } else {
        k
    }
}

/// The tokens `i..e` are a type path followed by one `{ .. }` group that
/// ends at `e`: a struct literal with a type prefix. The prefix's end.
pub open spec fn struct_prefix(toks: Seq<Tok>, syms: Seq<String>, i: int, e: int) -> Option<int> {
    let j = if is_punct2(toks, i, e, ':', ':') { i + 2 } else { i };
    if path_ident(toks, syms, j, e) {
        let p = path_tail(toks, syms, j + 1, e);
        if is_open(toks, p, e, Delim::Brace) && tree_end(toks, p, e) == Some(e) {
            Some(p)
        } else {
            None
        }
    } else {
        None
    }
}

/// A path at `i` that stops before a `::` followed by `[`: its end.
pub open spec fn path_before_bracket(toks: Seq<Tok>, syms: Seq<String>, i: int, hi: int, scope: usize) -> Result<int, Diag> {
    let j = if is_punct2(toks, i, hi, ':', ':') { i + 2 } else { i };
    match ident_at(toks, syms, j, hi, scope) {
        Err(e) => Err(e),
        Ok(_) => path_segs(toks, syms, j + 1, hi, scope),
    }
}

/// The further segments of such a path from `k`.
pub open spec fn path_segs(toks: Seq<Tok>, syms: Seq<String>, k: int, hi: int, scope: usize) -> Result<int, Diag>
    decreases hi - k,
{
    if k < hi && is_punct2(toks, k, hi, ':', ':') && !is_open(toks, k + 2, hi, Delim::Bracket) {
        match ident_at(toks, syms, k + 2, hi, scope) {
            Err(e) => Err(e),
            Ok(_) => path_segs(toks, syms, k + 3, hi, scope),
        }
    } else {
        Ok(k)
    }
}

/// The index of the `{ .. }` group that ends a scoped item whose expression
/// starts at `j`: the first group outside other groups that the end of the
/// item (a comma or `hi`) follows.
pub open spec fn scope_brace(toks: Seq<Tok>, j: int, hi: int) -> Option<int>
    decreases hi - j,
{
    if j >= hi || j < 0 || j >= toks.len() || is_punct(toks, j, hi, ',') {
        None
    } else if toks[j] is Open {
        match tree_end(toks, j, hi) {
            Some(e) => if e <= j {
                None
            } else if toks[j] matches Tok::Open { delim: Delim::Brace, .. } && (e == hi || is_punct(toks, e, hi, ',')) {
                Some(j)
            } else {
                scope_brace(toks, e, hi)
            },
            None => None,
        }
    } else {
        scope_brace(toks, j + 1, hi)
    }
}

/// A `{ entries }` block at `i`.
pub open spec fn fset_at(toks: Seq<Tok>, syms: Seq<String>, i: int, hi: int, scope: usize) -> Result<(FieldSet, int), Diag>
    decreases hi - i, 1int,
{
    match group_at(toks, i, hi, scope, Delim::Brace, Want::Braces) {
        Err(e) => Err(e),
        Ok(c) => if c <= i || c >= hi {
            Err(Diag::at(toks[i].span_of(), ErrorKind::Unbalanced))
        } else {
            match entries_at(toks, syms, i + 1, c, close_span(toks, c)) {
                Err(e) => Err(e),
                Ok(s) => Ok((s, c + 1)),
            }
        },
    }
}

/// Comma-separated entries from `i` to `hi`.
pub open spec fn entries_at(toks: Seq<Tok>, syms: Seq<String>, i: int, hi: int, scope: usize) -> Result<FieldSet, Diag>
    decreases hi - i, 3int,
{
    if i >= hi {
        Ok(FieldSet::Nil)
    } else {
        match entry_at(toks, syms, i, hi, scope) {
            Err(e) => Err(e),
            Ok((x, j)) => if j <= i || j >= hi {
                Ok(FieldSet::Cons(Box::new(x), Box::new(FieldSet::Nil)))
            } else if !is_punct(toks, j, hi, ',') {
                Err(expect_err(toks, j, hi, scope, Want::Comma))
            } else {
                match entries_at(toks, syms, j + 1, hi, scope) {
                    Err(e) => Err(e),
                    Ok(rest) => Ok(FieldSet::Cons(Box::new(x), Box::new(rest))),
                }
            },
        }
    }
}

/// One entry at `i`: `name: value`, or a bare `name`.
pub open spec fn entry_at(toks: Seq<Tok>, syms: Seq<String>, i: int, hi: int, scope: usize) -> Result<(FieldEntry, int), Diag>
    decreases hi - i, 2int,
{
    match ident_at(toks, syms, i, hi, scope) {
        Err(e) => Err(e),
        Ok(_) => if is_punct(toks, i + 1, hi, ':') && !is_punct2(toks, i + 1, hi, ':', ':') {
            match value_at(toks, syms, i + 2, hi, scope) {
                Err(e) => Err(e),
                Ok((v, j)) => Ok((FieldEntry { name: i as usize, value: v }, j)),
            }
        } else {
            Ok((FieldEntry { name: i as usize, value: FieldValue::Expr { start: i as usize, end: (i + 1) as usize } }, i + 1))
        },
    }
}

/// A value at `i`.
pub open spec fn value_at(toks: Seq<Tok>, syms: Seq<String>, i: int, hi: int, scope: usize) -> Result<(FieldValue, int), Diag>
    decreases hi - i, 2int,
{
    if is_open(toks, i, hi, Delim::Brace) {
        match fset_at(toks, syms, i, hi, scope) {
            Err(e) => Err(e),
            Ok((s, j)) => Ok((FieldValue::Single(Box::new(s)), j)),
        }
    } else if is_open(toks, i, hi, Delim::Bracket) {
        match group_at(toks, i, hi, scope, Delim::Bracket, Want::Brackets) {
            Err(e) => Err(e),
            Ok(c) => if c <= i || c >= hi {
                Err(Diag::at(toks[i].span_of(), ErrorKind::Unbalanced))
            } else {
                match values_at(toks, syms, i + 1, c, close_span(toks, c)) {
                    Err(e) => Err(e),
                    Ok(vs) => Ok((FieldValue::List(Box::new(vs)), c + 1)),
                }
            },
        }
    } else {
        let e = value_end(toks, i, hi);
        if e <= i {
            Err(expect_err(toks, i, hi, scope, Want::Expression))
        } else {
            match struct_prefix(toks, syms, i, e) {
                Some(p) => Err(Diag::at(toks[i].span_of(), ErrorKind::TypePrefixStruct { start: i as usize, end: p as usize })),
                None => match emb_at(toks, syms, i, e) {
                    Some(lit) => Ok((FieldValue::Embedded { start: i as usize, end: e as usize, lit: Box::new(lit) }, e)),
                    None => Ok((FieldValue::Expr { start: i as usize, end: e as usize }, e)),
                },
            }
        }
    }
}

/// Comma-separated values of a list from `i` to `hi`; a list directly in
/// a list is refused.
pub open spec fn values_at(toks: Seq<Tok>, syms: Seq<String>, i: int, hi: int, scope: usize) -> Result<ValueList, Diag>
    decreases hi - i, 3int,
{
    if i >= hi {
        Ok(ValueList::Nil)
    } else if is_open(toks, i, hi, Delim::Bracket) {
        Err(Diag::at(toks[i].span_of(), ErrorKind::NestedListInCreate))
    } else {
        match value_at(toks, syms, i, hi, scope) {
            Err(e) => Err(e),
            Ok((v, j)) => if j <= i || j >= hi {
                Ok(ValueList::Cons(Box::new(v), Box::new(ValueList::Nil)))
            } else if !is_punct(toks, j, hi, ',') {
                Err(expect_err(toks, j, hi, scope, Want::Comma))
            } else {
                match values_at(toks, syms, j + 1, hi, scope) {
                    Err(e) => Err(e),
                    Ok(rest) => Ok(ValueList::Cons(Box::new(v), Box::new(rest))),
                }
            },
        }
    }
}

/// Comma-separated `{ .. }` blocks from `i` to `hi`.
pub open spec fn sets_at(toks: Seq<Tok>, syms: Seq<String>, i: int, hi: int, scope: usize) -> Result<SetList, Diag>
    decreases hi - i, 3int,
{
    if i >= hi {
        Ok(SetList::Nil)
    } else {
        match fset_at(toks, syms, i, hi, scope) {
            Err(e) => Err(e),
            Ok((s, j)) => if j <= i || j >= hi {
                Ok(SetList::Cons(Box::new(s), Box::new(SetList::Nil)))
            } else if !is_punct(toks, j, hi, ',') {
                Err(expect_err(toks, j, hi, scope, Want::Comma))
            } else {
                match sets_at(toks, syms, j + 1, hi, scope) {
                    Err(e) => Err(e),
                    Ok(rest) => Ok(SetList::Cons(Box::new(s), Box::new(rest))),
                }
            },
        }
    }
}

/// An item at `i`.
pub open spec fn item_at(toks: Seq<Tok>, syms: Seq<String>, i: int, hi: int, scope: usize) -> Result<(CreateItem, int), Diag>
    decreases hi - i, 5int,
{
    if is_open(toks, i, hi, Delim::Paren) || is_open(toks, i, hi, Delim::Bracket) {
        let d = if is_open(toks, i, hi, Delim::Paren) { Delim::Paren } else { Delim::Bracket };
        match group_at(toks, i, hi, scope, d, Want::Parens) {
            Err(e) => Err(e),
            Ok(c) => if c <= i || c >= hi {
                Err(Diag::at(toks[i].span_of(), ErrorKind::Unbalanced))
            } else {
                match items_at(toks, syms, i + 1, c, close_span(toks, c)) {
                    Err(e) => Err(e),
                    Ok(items) => Ok((if d == Delim::Paren { CreateItem::Tuple(Box::new(items)) } else { CreateItem::Batch(Box::new(items)) }, c + 1)),
                }
            },
        }
    } else if is_ident(toks, syms, i, hi, "in"@) {
        match scope_brace(toks, i + 1, hi) {
            None => Err(expect_err(toks, value_end(toks, i + 1, hi), hi, scope, Want::Braces)),
            Some(b) => if b <= i + 1 {
                Err(expect_err(toks, i + 1, hi, scope, Want::Expression))
            } else {
                match fset_at(toks, syms, b, hi, scope) {
                    Err(e) => Err(e),
                    Ok((s, j)) => Ok((CreateItem::Scoped { expr_start: (i + 1) as usize, expr_end: b as usize, fields: Box::new(s) }, j)),
                }
            },
        }
    } else {
        match path_before_bracket(toks, syms, i, hi, scope) {
            Err(e) => Err(e),
            Ok(p) => if p < i || p > hi {
                Err(expect_err(toks, i, hi, scope, Want::Ident))
            } else if is_open(toks, p, hi, Delim::Brace) {
                match fset_at(toks, syms, p, hi, scope) {
                    Err(e) => Err(e),
                    Ok((s, j)) => Ok((CreateItem::Typed { path_start: i as usize, path_end: p as usize, fields: Box::new(s) }, j)),
                }
            } else if is_punct2(toks, p, hi, ':', ':') && is_open(toks, p + 2, hi, Delim::Bracket) {
                match group_at(toks, p + 2, hi, scope, Delim::Bracket, Want::Brackets) {
                    Err(e) => Err(e),
                    Ok(c) => if c <= p + 2 || c >= hi {
                        Err(Diag::at(toks[p + 2].span_of(), ErrorKind::Unbalanced))
                    } else {
                        match sets_at(toks, syms, p + 3, c, close_span(toks, c)) {
                            Err(e) => Err(e),
                            Ok(items) => Ok((CreateItem::TypedBatch { path_start: i as usize, path_end: p as usize, items: Box::new(items) }, c + 1)),
                        }
                    },
                }
            } else {
                Err(expect_err(toks, p, hi, scope, Want::BraceOrBatch))
            },
        }
    }
}

/// Comma-separated items from `i` to `hi`.
pub open spec fn items_at(toks: Seq<Tok>, syms: Seq<String>, i: int, hi: int, scope: usize) -> Result<ItemList, Diag>
    decreases hi - i, 6int,
{
    if i >= hi {
        Ok(ItemList::Nil)
    } else {
        match item_at(toks, syms, i, hi, scope) {
            Err(e) => Err(e),
            Ok((x, j)) => if j <= i || j >= hi {
                Ok(ItemList::Cons(Box::new(x), Box::new(ItemList::Nil)))
            } else if !is_punct(toks, j, hi, ',') {
                Err(expect_err(toks, j, hi, scope, Want::Comma))
            } else {
                match items_at(toks, syms, j + 1, hi, scope) {
                    Err(e) => Err(e),
                    Ok(rest) => Ok(ItemList::Cons(Box::new(x), Box::new(rest))),
                }
            },
        }
    }
}

/// The `create!` input held in `toks`: one item and nothing after it.
pub open spec fn create_spec(toks: Seq<Tok>, syms: Seq<String>, scope: usize) -> Result<CreateItem, Diag> {
    match item_at(toks, syms, 0, toks.len() as int, scope) {
        Err(e) => Err(e),
        Ok((x, j)) => if j < toks.len() {
            Err(leftover_err(toks, j, toks.len() as int, scope, None))
        } else {
            Ok(x)
        },
    }
}

pub fn value_end_exec(toks: &Vec<Tok>, i: usize, hi: usize) -> (r: usize)
    requires
        hi <= toks@.len(),
        i <= hi,
    ensures
        r == value_end(toks@, i as int, hi as int),
        i <= r <= hi,
{
    let mut k = i;
    while k < hi
        invariant
            hi <= toks@.len(),
            i <= k <= hi,
            value_end(toks@, i as int, hi as int) == value_end(toks@, k as int, hi as int),
        decreases hi - k,
    {
        if is_punct_exec(toks, k, hi, ',') {
            return k;
        }
        match toks[k] {
            Tok::Open { .. } => {
                proof {
                    lemma_tree_end(toks@, k as int, hi as int);
                }
                match tree_end_exec(toks, k, hi) {
                    Some(e) => {
                        k = e;
                    },
                    None => {
                        return hi;
                    },
                }
            },
            _ => {
                k = k + 1;
            },
        }
    }
    k
}

pub(crate) fn path_tail_exec(toks: &Vec<Tok>, syms: &Vec<String>, k0: usize, hi: usize) -> (r: usize)
    requires
        hi <= toks@.len(),
        k0 <= hi,
    ensures
        r == path_tail(toks@, syms@, k0 as int, hi as int),
        k0 <= r <= hi,
{
    let mut k = k0;
    while k < hi && is_punct2_exec(toks, k, hi, ':', ':') && path_ident_exec(toks, syms, k + 2, hi)
        invariant
            hi <= toks@.len(),
            k0 <= k <= hi,
            path_tail(toks@, syms@, k0 as int, hi as int) == path_tail(toks@, syms@, k as int, hi as int),
        decreases hi - k,
    {
        k = k + 3;
    }
    k
}

fn struct_prefix_exec(toks: &Vec<Tok>, syms: &Vec<String>, i: usize, e: usize) -> (r: Option<usize>)
    requires
        e <= toks@.len(),
        i <= e,
    ensures
        r matches Some(p) ==> struct_prefix(toks@, syms@, i as int, e as int) == Some(p as int),
        r is None ==> struct_prefix(toks@, syms@, i as int, e as int) is None,
{
    let j = if is_punct2_exec(toks, i, e, ':', ':') { i + 2 } else { i };
    if path_ident_exec(toks, syms, j, e) {
        let p = path_tail_exec(toks, syms, j + 1, e);
        if is_open_exec(toks, p, e, Delim::Brace) {
            match tree_end_exec(toks, p, e) {
                Some(t) => {
                    if t == e {
                        return Some(p);
                    }
                },
                None => {},
            }
        }
    }
    None
}

fn path_before_bracket_exec(toks: &Vec<Tok>, syms: &Vec<String>, i: usize, hi: usize, scope: usize) -> (r: Result<usize, Diag>)
    requires
        hi <= toks@.len(),
    ensures
        r matches Ok(p) ==> path_before_bracket(toks@, syms@, i as int, hi as int, scope) == Ok::<int, Diag>(p as int) && i < p <= hi,
        r matches Err(e) ==> path_before_bracket(toks@, syms@, i as int, hi as int, scope) == Err::<int, Diag>(e),
{
    let j = if is_punct2_exec(toks, i, hi, ':', ':') { i + 2 } else { i };
    match ident_at_exec(toks, syms, j, hi, scope) {
        Err(e) => Err(e),
        Ok(_) => {
            let mut k = j + 1;
            while k < hi && is_punct2_exec(toks, k, hi, ':', ':') && !is_open_exec(toks, k + 2, hi, Delim::Bracket)
                invariant
                    hi <= toks@.len(),
                    i < k <= hi,
                    path_before_bracket(toks@, syms@, i as int, hi as int, scope) == path_segs(toks@, syms@, k as int, hi as int, scope),
                decreases hi - k,
            {
                match ident_at_exec(toks, syms, k + 2, hi, scope) {
                    Err(e) => return Err(e),
                    Ok(_) => {
                        k = k + 3;
                    },
                }
            }
            Ok(k)
        },
    }
}

pub fn scope_brace_exec(toks: &Vec<Tok>, j0: usize, hi: usize) -> (r: Option<usize>)
    requires
        hi <= toks@.len(),
    ensures
        r matches Some(b) ==> scope_brace(toks@, j0 as int, hi as int) == Some(b as int) && j0 <= b < hi,
        r is None ==> scope_brace(toks@, j0 as int, hi as int) is None,
{
    let mut j = j0;
    while j < hi
        invariant
            hi <= toks@.len(),
            j0 <= j,
            scope_brace(toks@, j0 as int, hi as int) == scope_brace(toks@, j as int, hi as int),
        decreases hi - j,
    {
        if is_punct_exec(toks, j, hi, ',') {
            return None;
        }
        match toks[j] {
            Tok::Open { delim, .. } => {
                proof {
                    lemma_tree_end(toks@, j as int, hi as int);
                }
                match tree_end_exec(toks, j, hi) {
                    Some(e) => {
                        if delim == Delim::Brace && (e == hi || is_punct_exec(toks, e, hi, ',')) {
                            return Some(j);
                        }
                        j = e;
                    },
                    None => {
                        return None;
                    },
                }
            },
            _ => {
                j = j + 1;
            },
        }
    }
    None
}

fn fset_exec(toks: &Vec<Tok>, syms: &Vec<String>, i: usize, hi: usize, scope: usize) -> (r: Result<(FieldSet, usize), Diag>)
    requires
        hi <= toks@.len(),
    ensures
        r matches Ok((x, j)) ==> fset_at(toks@, syms@, i as int, hi as int, scope) == Ok::<(FieldSet, int), Diag>((x, j as int)) && i < j <= hi,
        r matches Err(e) ==> fset_at(toks@, syms@, i as int, hi as int, scope) == Err::<(FieldSet, int), Diag>(e),
    decreases hi - i, 1int,
{
    let c = match group_at_exec(toks, i, hi, scope, Delim::Brace, Want::Braces) {
        Err(e) => return Err(e),
        Ok(c) => c,
    };
    let cs = close_span_exec(toks, c);
    match entries_exec(toks, syms, i + 1, c, cs) {
        Err(e) => Err(e),
        Ok(s) => Ok((s, c + 1)),
    }
}

fn entries_exec(toks: &Vec<Tok>, syms: &Vec<String>, i: usize, hi: usize, scope: usize) -> (r: Result<FieldSet, Diag>)
    requires
        hi <= toks@.len(),
    ensures
        r matches Ok(x) ==> entries_at(toks@, syms@, i as int, hi as int, scope) == Ok::<FieldSet, Diag>(x),
        r matches Err(e) ==> entries_at(toks@, syms@, i as int, hi as int, scope) == Err::<FieldSet, Diag>(e),
    decreases hi - i, 3int,
{
    if i >= hi {
        return Ok(FieldSet::Nil);
    }
    let (x, j) = match entry_exec(toks, syms, i, hi, scope) {
        Err(e) => return Err(e),
        Ok(p) => p,
    };
    if j >= hi {
        Ok(FieldSet::Cons(Box::new(x), Box::new(FieldSet::Nil)))
    } else if !is_punct_exec(toks, j, hi, ',') {
        Err(expect_err_exec(toks, j, hi, scope, Want::Comma))
    } else {
        match entries_exec(toks, syms, j + 1, hi, scope) {
            Err(e) => Err(e),
            Ok(rest) => Ok(FieldSet::Cons(Box::new(x), Box::new(rest))),
        }
    }
}

fn entry_exec(toks: &Vec<Tok>, syms: &Vec<String>, i: usize, hi: usize, scope: usize) -> (r: Result<(FieldEntry, usize), Diag>)
    requires
        hi <= toks@.len(),
    ensures
        r matches Ok((x, j)) ==> entry_at(toks@, syms@, i as int, hi as int, scope) == Ok::<(FieldEntry, int), Diag>((x, j as int)) && i < j <= hi,
        r matches Err(e) ==> entry_at(toks@, syms@, i as int, hi as int, scope) == Err::<(FieldEntry, int), Diag>(e),
    decreases hi - i, 2int,
{
    match ident_at_exec(toks, syms, i, hi, scope) {
        Err(e) => Err(e),
        Ok(_) => {
            if is_punct_exec(toks, i + 1, hi, ':') && !is_punct2_exec(toks, i + 1, hi, ':', ':') {
                match value_exec(toks, syms, i + 2, hi, scope) {
                    Err(e) => Err(e),
                    Ok((v, j)) => Ok((FieldEntry { name: i, value: v }, j)),
                }
            } else {
                Ok((FieldEntry { name: i, value: FieldValue::Expr { start: i, end: i + 1 } }, i + 1))
            }
        },
    }
}

fn value_exec(toks: &Vec<Tok>, syms: &Vec<String>, i: usize, hi: usize, scope: usize) -> (r: Result<(FieldValue, usize), Diag>)
    requires
        hi <= toks@.len(),
    ensures
        r matches Ok((x, j)) ==> value_at(toks@, syms@, i as int, hi as int, scope) == Ok::<(FieldValue, int), Diag>((x, j as int)) && i < j <= hi,
        r matches Err(e) ==> value_at(toks@, syms@, i as int, hi as int, scope) == Err::<(FieldValue, int), Diag>(e),
    decreases hi - i, 2int,
{
    if is_open_exec(toks, i, hi, Delim::Brace) {
        match fset_exec(toks, syms, i, hi, scope) {
            Err(e) => Err(e),
            Ok((s, j)) => Ok((FieldValue::Single(Box::new(s)), j)),
        }
    } else if is_open_exec(toks, i, hi, Delim::Bracket) {
        let c = match group_at_exec(toks, i, hi, scope, Delim::Bracket, Want::Brackets) {
            Err(e) => return Err(e),
            Ok(c) => c,
        };
        let cs = close_span_exec(toks, c);
        match values_exec(toks, syms, i + 1, c, cs) {
            Err(e) => Err(e),
            Ok(vs) => Ok((FieldValue::List(Box::new(vs)), c + 1)),
        }
    } else {
        if i >= hi {
            return Err(expect_err_exec(toks, i, hi, scope, Want::Expression));
        }
        let e = value_end_exec(toks, i, hi);
        if e <= i {
            Err(expect_err_exec(toks, i, hi, scope, Want::Expression))
        } else {
            match struct_prefix_exec(toks, syms, i, e) {
                Some(p) => Err(Diag { span: toks[i].span(), kind: ErrorKind::TypePrefixStruct { start: i, end: p } }),
                None => match emb_at_exec(toks, syms, i, e) {
                    Some(lit) => Ok((FieldValue::Embedded { start: i, end: e, lit: Box::new(lit) }, e)),
                    None => Ok((FieldValue::Expr { start: i, end: e }, e)),
                },
            }
        }
    }
}

fn values_exec(toks: &Vec<Tok>, syms: &Vec<String>, i: usize, hi: usize, scope: usize) -> (r: Result<ValueList, Diag>)
    requires
        hi <= toks@.len(),
    ensures
        r matches Ok(x) ==> values_at(toks@, syms@, i as int, hi as int, scope) == Ok::<ValueList, Diag>(x),
        r matches Err(e) ==> values_at(toks@, syms@, i as int, hi as int, scope) == Err::<ValueList, Diag>(e),
    decreases hi - i, 3int,
{
    if i >= hi {
        return Ok(ValueList::Nil);
    }
    if is_open_exec(toks, i, hi, Delim::Bracket) {
        return Err(Diag { span: toks[i].span(), kind: ErrorKind::NestedListInCreate });
    }
    let (v, j) = match value_exec(toks, syms, i, hi, scope) {
        Err(e) => return Err(e),
        Ok(p) => p,
    };
    if j >= hi {
        Ok(ValueList::Cons(Box::new(v), Box::new(ValueList::Nil)))
    } else if !is_punct_exec(toks, j, hi, ',') {
        Err(expect_err_exec(toks, j, hi, scope, Want::Comma))
    } else {
        match values_exec(toks, syms, j + 1, hi, scope) {
            Err(e) => Err(e),
            Ok(rest) => Ok(ValueList::Cons(Box::new(v), Box::new(rest))),
        }
    }
}

fn sets_exec(toks: &Vec<Tok>, syms: &Vec<String>, i: usize, hi: usize, scope: usize) -> (r: Result<SetList, Diag>)
    requires
        hi <= toks@.len(),
    ensures
        r matches Ok(x) ==> sets_at(toks@, syms@, i as int, hi as int, scope) == Ok::<SetList, Diag>(x),
        r matches Err(e) ==> sets_at(toks@, syms@, i as int, hi as int, scope) == Err::<SetList, Diag>(e),
    decreases hi - i, 3int,
{
    if i >= hi {
        return Ok(SetList::Nil);
    }
    let (s, j) = match fset_exec(toks, syms, i, hi, scope) {
        Err(e) => return Err(e),
        Ok(p) => p,
    };
    if j >= hi {
        Ok(SetList::Cons(Box::new(s), Box::new(SetList::Nil)))
    } else if !is_punct_exec(toks, j, hi, ',') {
        Err(expect_err_exec(toks, j, hi, scope, Want::Comma))
    } else {
        match sets_exec(toks, syms, j + 1, hi, scope) {
            Err(e) => Err(e),
            Ok(rest) => Ok(SetList::Cons(Box::new(s), Box::new(rest))),
        }
    }
}

fn item_exec(toks: &Vec<Tok>, syms: &Vec<String>, i: usize, hi: usize, scope: usize) -> (r: Result<(CreateItem, usize), Diag>)
    requires
        hi <= toks@.len(),
    ensures
        r matches Ok((x, j)) ==> item_at(toks@, syms@, i as int, hi as int, scope) == Ok::<(CreateItem, int), Diag>((x, j as int)) && i < j <= hi,
        r matches Err(e) ==> item_at(toks@, syms@, i as int, hi as int, scope) == Err::<(CreateItem, int), Diag>(e),
    decreases hi - i, 5int,
{
    let is_paren = is_open_exec(toks, i, hi, Delim::Paren);
    if is_paren || is_open_exec(toks, i, hi, Delim::Bracket) {
        let d = if is_paren { Delim::Paren } else { Delim::Bracket };
        let c = match group_at_exec(toks, i, hi, scope, d, Want::Parens) {
            Err(e) => return Err(e),
            Ok(c) => c,
        };
        let cs = close_span_exec(toks, c);
        match items_exec(toks, syms, i + 1, c, cs) {
            Err(e) => Err(e),
            Ok(items) => {
                let x = if is_paren { CreateItem::Tuple(Box::new(items)) } else { CreateItem::Batch(Box::new(items)) };
                Ok((x, c + 1))
            },
        }
    } else if is_ident_exec(toks, syms, i, hi, "in") {
        match scope_brace_exec(toks, i + 1, hi) {
            None => {
                let ve = value_end_exec(toks, i + 1, hi);
                Err(expect_err_exec(toks, ve, hi, scope, Want::Braces))
            },
            Some(b) => {
                if b <= i + 1 {
                    Err(expect_err_exec(toks, i + 1, hi, scope, Want::Expression))
                } else {
                    match fset_exec(toks, syms, b, hi, scope) {
                        Err(e) => Err(e),
                        Ok((s, j)) => Ok((CreateItem::Scoped { expr_start: i + 1, expr_end: b, fields: Box::new(s) }, j)),
                    }
                }
            },
        }
    } else {
        let p = match path_before_bracket_exec(toks, syms, i, hi, scope) {
            Err(e) => return Err(e),
            Ok(p) => p,
        };
        if is_open_exec(toks, p, hi, Delim::Brace) {
            match fset_exec(toks, syms, p, hi, scope) {
                Err(e) => Err(e),
                Ok((s, j)) => Ok((CreateItem::Typed { path_start: i, path_end: p, fields: Box::new(s) }, j)),
            }
        } else if is_punct2_exec(toks, p, hi, ':', ':') && is_open_exec(toks, p + 2, hi, Delim::Bracket) {
            let c = match group_at_exec(toks, p + 2, hi, scope, Delim::Bracket, Want::Brackets) {
                Err(e) => return Err(e),
                Ok(c) => c,
            };
            let cs = close_span_exec(toks, c);
            match sets_exec(toks, syms, p + 3, c, cs) {
                Err(e) => Err(e),
                Ok(items) => Ok((CreateItem::TypedBatch { path_start: i, path_end: p, items: Box::new(items) }, c + 1)),
            }
        } else {
            Err(expect_err_exec(toks, p, hi, scope, Want::BraceOrBatch))
        }
    }
}

fn items_exec(toks: &Vec<Tok>, syms: &Vec<String>, i: usize, hi: usize, scope: usize) -> (r: Result<ItemList, Diag>)
    requires
        hi <= toks@.len(),
    ensures
        r matches Ok(x) ==> items_at(toks@, syms@, i as int, hi as int, scope) == Ok::<ItemList, Diag>(x),
        r matches Err(e) ==> items_at(toks@, syms@, i as int, hi as int, scope) == Err::<ItemList, Diag>(e),
    decreases hi - i, 6int,
{
    if i >= hi {
        return Ok(ItemList::Nil);
    }
    let (x, j) = match item_exec(toks, syms, i, hi, scope) {
        Err(e) => return Err(e),
        Ok(p) => p,
    };
    if j >= hi {
        Ok(ItemList::Cons(Box::new(x), Box::new(ItemList::Nil)))
    } else if !is_punct_exec(toks, j, hi, ',') {
        Err(expect_err_exec(toks, j, hi, scope, Want::Comma))
    } else {
        match items_exec(toks, syms, j + 1, hi, scope) {
            Err(e) => Err(e),
            Ok(rest) => Ok(ItemList::Cons(Box::new(x), Box::new(rest))),
        }
    }
}

impl CreateItem {
    /// Parses the input of `create!` (`scope` is the span to blame at its
    /// end).
    pub fn parse(toks: &Vec<Tok>, syms: &Vec<String>, scope: usize) -> (r: Result<CreateItem, Diag>)
        ensures
            r matches Ok(x) ==> create_spec(toks@, syms@, scope) == Ok::<CreateItem, Diag>(x),
            r matches Err(e) ==> create_spec(toks@, syms@, scope) == Err::<CreateItem, Diag>(e),
    {
        let n = toks.len();
        match item_exec(toks, syms, 0, n, scope) {
            Err(e) => Err(e),
            Ok((x, j)) => {
                if j < n {
                    Err(leftover_err_exec(toks, j, n, scope, None))
                } else {
                    Ok(x)
                }
            },
        }
    }
}

} // verus!
