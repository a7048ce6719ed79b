//! Parsing the `update!` input.
//!
//! ```text
//! input   := target { entries }
//! entries := entry,*
//! entry   := name : value | name . method ( args ) | name
//! value   := { entries } | [ values ] | expression
//! ```
//!
//! A bare `name` stands for `name: name`; `name.method(args)` stands for
//! `name: toasty::stmt::method(args)` and is one call deep.
use vstd::prelude::*;

use crate::create::parse::{scope_brace, scope_brace_exec, value_end, value_end_exec};
use crate::diag::{Diag, ErrorKind, Want};
use crate::schema::attr::{
    close_span, close_span_exec, expect_err, expect_err_exec, group_at, group_at_exec, ident_at,
    ident_at_exec, leftover_err, leftover_err_exec,
};
use crate::tokens::{
    is_open, is_open_exec, is_punct, is_punct2, is_punct2_exec, is_punct_exec, Delim, Tok,
};

verus! {

/// The arguments of a method shorthand: expressions as token ranges.
#[derive(Debug)]
pub enum ArgList {
    Nil,
    Cons(usize, usize, Box<ArgList>),
}

#[derive(Debug)]
pub enum FieldValue {
    /// An expression: the input tokens `start..end`.
    Expr { start: usize, end: usize },
    /// `{ entries }`: a partial update of an embedded value.
    Single(Box<FieldSet>),
    /// `[ values ]`
    List(Box<ValueList>),
    /// `name.method(args)`: the method's identifier index and arguments.
    Method { combinator: usize, args: Box<ArgList> },
}

#[derive(Debug)]
pub enum ValueList {
    Nil,
    Cons(Box<FieldValue>, Box<ValueList>),
}

#[derive(Debug)]
pub struct FieldEntry {
    /// Index of the field's identifier.
    pub name: usize,
    pub value: FieldValue,
}

#[derive(Debug)]
pub enum FieldSet {
    Nil,
    Cons(Box<FieldEntry>, Box<FieldSet>),
}

/// The parsed `update!` input.
#[derive(Debug)]
pub struct UpdateItem {
    /// The target expression: the input tokens `target_start..target_end`.
    pub target_start: usize,
    pub target_end: usize,
    pub fields: FieldSet,
}

/// Comma-separated arguments from `i` to `hi`, each a nonempty expression.
pub open spec fn args_at(toks: Seq<Tok>, i: int, hi: int, scope: usize) -> Result<ArgList, Diag>
    decreases hi - i,
{
    if i >= hi {
        Ok(ArgList::Nil)
    } else {
        let e = value_end(toks, i, hi);
        if e <= i || e > hi {
            Err(expect_err(toks, i, hi, scope, Want::Expression))
        } else if e >= hi {
            Ok(ArgList::Cons(i as usize, e as usize, Box::new(ArgList::Nil)))
        } else {
            match args_at(toks, e + 1, hi, scope) {
                Err(d) => Err(d),
                Ok(rest) => Ok(ArgList::Cons(i as usize, e as usize, Box::new(rest))),
            }
        }
    }
}

/// A `{ entries }` block at `i`.
pub open spec fn fset_at(toks: Seq<Tok>, syms: Seq<String>, i: int, hi: int, scope: usize) -> Result<(FieldSet, int), Diag>
    decreases hi - i, 1int,
{
    match group_at(toks, i, hi, scope, Delim::Brace, Want::Braces) {
        Err(e) => Err(e),
        Ok(c) => if c <= i || c >= hi {
            Err(Diag::at(toks[i].span_of(), ErrorKind::Unbalanced))
        } else {
            match entries_at(toks, syms, i + 1, c, close_span(toks, c)) {
                Err(e) => Err(e),
                Ok(s) => Ok((s, c + 1)),
            }
        },
    }
}

/// Comma-separated entries from `i` to `hi`.
pub open spec fn entries_at(toks: Seq<Tok>, syms: Seq<String>, i: int, hi: int, scope: usize) -> Result<FieldSet, Diag>
    decreases hi - i, 3int,
{
    if i >= hi {
        Ok(FieldSet::Nil)
    } else {
        match entry_at(toks, syms, i, hi, scope) {
            Err(e) => Err(e),
            Ok((x, j)) => if j <= i || j >= hi {
                Ok(FieldSet::Cons(Box::new(x), Box::new(FieldSet::Nil)))
            } else if !is_punct(toks, j, hi, ',') {
                Err(expect_err(toks, j, hi, scope, Want::Comma))
            } else {
                match entries_at(toks, syms, j + 1, hi, scope) {
                    Err(e) => Err(e),
                    Ok(rest) => Ok(FieldSet::Cons(Box::new(x), Box::new(rest))),
                }
            },
        }
    }
}

/// One entry at `i`.
pub open spec fn entry_at(toks: Seq<Tok>, syms: Seq<String>, i: int, hi: int, scope: usize) -> Result<(FieldEntry, int), Diag>
    decreases hi - i, 2int,
{
    match ident_at(toks, syms, i, hi, scope) {
        Err(e) => Err(e),
        Ok(_) => if is_punct(toks, i + 1, hi, ':') && !is_punct2(toks, i + 1, hi, ':', ':') {
            match value_at(toks, syms, i + 2, hi, scope) {
                Err(e) => Err(e),
                Ok((v, j)) => Ok((FieldEntry { name: i as usize, value: v }, j)),
            }
        } else if is_punct(toks, i + 1, hi, '.') {
            match ident_at(toks, syms, i + 2, hi, scope) {
                Err(e) => Err(e),
                Ok(_) => match group_at(toks, i + 3, hi, scope, Delim::Paren, Want::Parens) {
                    Err(e) => Err(e),
                    Ok(c) => if c <= i + 3 || c >= hi {
                        Err(Diag::at(toks[i + 3].span_of(), ErrorKind::Unbalanced))
                    } else {
                        match args_at(toks, i + 4, c, close_span(toks, c)) {
                            Err(e) => Err(e),
                            Ok(args) => if c + 1 < hi && !is_punct(toks, c + 1, hi, ',') && !is_open(toks, c + 1, hi, Delim::Brace) {
                                Err(Diag::at(toks[c + 1].span_of(), ErrorKind::ChainedShorthand))
                            } else {
                                Ok((FieldEntry { name: i as usize, value: FieldValue::Method { combinator: (i + 2) as usize, args: Box::new(args) } }, c + 1))
                            },
                        }
                    },
                },
            }
        } else {
            Ok((FieldEntry { name: i as usize, value: FieldValue::Expr { start: i as usize, end: (i + 1) as usize } }, i + 1))
        },
    }
}

/// A value at `i`.
pub open spec fn value_at(toks: Seq<Tok>, syms: Seq<String>, i: int, hi: int, scope: usize) -> Result<(FieldValue, int), Diag>
    decreases hi - i, 2int,
{
    if is_open(toks, i, hi, Delim::Brace) {
        match fset_at(toks, syms, i, hi, scope) {
            Err(e) => Err(e),
            Ok((s, j)) => Ok((FieldValue::Single(Box::new(s)), j)),
        }
    } else if is_open(toks, i, hi, Delim::Bracket) {
        match group_at(toks, i, hi, scope, Delim::Bracket, Want::Brackets) {
            Err(e) => Err(e),
            Ok(c) => if c <= i || c >= hi {
                Err(Diag::at(toks[i].span_of(), ErrorKind::Unbalanced))
            } else {
                match values_at(toks, syms, i + 1, c, close_span(toks, c)) {
                    Err(e) => Err(e),
                    Ok(vs) => Ok((FieldValue::List(Box::new(vs)), c + 1)),
                }
            },
        }
    } else {
        let e = value_end(toks, i, hi);
        if e <= i {
            Err(expect_err(toks, i, hi, scope, Want::Expression))
        } else {
            Ok((FieldValue::Expr { start: i as usize, end: e as usize }, e))
        }
    }
}

/// Comma-separated values of a list from `i` to `hi`.
pub open spec fn values_at(toks: Seq<Tok>, syms: Seq<String>, i: int, hi: int, scope: usize) -> Result<ValueList, Diag>
    decreases hi - i, 3int,
{
    if i >= hi {
        Ok(ValueList::Nil)
    } else {
        match value_at(toks, syms, i, hi, scope) {
            Err(e) => Err(e),
            Ok((v, j)) => if j <= i || j >= hi {
                Ok(ValueList::Cons(Box::new(v), Box::new(ValueList::Nil)))
            } else if !is_punct(toks, j, hi, ',') {
                Err(expect_err(toks, j, hi, scope, Want::Comma))
            } else {
                match values_at(toks, syms, j + 1, hi, scope) {
                    Err(e) => Err(e),
                    Ok(rest) => Ok(ValueList::Cons(Box::new(v), Box::new(rest))),
                }
            },
        }
    }
}

/// The `update!` input held in `toks`.
pub open spec fn update_spec(toks: Seq<Tok>, syms: Seq<String>, scope: usize) -> Result<UpdateItem, Diag> {
    let hi = toks.len() as int;
    match scope_brace(toks, 0, hi) {
        None => Err(expect_err(toks, value_end(toks, 0, hi), hi, scope, Want::Braces)),
        Some(b) => if b <= 0 {
            Err(expect_err(toks, 0, hi, scope, Want::Expression))
        } else {
            match fset_at(toks, syms, b, hi, scope) {
                Err(e) => Err(e),
                Ok((s, j)) => if j < hi {
                    Err(leftover_err(toks, j, hi, scope, None))
                } else {
                    Ok(UpdateItem { target_start: 0, target_end: b as usize, fields: s })
                },
            }
        },
    }
}

fn args_exec(toks: &Vec<Tok>, i: usize, hi: usize, scope: usize) -> (r: Result<ArgList, Diag>)
    requires
        hi <= toks@.len(),
    ensures
        r matches Ok(x) ==> args_at(toks@, i as int, hi as int, scope) == Ok::<ArgList, Diag>(x),
        r matches Err(e) ==> args_at(toks@, i as int, hi as int, scope) == Err::<ArgList, Diag>(e),
    decreases hi - i,
{
    if i >= hi {
        return Ok(ArgList::Nil);
    }
    let e = value_end_exec(toks, i, hi);
    if e <= i {
        Err(expect_err_exec(toks, i, hi, scope, Want::Expression))
    } else if e >= hi {
        Ok(ArgList::Cons(i, e, Box::new(ArgList::Nil)))
    } else {
        match args_exec(toks, e + 1, hi, scope) {
            Err(d) => Err(d),
            Ok(rest) => Ok(ArgList::Cons(i, e, Box::new(rest))),
        }
    }
}

fn fset_exec(toks: &Vec<Tok>, syms: &Vec<String>, i: usize, hi: usize, scope: usize) -> (r: Result<(FieldSet, usize), Diag>)
    requires
        hi <= toks@.len(),
    ensures
        r matches Ok((x, j)) ==> fset_at(toks@, syms@, i as int, hi as int, scope) == Ok::<(FieldSet, int), Diag>((x, j as int)) && i < j <= hi,
        r matches Err(e) ==> fset_at(toks@, syms@, i as int, hi as int, scope) == Err::<(FieldSet, int), Diag>(e),
    decreases hi - i, 1int,
{
    let c = match group_at_exec(toks, i, hi, scope, Delim::Brace, Want::Braces) {
        Err(e) => return Err(e),
        Ok(c) => c,
    };
    let cs = close_span_exec(toks, c);
    match entries_exec(toks, syms, i + 1, c, cs) {
        Err(e) => Err(e),
        Ok(s) => Ok((s, c + 1)),
    }
}

fn entries_exec(toks: &Vec<Tok>, syms: &Vec<String>, i: usize, hi: usize, scope: usize) -> (r: Result<FieldSet, Diag>)
    requires
        hi <= toks@.len(),
    ensures
        r matches Ok(x) ==> entries_at(toks@, syms@, i as int, hi as int, scope) == Ok::<FieldSet, Diag>(x),
        r matches Err(e) ==> entries_at(toks@, syms@, i as int, hi as int, scope) == Err::<FieldSet, Diag>(e),
    decreases hi - i, 3int,
{
    if i >= hi {
        return Ok(FieldSet::Nil);
    }
    let (x, j) = match entry_exec(toks, syms, i, hi, scope) {
        Err(e) => return Err(e),
        Ok(p) => p,
    };
    if j >= hi {
        Ok(FieldSet::Cons(Box::new(x), Box::new(FieldSet::Nil)))
    } else if !is_punct_exec(toks, j, hi, ',') {
        Err(expect_err_exec(toks, j, hi, scope, Want::Comma))
    } else {
        match entries_exec(toks, syms, j + 1, hi, scope) {
            Err(e) => Err(e),
            Ok(rest) => Ok(FieldSet::Cons(Box::new(x), Box::new(rest))),
        }
    }
}

fn entry_exec(toks: &Vec<Tok>, syms: &Vec<String>, i: usize, hi: usize, scope: usize) -> (r: Result<(FieldEntry, usize), Diag>)
    requires
        hi <= toks@.len(),
    ensures
        r matches Ok((x, j)) ==> entry_at(toks@, syms@, i as int, hi as int, scope) == Ok::<(FieldEntry, int), Diag>((x, j as int)) && i < j <= hi,
        r matches Err(e) ==> entry_at(toks@, syms@, i as int, hi as int, scope) == Err::<(FieldEntry, int), Diag>(e),
    decreases hi - i, 2int,
{
    match ident_at_exec(toks, syms, i, hi, scope) {
        Err(e) => Err(e),
        Ok(_) => {
            if is_punct_exec(toks, i + 1, hi, ':') && !is_punct2_exec(toks, i + 1, hi, ':', ':') {
                match value_exec(toks, syms, i + 2, hi, scope) {
                    Err(e) => Err(e),
                    Ok((v, j)) => Ok((FieldEntry { name: i, value: v }, j)),
                }
            } else if is_punct_exec(toks, i + 1, hi, '.') {
                match ident_at_exec(toks, syms, i + 2, hi, scope) {
                    Err(e) => Err(e),
                    Ok(_) => {
                        let c = match group_at_exec(toks, i + 3, hi, scope, Delim::Paren, Want::Parens) {
                            Err(e) => return Err(e),
                            Ok(c) => c,
                        };
                        let cs = close_span_exec(toks, c);
                        match args_exec(toks, i + 4, c, cs) {
                            Err(e) => Err(e),
                            Ok(args) => {
                                if c + 1 < hi && !is_punct_exec(toks, c + 1, hi, ',') && !is_open_exec(toks, c + 1, hi, Delim::Brace) {
                                    Err(Diag { span: toks[c + 1].span(), kind: ErrorKind::ChainedShorthand })
                                } else {
                                    Ok((FieldEntry { name: i, value: FieldValue::Method { combinator: i + 2, args: Box::new(args) } }, c + 1))
                                }
                            },
                        }
                    },
                }
            } else {
                Ok((FieldEntry { name: i, value: FieldValue::Expr { start: i, end: i + 1 } }, i + 1))
            }
        },
    }
}

fn value_exec(toks: &Vec<Tok>, syms: &Vec<String>, i: usize, hi: usize, scope: usize) -> (r: Result<(FieldValue, usize), Diag>)
    requires
        hi <= toks@.len(),
    ensures
        r matches Ok((x, j)) ==> value_at(toks@, syms@, i as int, hi as int, scope) == Ok::<(FieldValue, int), Diag>((x, j as int)) && i < j <= hi,
        r matches Err(e) ==> value_at(toks@, syms@, i as int, hi as int, scope) == Err::<(FieldValue, int), Diag>(e),
    decreases hi - i, 2int,
{
    if is_open_exec(toks, i, hi, Delim::Brace) {
        match fset_exec(toks, syms, i, hi, scope) {
            Err(e) => Err(e),
            Ok((s, j)) => Ok((FieldValue::Single(Box::new(s)), j)),
        }
    } else if is_open_exec(toks, i, hi, Delim::Bracket) {
        let c = match group_at_exec(toks, i, hi, scope, Delim::Bracket, Want::Brackets) {
            Err(e) => return Err(e),
            Ok(c) => c,
        };
        let cs = close_span_exec(toks, c);
        match values_exec(toks, syms, i + 1, c, cs) {
            Err(e) => Err(e),
            Ok(vs) => Ok((FieldValue::List(Box::new(vs)), c + 1)),
        }
    } else {
        if i >= hi {
            return Err(expect_err_exec(toks, i, hi, scope, Want::Expression));
        }
        let e = value_end_exec(toks, i, hi);
        if e <= i {
            Err(expect_err_exec(toks, i, hi, scope, Want::Expression))
        } else {
            Ok((FieldValue::Expr { start: i, end: e }, e))
        }
    }
}

fn values_exec(toks: &Vec<Tok>, syms: &Vec<String>, i: usize, hi: usize, scope: usize) -> (r: Result<ValueList, Diag>)
    requires
        hi <= toks@.len(),
    ensures
        r matches Ok(x) ==> values_at(toks@, syms@, i as int, hi as int, scope) == Ok::<ValueList, Diag>(x),
        r matches Err(e) ==> values_at(toks@, syms@, i as int, hi as int, scope) == Err::<ValueList, Diag>(e),
    decreases hi - i, 3int,
{
    if i >= hi {
        return Ok(ValueList::Nil);
    }
    let (v, j) = match value_exec(toks, syms, i, hi, scope) {
        Err(e) => return Err(e),
        Ok(p) => p,
    };
    if j >= hi {
        Ok(ValueList::Cons(Box::new(v), Box::new(ValueList::Nil)))
    } else if !is_punct_exec(toks, j, hi, ',') {
        Err(expect_err_exec(toks, j, hi, scope, Want::Comma))
    } else {
        match values_exec(toks, syms, j + 1, hi, scope) {
            Err(e) => Err(e),
            Ok(rest) => Ok(ValueList::Cons(Box::new(v), Box::new(rest))),
        }
    }
}

impl UpdateItem {
    /// Parses the input of `update!` (`scope` is the span to blame at its
    /// end).
    pub fn parse(toks: &Vec<Tok>, syms: &Vec<String>, scope: usize) -> (r: Result<UpdateItem, Diag>)
        ensures
            r matches Ok(x) ==> update_spec(toks@, syms@, scope) == Ok::<UpdateItem, Diag>(x),
            r matches Err(e) ==> update_spec(toks@, syms@, scope) == Err::<UpdateItem, Diag>(e),
    {
        let hi = toks.len();
        match scope_brace_exec(toks, 0, hi) {
            None => {
                let ve = value_end_exec(toks, 0, hi);
                Err(expect_err_exec(toks, ve, hi, scope, Want::Braces))
            },
            Some(b) => {
                if b == 0 {
                    return Err(expect_err_exec(toks, 0, hi, scope, Want::Expression));
                }
                match fset_exec(toks, syms, b, hi, scope) {
                    Err(e) => Err(e),
                    Ok((s, j)) => {
                        if j < hi {
                            Err(leftover_err_exec(toks, j, hi, scope, None))
                        } else {
                            Ok(UpdateItem { target_start: 0, target_end: b, fields: s })
                        }
                    },
                }
            },
        }
    }
}

} // verus!
