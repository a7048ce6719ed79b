//! Embedded values in `create!` field values. A struct literal some of
//! whose fields borrow (`&..`) or are themselves such literals, possibly
//! inside parentheses or a one-argument `Some(..)`, is built with the
//! embedded type's create builder, so that it may leave out the fields
//! that the parent record fills in:
//!
//! ```text
//! addr: Some(Address { street: &s, zip })
//!     .addr(Address::__toasty_create().street(&s).zip(zip))
//! shape: Some(Shape::Circle { center: &c })
//!     .shape(Shape::__toasty_create_Circle().center(&c))
//! ```
//!
//! The last path segment names an enum variant when the segment before it
//! starts with an uppercase letter. A literal with `..base`, or with no
//! borrowed or embedded field, stays as written.
use vstd::prelude::*;

use super::parse::{path_ident, path_ident_exec, path_tail, value_end, value_end_exec};
use crate::case::{char_is_uppercase, is_uppercase};
use crate::emit::{copies, parens, path_sep, punct, push_copies, push_path_sep, push_punct, OutTok, Word};
use crate::text::chars_of;
use crate::tokens::{
    is_ident, is_ident_exec, is_lit, is_lit_exec, is_open, is_open_exec, is_punct, is_punct2,
    is_punct2_exec, is_punct_exec, lemma_tree_end, sym_string, sym_text, tree_end, tree_end_exec,
    Delim, LitKind, Tok,
};

verus! {

/// A recognized embedded struct literal.
#[derive(Debug)]
pub struct EmbStruct {
    /// The literal's path is the input tokens `path_start..` up to the
    /// constructor: `path_start..ctor_end` is the type the builder is
    /// called on.
    pub path_start: usize,
    pub ctor_end: usize,
    /// The variant's identifier, when the path names an enum variant.
    pub variant: Option<usize>,
    pub fields: EmbFields,
}

/// The fields of a literal, in order.
#[derive(Debug)]
pub enum EmbFields {
    Nil,
    /// The member at token `member`, its value, and the rest.
    Cons(usize, Box<EmbValue>, Box<EmbFields>),
}

/// A field's value: an expression as written, or an embedded literal.
#[derive(Debug)]
pub enum EmbValue {
    Expr { start: usize, end: usize },
    Lit(Box<EmbStruct>),
}

/// The end of an expression lies between its start and the bound.
pub proof fn lemma_value_end_bounds(toks: Seq<Tok>, i: int, hi: int)
    requires
        0 <= i <= hi <= toks.len(),
    ensures
        i <= value_end(toks, i, hi) <= hi,
    decreases hi - i,
{
    if i < hi && !is_punct(toks, i, hi, ',') {
        if toks[i] is Open {
            lemma_tree_end(toks, i, hi);
            match tree_end(toks, i, hi) {
                Some(e) => if e > i {
                    lemma_value_end_bounds(toks, e, hi);
                },
                None => {},
            }
        } else {
            lemma_value_end_bounds(toks, i + 1, hi);
        }
    }
}

/// The identifier at `k` starts with an uppercase letter.
pub open spec fn starts_upper(toks: Seq<Tok>, syms: Seq<String>, k: int) -> bool {
    0 <= k < toks.len() && toks[k] is Ident && {
        let t = sym_text(syms, toks[k]->sym as int);
        t.len() > 0 && is_uppercase(t[0])
    }
}

/// The path at `i` (an optional leading `::`, then identifiers joined by
/// `::`): the index of its first identifier and its end.
pub open spec fn lit_path(toks: Seq<Tok>, syms: Seq<String>, i: int, e: int) -> Option<(int, int)> {
    let j = if is_punct2(toks, i, e, ':', ':') { i + 2 } else { i };
    if path_ident(toks, syms, j, e) {
        Some((j, path_tail(toks, syms, j + 1, e)))
    } else {
        None
    }
}

/// The embedded literal that the expression `i..e` is, if any.
pub open spec fn emb_at(toks: Seq<Tok>, syms: Seq<String>, i: int, e: int) -> Option<EmbStruct>
    decreases e - i, 1int,
{
    if i < 0 || e > toks.len() || i >= e {
        None
    } else if is_open(toks, i, e, Delim::Paren) && tree_end(toks, i, e) == Some(e) && i + 1 < e - 1
        && value_end(toks, i + 1, e - 1) == e - 1 {
        // `( expr )`
        emb_at(toks, syms, i + 1, e - 1)
    } else {
        match lit_path(toks, syms, i, e) {
            None => None,
            Some((j, p)) => if p <= j || p >= e {
                None
            } else if is_open(toks, p, e, Delim::Paren) && tree_end(toks, p, e) == Some(e) && is_ident(toks, syms, p - 1, e, "Some"@) {
                // `Some(expr)` with one argument
                let a = value_end(toks, p + 1, e - 1);
                if p + 1 < a && (a == e - 1 || (a == e - 2 && is_punct(toks, a, e - 1, ','))) {
                    emb_at(toks, syms, p + 1, a)
                } else {
                    None
                }
            } else if is_open(toks, p, e, Delim::Brace) && tree_end(toks, p, e) == Some(e) {
                match emb_fields(toks, syms, p + 1, e - 1) {
                    Some((fs, true)) => {
                        let variant = p >= j + 4 && starts_upper(toks, syms, p - 4);
                        Some(EmbStruct {
                            path_start: i as usize,
                            ctor_end: (if variant { p - 3 } else { p }) as usize,
                            variant: if variant { Some((p - 1) as usize) } else { None },
                            fields: fs,
                        })
                    },
                    _ => None,
                }
            } else {
                None
            },
        }
    }
}

/// The fields of a literal from `k` to `c`, and whether one of them borrows
/// or is an embedded literal.
pub open spec fn emb_fields(toks: Seq<Tok>, syms: Seq<String>, k: int, c: int) -> Option<(EmbFields, bool)>
    decreases c - k, 1int,
{
    if k >= c || k < 0 || c > toks.len() {
        Some((EmbFields::Nil, false))
    } else if is_punct(toks, k + 1, c, ':') && !is_punct2(toks, k + 1, c, ':', ':') {
        // `member: value`
        let v1 = value_end(toks, k + 2, c);
        proof {
            lemma_value_end_bounds(toks, k + 2, c);
        }
        if !(toks[k] is Ident || is_lit(toks, k, c, LitKind::Int)) || v1 <= k + 2 {
            None
        } else {
            let sub = emb_at(toks, syms, k + 2, v1);
            let val = match sub {
                Some(s) => EmbValue::Lit(Box::new(s)),
                None => EmbValue::Expr { start: (k + 2) as usize, end: v1 as usize },
            };
            let flag = is_punct(toks, k + 2, v1, '&') || sub is Some;
            emb_rest(toks, syms, k, c, val, flag, v1)
        }
    } else if toks[k] is Ident {
        // shorthand `member`
        emb_rest(toks, syms, k, c, EmbValue::Expr { start: k as usize, end: (k + 1) as usize }, false, k + 1)
    } else {
        None
    }
}

/// The field at `k` with value `val`, followed by the fields after `next`.
pub open spec fn emb_rest(toks: Seq<Tok>, syms: Seq<String>, k: int, c: int, val: EmbValue, flag: bool, next: int) -> Option<(EmbFields, bool)>
    decreases c - k, 0int,
{
    if next >= c {
        Some((EmbFields::Cons(k as usize, Box::new(val), Box::new(EmbFields::Nil)), flag))
    } else if next > k && is_punct(toks, next, c, ',') {
        match emb_fields(toks, syms, next + 1, c) {
            Some((rest, any)) => Some((EmbFields::Cons(k as usize, Box::new(val), Box::new(rest)), flag || any)),
            None => None,
        }
    } else {
        None
    }
}

/// What an embedded literal expands to: the builder constructor, then one
/// setter per field.
pub open spec fn emb_struct_out(s: EmbStruct) -> Seq<OutTok>
    decreases s, 1int,
{
    copies(s.path_start as int, s.ctor_end as int) + path_sep()
        + (match s.variant {
            Some(v) => seq![OutTok::CreateVariant(v)],
            None => seq![OutTok::Word(Word::ToastyCreate)],
        }) + parens(Seq::empty()) + emb_fields_out(s.fields)
}

/// `.member(value)` for each field.
pub open spec fn emb_fields_out(fs: EmbFields) -> Seq<OutTok>
    decreases fs, 0int,
{
    match fs {
        EmbFields::Nil => Seq::empty(),
        EmbFields::Cons(m, v, rest) => punct('.') + seq![OutTok::Copy(m)] + parens(emb_value_out(*v)) + emb_fields_out(*rest),
    }
}

pub open spec fn emb_value_out(v: EmbValue) -> Seq<OutTok>
    decreases v, 0int,
{
    match v {
        EmbValue::Expr { start, end } => copies(start as int, end as int),
        EmbValue::Lit(s) => emb_struct_out(*s),
    }
}

fn starts_upper_exec(toks: &Vec<Tok>, syms: &Vec<String>, k: usize) -> (r: bool)
    ensures
        r == starts_upper(toks@, syms@, k as int),
{
    if k < toks.len() {
        match toks[k] {
            Tok::Ident { sym, .. } => {
                let t = sym_string(syms, sym);
                let cs = chars_of(t.as_str());
                cs.len() > 0 && char_is_uppercase(cs[0])
            },
            _ => false,
        }
    } else {
        false
    }
}

fn lit_path_exec(toks: &Vec<Tok>, syms: &Vec<String>, i: usize, e: usize) -> (r: Option<(usize, usize)>)
    requires
        e <= toks@.len(),
        i <= e,
    ensures
        r matches Some((j, p)) ==> lit_path(toks@, syms@, i as int, e as int) == Some((j as int, p as int)),
        r is None ==> lit_path(toks@, syms@, i as int, e as int) is None,
{
    let j = if is_punct2_exec(toks, i, e, ':', ':') { i + 2 } else { i };
    if path_ident_exec(toks, syms, j, e) {
        let p = super::parse::path_tail_exec(toks, syms, j + 1, e);
        Some((j, p))
    } else {
        None
    }
}

/// Recognizes the embedded literal that the expression `i..e` is.
pub fn emb_at_exec(toks: &Vec<Tok>, syms: &Vec<String>, i: usize, e: usize) -> (r: Option<EmbStruct>)
    requires
        e <= toks@.len(),
    ensures
        r == emb_at(toks@, syms@, i as int, e as int),
    decreases e - i, 1int,
{
    if i >= e {
        return None;
    }
    proof {
        lemma_tree_end(toks@, i as int, e as int);
    }
    if is_open_exec(toks, i, e, Delim::Paren) && i + 1 < e - 1 {
        let t = tree_end_exec(toks, i, e);
        if t == Some(e) && value_end_exec(toks, i + 1, e - 1) == e - 1 {
            return emb_at_exec(toks, syms, i + 1, e - 1);
        }
    }
    match lit_path_exec(toks, syms, i, e) {
        None => None,
        Some((j, p)) => {
            if p <= j || p >= e {
                return None;
            }
            proof {
                lemma_tree_end(toks@, p as int, e as int);
            }
            let closes = match tree_end_exec(toks, p, e) {
                Some(t) => t == e,
                None => false,
            };
            if is_open_exec(toks, p, e, Delim::Paren) && closes && is_ident_exec(toks, syms, p - 1, e, "Some") {
                let a = value_end_exec(toks, p + 1, e - 1);
                if p + 1 < a && (a == e - 1 || (a == e - 2 && is_punct_exec(toks, a, e - 1, ','))) {
                    emb_at_exec(toks, syms, p + 1, a)
                } else {
                    None
                }
            } else if is_open_exec(toks, p, e, Delim::Brace) && closes {
                match emb_fields_exec(toks, syms, p + 1, e - 1) {
                    Some((fs, any)) => {
                        if !any {
                            return None;
                        }
                        let variant = p >= j + 4 && starts_upper_exec(toks, syms, p - 4);
                        Some(EmbStruct {
                            path_start: i,
                            ctor_end: if variant { p - 3 } else { p },
                            variant: if variant { Some(p - 1) } else { None },
                            fields: fs,
                        })
                    },
                    None => None,
                }
            } else {
                None
            }
        },
    }
}

fn emb_fields_exec(toks: &Vec<Tok>, syms: &Vec<String>, k: usize, c: usize) -> (r: Option<(EmbFields, bool)>)
    requires
        c <= toks@.len(),
    ensures
        r == emb_fields(toks@, syms@, k as int, c as int),
    decreases c - k, 1int,
{
    if k >= c {
        return Some((EmbFields::Nil, false));
    }
    if is_punct_exec(toks, k + 1, c, ':') && !is_punct2_exec(toks, k + 1, c, ':', ':') {
        let member = match toks[k] {
            Tok::Ident { .. } => true,
            _ => is_lit_exec(toks, k, c, LitKind::Int),
        };
        let v1 = value_end_exec(toks, k + 2, c);
        if !member || v1 <= k + 2 {
            return None;
        }
        let sub = emb_at_exec(toks, syms, k + 2, v1);
        let flag = is_punct_exec(toks, k + 2, v1, '&') || sub.is_some();
        let val = match sub {
            Some(s) => EmbValue::Lit(Box::new(s)),
            None => EmbValue::Expr { start: k + 2, end: v1 },
        };
        emb_rest_exec(toks, syms, k, c, val, flag, v1)
    } else {
        match toks[k] {
            Tok::Ident { .. } => emb_rest_exec(toks, syms, k, c, EmbValue::Expr { start: k, end: k + 1 }, false, k + 1),
            _ => None,
        }
    }
}

fn emb_rest_exec(toks: &Vec<Tok>, syms: &Vec<String>, k: usize, c: usize, val: EmbValue, flag: bool, next: usize) -> (r: Option<(EmbFields, bool)>)
    requires
        c <= toks@.len(),
        k < c,
        k < next,
    ensures
        r == emb_rest(toks@, syms@, k as int, c as int, val, flag, next as int),
    decreases c - k, 0int,
{
    if next >= c {
        Some((EmbFields::Cons(k, Box::new(val), Box::new(EmbFields::Nil)), flag))
    } else if is_punct_exec(toks, next, c, ',') {
        match emb_fields_exec(toks, syms, next + 1, c) {
            Some((rest, any)) => Some((EmbFields::Cons(k, Box::new(val), Box::new(rest)), flag || any)),
            None => None,
        }
    } else {
        None
    }
}

/// Appends the expansion of an embedded literal.
pub fn push_emb_struct(s: &EmbStruct, out: &mut Vec<OutTok>)
    ensures
        final(out)@ == old(out)@ + emb_struct_out(*s),
    decreases *s, 1int,
{
    push_copies(s.path_start, s.ctor_end, out);
    push_path_sep(out);
    match s.variant {
        Some(v) => out.push(OutTok::CreateVariant(v)),
        None => out.push(OutTok::Word(Word::ToastyCreate)),
    }
    out.push(OutTok::Open(Delim::Paren));
    out.push(OutTok::Close(Delim::Paren));
    let ghost mid = out@;
    push_emb_fields(&s.fields, out);
    assert(out@ =~= old(out)@ + emb_struct_out(*s));
}

fn push_emb_fields(fs: &EmbFields, out: &mut Vec<OutTok>)
    ensures
        final(out)@ == old(out)@ + emb_fields_out(*fs),
    decreases *fs, 0int,
{
    match fs {
        EmbFields::Nil => {
            assert(out@ =~= old(out)@ + emb_fields_out(*fs));
        },
        EmbFields::Cons(m, v, rest) => {
            push_punct('.', out);
            out.push(OutTok::Copy(*m));
            out.push(OutTok::Open(Delim::Paren));
            push_emb_value(v, out);
            out.push(OutTok::Close(Delim::Paren));
            push_emb_fields(rest, out);
            assert(out@ =~= old(out)@ + emb_fields_out(*fs));
        },
    }
}

fn push_emb_value(v: &EmbValue, out: &mut Vec<OutTok>)
    ensures
        final(out)@ == old(out)@ + emb_value_out(*v),
    decreases *v, 0int,
{
    match v {
        EmbValue::Expr { start, end } => push_copies(*start, *end, out),
        EmbValue::Lit(s) => push_emb_struct(s, out),
    }
}

} // verus!
