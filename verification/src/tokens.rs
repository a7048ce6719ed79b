//! A plain model of Rust token streams.
//!
//! A stream is a flat sequence of tokens; a delimited group is an `Open`
//! token, the group's contents, and the matching `Close` token. Identifiers
//! and literals refer by index to a symbol table of strings, so tokens are
//! plain copyable values. Every token carries a span number that the caller
//! uses to point diagnostics back at the source.
use vstd::prelude::*;

use crate::text::{eq_ignore_ascii_case, is_empty_str, str_eq, str_eq_ignore_ascii_case};

verus! {

/// Group delimiters.
#[derive(Clone, Copy, PartialEq, Eq, Debug, Structural)]
pub enum Delim {
    Paren,
    Bracket,
    Brace,
}

/// Literal kinds the macros tell apart.
#[derive(Clone, Copy, PartialEq, Eq, Debug, Structural)]
pub enum LitKind {
    /// A string literal; `value` names its unescaped contents.
    Str,
    /// An integer literal; `value` names its base-10 digits.
    Int,
    /// A floating-point literal; `value` names its source text.
    Float,
    /// Any other literal (chars, bytes, byte strings, ...); `value` names
    /// its source text.
    Other,
}

/// One token.
#[derive(Clone, Copy, PartialEq, Eq, Debug, Structural)]
pub enum Tok {
    Ident { sym: usize, span: usize },
    Punct { ch: char, joint: bool, span: usize },
    Lit { kind: LitKind, repr: usize, value: usize, span: usize },
    Open { delim: Delim, span: usize },
    Close { delim: Delim, span: usize },
}

impl Tok {
    pub open spec fn span_of(self) -> usize {
        match self {
            Tok::Ident { span, .. } => span,
            Tok::Punct { span, .. } => span,
            Tok::Lit { span, .. } => span,
            Tok::Open { span, .. } => span,
            Tok::Close { span, .. } => span,
        }
    }

    pub fn span(&self) -> (r: usize)
        ensures
            r == self.span_of(),
    {
        match self {
            Tok::Ident { span, .. } => *span,
            Tok::Punct { span, .. } => *span,
            Tok::Lit { span, .. } => *span,
            Tok::Open { span, .. } => *span,
            Tok::Close { span, .. } => *span,
        }
    }
}

/// The text of symbol `i`, or the empty text for an index out of range.
pub open spec fn sym_text(syms: Seq<String>, i: int) -> Seq<char> {
    if 0 <= i < syms.len() {
        syms[i]@
    } else {
        Seq::empty()
    }
}

/// The span of the token at `i`, or `dflt` past the end of the range.
pub open spec fn span_at(toks: Seq<Tok>, i: int, hi: int, dflt: usize) -> usize {
    if 0 <= i < hi && i < toks.len() {
        toks[i].span_of()
    } else {
        dflt
    }
}

pub fn span_at_exec(toks: &Vec<Tok>, i: usize, hi: usize, dflt: usize) -> (r: usize)
    ensures
        r == span_at(toks@, i as int, hi as int, dflt),
{
    if i < hi && i < toks.len() {
        toks[i].span()
    } else {
        dflt
    }
}

/// The text of a symbol, as a new string (empty when out of range).
pub fn sym_string(syms: &Vec<String>, i: usize) -> (r: String)
    ensures
        r@ == sym_text(syms@, i as int),
{
    if i < syms.len() {
        syms[i].clone()
    } else {
        String::new()
    }
}

/// Index of the token that closes the group whose contents start at `j`
/// with nesting `depth`, searching below `hi`; `hi` when there is none.
pub open spec fn close_from(toks: Seq<Tok>, j: int, depth: int, hi: int) -> int
    decreases hi - j,
{
    if j >= hi || j >= toks.len() || j < 0 {
        hi
    } else {
        match toks[j] {
            Tok::Open { .. } => close_from(toks, j + 1, depth + 1, hi),
            Tok::Close { .. } => if depth <= 1 {
                j
            } else {
                close_from(toks, j + 1, depth - 1, hi)
            },
            _ => close_from(toks, j + 1, depth, hi),
        }
    }
}

proof fn lemma_close_from_bounds(toks: Seq<Tok>, j: int, depth: int, hi: int)
    ensures
        close_from(toks, j, depth, hi) == hi || (j <= close_from(toks, j, depth, hi) < hi
            && close_from(toks, j, depth, hi) < toks.len()),
    decreases hi - j,
{
    if j >= hi || j >= toks.len() || j < 0 {
    } else {
        match toks[j] {
            Tok::Open { .. } => lemma_close_from_bounds(toks, j + 1, depth + 1, hi),
            Tok::Close { .. } => if depth > 1 {
                lemma_close_from_bounds(toks, j + 1, depth - 1, hi)
            },
            _ => lemma_close_from_bounds(toks, j + 1, depth, hi),
        }
    }
}

/// The index just past the token tree that starts at `i` (a single token,
/// or a whole group), or `None` when a group is not closed below `hi`.
pub open spec fn tree_end(toks: Seq<Tok>, i: int, hi: int) -> Option<int> {
    if i < 0 || i >= hi || i >= toks.len() {
        None
    } else if toks[i] is Open {
        let c = close_from(toks, i + 1, 1, hi);
        if c < hi {
            Some(c + 1)
        } else {
            None
        }
    } else if toks[i] is Close {
        None
    } else {
        Some(i + 1)
    }
}

pub proof fn lemma_tree_end(toks: Seq<Tok>, i: int, hi: int)
    requires
        hi <= toks.len(),
    ensures
        tree_end(toks, i, hi) matches Some(e) ==> i < e <= hi,
        toks[i] is Open ==> (tree_end(toks, i, hi) matches Some(e) ==> i + 2 <= e && toks[e
            - 1] is Close),
{
    if 0 <= i < hi && i < toks.len() && toks[i] is Open {
        lemma_close_from_bounds(toks, i + 1, 1, hi);
        lemma_close_is_close(toks, i + 1, 1, hi);
    }
}

proof fn lemma_close_is_close(toks: Seq<Tok>, j: int, depth: int, hi: int)
    requires
        hi <= toks.len(),
    ensures
        close_from(toks, j, depth, hi) < hi ==> toks[close_from(toks, j, depth, hi)] is Close,
    decreases hi - j,
{
    if j >= hi || j >= toks.len() || j < 0 {
    } else {
        match toks[j] {
            Tok::Open { .. } => lemma_close_is_close(toks, j + 1, depth + 1, hi),
            Tok::Close { .. } => if depth > 1 {
                lemma_close_is_close(toks, j + 1, depth - 1, hi)
            },
            _ => lemma_close_is_close(toks, j + 1, depth, hi),
        }
    }
}

/// Finds the index just past the token tree that starts at `i`.
pub fn tree_end_exec(toks: &Vec<Tok>, i: usize, hi: usize) -> (r: Option<usize>)
    requires
        hi <= toks.len(),
    ensures
        r matches Some(e) ==> tree_end(toks@, i as int, hi as int) == Some(e as int),
        r is None ==> tree_end(toks@, i as int, hi as int) is None,
        r matches Some(e) ==> i < e <= hi,
{
    proof {
        lemma_tree_end(toks@, i as int, hi as int);
    }
    if i >= hi {
        return None;
    }
    match toks[i] {
        Tok::Open { .. } => {
            let mut j: usize = i + 1;
            let mut depth: usize = 1;
            while j < hi
                invariant
                    hi <= toks.len(),
                    i < j <= hi,
                    depth >= 1,
                    depth <= j - i,
                    toks@[i as int] is Open,
                    close_from(toks@, i + 1, 1, hi as int) == close_from(
                        toks@,
                        j as int,
                        depth as int,
                        hi as int,
                    ),
                decreases hi - j,
            {
                match toks[j] {
                    Tok::Open { .. } => {
                        depth = depth + 1;
                    },
                    Tok::Close { .. } => {
                        if depth <= 1 {
                            return Some(j + 1);
                        }
                        depth = depth - 1;
                    },
                    _ => {},
                }
                j = j + 1;
            }
            None
        },
        Tok::Close { .. } => None,
        _ => Some(i + 1),
    }
}

/// The token at `i` is an identifier whose text is `text`.
pub open spec fn is_ident(toks: Seq<Tok>, syms: Seq<String>, i: int, hi: int, text: Seq<char>) -> bool {
    0 <= i < hi && i < toks.len() && match toks[i] {
        Tok::Ident { sym, .. } => sym_text(syms, sym as int) == text,
        _ => false,
    }
}

/// The token at `i` is an identifier equal to `kw` up to ASCII case.
pub open spec fn is_keyword(toks: Seq<Tok>, syms: Seq<String>, i: int, hi: int, kw: Seq<char>) -> bool {
    0 <= i < hi && i < toks.len() && match toks[i] {
        Tok::Ident { sym, .. } => eq_ignore_ascii_case(sym_text(syms, sym as int), kw),
        _ => false,
    }
}

/// The token at `i` is some identifier.
pub open spec fn is_any_ident(toks: Seq<Tok>, i: int, hi: int) -> bool {
    0 <= i < hi && i < toks.len() && toks[i] is Ident
}

/// The token at `i` is the punctuation character `ch`.
pub open spec fn is_punct(toks: Seq<Tok>, i: int, hi: int, ch: char) -> bool {
    0 <= i < hi && i < toks.len() && match toks[i] {
        Tok::Punct { ch: c, .. } => c == ch,
        _ => false,
    }
}

/// The tokens at `i` and `i + 1` spell the two-character operator `ab`: the
/// first is joined to the second.
pub open spec fn is_punct2(toks: Seq<Tok>, i: int, hi: int, a: char, b: char) -> bool {
    &&& is_punct(toks, i, hi, a)
    &&& toks[i] matches Tok::Punct { joint, .. } && joint
    &&& is_punct(toks, i + 1, hi, b)
}

/// The token at `i` opens a group with delimiter `d`.
pub open spec fn is_open(toks: Seq<Tok>, i: int, hi: int, d: Delim) -> bool {
    0 <= i < hi && i < toks.len() && match toks[i] {
        Tok::Open { delim, .. } => delim == d,
        _ => false,
    }
}

/// The token at `i` is a literal of kind `k`.
pub open spec fn is_lit(toks: Seq<Tok>, i: int, hi: int, k: LitKind) -> bool {
    0 <= i < hi && i < toks.len() && match toks[i] {
        Tok::Lit { kind, .. } => kind == k,
        _ => false,
    }
}

pub fn is_ident_exec(toks: &Vec<Tok>, syms: &Vec<String>, i: usize, hi: usize, text: &str) -> (r: bool)
    ensures
        r == is_ident(toks@, syms@, i as int, hi as int, text@),
{
    if i < hi && i < toks.len() {
        match toks[i] {
            Tok::Ident { sym, .. } => {
                if sym < syms.len() {
                    str_eq(syms[sym].as_str(), text)
                } else {
                    is_empty_str(text)
                }
            },
            _ => false,
        }
    } else {
        false
    }
}

pub fn is_keyword_exec(toks: &Vec<Tok>, syms: &Vec<String>, i: usize, hi: usize, kw: &str) -> (r: bool)
    ensures
        r == is_keyword(toks@, syms@, i as int, hi as int, kw@),
{
    if i < hi && i < toks.len() {
        match toks[i] {
            Tok::Ident { sym, .. } => {
                if sym < syms.len() {
                    str_eq_ignore_ascii_case(syms[sym].as_str(), kw)
                } else {
                    let r = is_empty_str(kw);
                    proof {
                        if eq_ignore_ascii_case(Seq::<char>::empty(), kw@) {
                            assert(kw@ =~= Seq::<char>::empty());
                        }
                    }
                    r
                }
            },
            _ => false,
        }
    } else {
        false
    }
}

pub fn is_any_ident_exec(toks: &Vec<Tok>, i: usize, hi: usize) -> (r: bool)
    ensures
        r == is_any_ident(toks@, i as int, hi as int),
{
    if i < hi && i < toks.len() {
        match toks[i] {
            Tok::Ident { .. } => true,
            _ => false,
        }
    } else {
        false
    }
}

pub fn is_punct_exec(toks: &Vec<Tok>, i: usize, hi: usize, ch: char) -> (r: bool)
    ensures
        r == is_punct(toks@, i as int, hi as int, ch),
{
    if i < hi && i < toks.len() {
        match toks[i] {
            Tok::Punct { ch: c, .. } => c == ch,
            _ => false,
        }
    } else {
        false
    }
}

pub fn is_punct2_exec(toks: &Vec<Tok>, i: usize, hi: usize, a: char, b: char) -> (r: bool)
    ensures
        r == is_punct2(toks@, i as int, hi as int, a, b),
{
    if !is_punct_exec(toks, i, hi, a) {
        return false;
    }
    let joint = match toks[i] {
        Tok::Punct { joint, .. } => joint,
        _ => false,
    };
    joint && i < usize::MAX && is_punct_exec(toks, i + 1, hi, b)
}

pub fn is_open_exec(toks: &Vec<Tok>, i: usize, hi: usize, d: Delim) -> (r: bool)
    ensures
        r == is_open(toks@, i as int, hi as int, d),
{
    if i < hi && i < toks.len() {
        match toks[i] {
            Tok::Open { delim, .. } => delim == d,
            _ => false,
        }
    } else {
        false
    }
}

pub fn is_lit_exec(toks: &Vec<Tok>, i: usize, hi: usize, k: LitKind) -> (r: bool)
    ensures
        r == is_lit(toks@, i as int, hi as int, k),
{
    if i < hi && i < toks.len() {
        match toks[i] {
            Tok::Lit { kind, .. } => kind == k,
            _ => false,
        }
    } else {
        false
    }
}

} // verus!
