//! Attributes as the derive macros see them.
use vstd::prelude::*;

use crate::diag::{Diag, ErrorKind, Want};
use crate::text::{parse_int, parse_int_spec, str_eq};
use crate::tokens::{
    close_from, is_lit, is_lit_exec, is_open, is_open_exec, is_punct, is_punct2, is_punct2_exec,
    is_punct_exec, LitKind, lemma_tree_end, span_at, span_at_exec, sym_string, sym_text,
    tree_end_exec, Delim, Tok,
};

verus! {

/// The three shapes of an attribute.
#[derive(Clone, Copy, PartialEq, Eq, Debug, Structural)]
pub enum MetaKind {
    /// `#[name]`
    Path,
    /// `#[name(args)]`, with any delimiter.
    List,
    /// `#[name = value]`
    NameValue,
}

/// One attribute on an item or a field.
#[derive(Clone, Debug)]
pub struct Attr {
    /// The attribute's name when its path is a single identifier.
    pub name: Option<usize>,
    pub kind: MetaKind,
    /// Delimiter of the argument list (`List` only).
    pub delim: Delim,
    /// `List`: the tokens between the delimiters. `NameValue`: the tokens
    /// after `=`.
    pub args: Vec<Tok>,
    /// Span of the whole attribute.
    pub span: usize,
    /// Span of the closing delimiter (`List`), reported when the arguments
    /// end too early.
    pub close_span: usize,
}

/// The attribute's path is the single identifier `name`.
pub open spec fn attr_is(a: Attr, syms: Seq<String>, name: Seq<char>) -> bool {
    a.name matches Some(s) && sym_text(syms, s as int) == name
}

pub fn attr_is_exec(a: &Attr, syms: &Vec<String>, name: &str) -> (r: bool)
    ensures
        r == attr_is(*a, syms@, name@),
{
    match a.name {
        Some(s) => {
            let t = sym_string(syms, s);
            crate::text::str_eq(t.as_str(), name)
        },
        None => false,
    }
}

/// The error for a parser that expected `want` at index `i` of a region
/// that ends at `hi`; at the end of the region it blames `scope`.
pub open spec fn expect_err(toks: Seq<Tok>, i: int, hi: int, scope: usize, want: Want) -> Diag {
    Diag::at(span_at(toks, i, hi, scope), ErrorKind::Expected { want, eof: !(i < hi) })
}

pub fn expect_err_exec(toks: &Vec<Tok>, i: usize, hi: usize, scope: usize, want: Want) -> (r: Diag)
    ensures
        r == expect_err(toks@, i as int, hi as int, scope, want),
{
    Diag { span: span_at_exec(toks, i, hi, scope), kind: ErrorKind::Expected { want, eof: !(i < hi) } }
}

/// The error for tokens left over at `i` inside a group delimited by `d`.
pub open spec fn leftover_err(toks: Seq<Tok>, i: int, hi: int, scope: usize, d: Option<Delim>) -> Diag {
    Diag::at(span_at(toks, i, hi, scope), ErrorKind::Unexpected { delim: d })
}

pub fn leftover_err_exec(toks: &Vec<Tok>, i: usize, hi: usize, scope: usize, d: Option<Delim>) -> (r: Diag)
    ensures
        r == leftover_err(toks@, i as int, hi as int, scope, d),
{
    Diag { span: span_at_exec(toks, i, hi, scope), kind: ErrorKind::Unexpected { delim: d } }
}

/// The group opened at `i` with delimiter `d`: the index of its closing
/// token, below `hi`. Errors when there is no such group at `i`.
pub open spec fn group_at(toks: Seq<Tok>, i: int, hi: int, scope: usize, d: Delim, want: Want) -> Result<int, Diag> {
    if !is_open(toks, i, hi, d) {
        Err(expect_err(toks, i, hi, scope, want))
    } else {
        let c = close_from(toks, i + 1, 1, hi);
        if c < hi {
            Ok(c)
        } else {
            Err(Diag::at(toks[i].span_of(), ErrorKind::Unbalanced))
        }
    }
}

pub fn group_at_exec(toks: &Vec<Tok>, i: usize, hi: usize, scope: usize, d: Delim, want: Want) -> (r: Result<usize, Diag>)
    requires
        hi <= toks@.len(),
    ensures
        r matches Ok(c) ==> group_at(toks@, i as int, hi as int, scope, d, want) == Ok::<int, Diag>(c as int),
        r matches Err(e) ==> group_at(toks@, i as int, hi as int, scope, d, want) == Err::<int, Diag>(e),
        r matches Ok(c) ==> i < c < hi && toks@[c as int] is Close,
{
    if !is_open_exec(toks, i, hi, d) {
        return Err(expect_err_exec(toks, i, hi, scope, want));
    }
    match tree_end_exec(toks, i, hi) {
        Some(e) => {
            proof {
                lemma_tree_end(toks@, i as int, hi as int);
            }
            Ok(e - 1)
        },
        None => Err(Diag { span: toks[i].span(), kind: ErrorKind::Unbalanced }),
    }
}

/// The literal at `i` is a string literal: the symbol of its value.
pub open spec fn lit_str_at(toks: Seq<Tok>, i: int, hi: int, scope: usize) -> Result<usize, Diag> {
    if is_lit(toks, i, hi, LitKind::Str) {
        Ok(toks[i]->value)
    } else {
        Err(expect_err(toks, i, hi, scope, Want::LitStr))
    }
}

pub fn lit_str_at_exec(toks: &Vec<Tok>, i: usize, hi: usize, scope: usize) -> (r: Result<usize, Diag>)
    ensures
        r == lit_str_at(toks@, i as int, hi as int, scope),
{
    if is_lit_exec(toks, i, hi, LitKind::Str) {
        match toks[i] {
            Tok::Lit { value, .. } => Ok(value),
            _ => Err(expect_err_exec(toks, i, hi, scope, Want::LitStr)),
        }
    } else {
        Err(expect_err_exec(toks, i, hi, scope, Want::LitStr))
    }
}

/// The token at `i` is an integer literal whose value lies in `lo..=max`:
/// that value.
pub open spec fn lit_int_at(toks: Seq<Tok>, syms: Seq<String>, i: int, hi: int, scope: usize, lo: int, max: int) -> Result<int, Diag> {
    if is_lit(toks, i, hi, LitKind::Int) {
        match parse_int_spec(sym_text(syms, toks[i]->value as int), lo, max) {
            Some(v) => Ok(v),
            None => Err(Diag::at(toks[i].span_of(), ErrorKind::IntOutOfRange)),
        }
    } else {
        Err(expect_err(toks, i, hi, scope, Want::LitInt))
    }
}

pub fn lit_int_at_exec(toks: &Vec<Tok>, syms: &Vec<String>, i: usize, hi: usize, scope: usize, lo: i128, max: i128) -> (r: Result<i128, Diag>)
    requires
        lo == 0 || -0x1_0000_0000_0000_0000 <= lo <= -128,
        127 <= max <= 0xffff_ffff_ffff_ffff,
    ensures
        r matches Ok(v) ==> lit_int_at(toks@, syms@, i as int, hi as int, scope, lo as int, max as int) == Ok::<int, Diag>(v as int),
        r matches Err(e) ==> lit_int_at(toks@, syms@, i as int, hi as int, scope, lo as int, max as int) == Err::<int, Diag>(e),
{
    if is_lit_exec(toks, i, hi, LitKind::Int) {
        match toks[i] {
            Tok::Lit { value, span, .. } => {
                let text = sym_string(syms, value);
                match parse_int(text.as_str(), lo, max) {
                    Some(v) => Ok(v),
                    None => Err(Diag { span, kind: ErrorKind::IntOutOfRange }),
                }
            },
            _ => Err(expect_err_exec(toks, i, hi, scope, Want::LitInt)),
        }
    } else {
        Err(expect_err_exec(toks, i, hi, scope, Want::LitInt))
    }
}

/// The token at `i` is `=`.
pub open spec fn eq_at(toks: Seq<Tok>, i: int, hi: int, scope: usize) -> Result<(), Diag> {
    if is_punct(toks, i, hi, '=') {
        Ok(())
    } else {
        Err(expect_err(toks, i, hi, scope, Want::Eq))
    }
}

pub fn eq_at_exec(toks: &Vec<Tok>, i: usize, hi: usize, scope: usize) -> (r: Result<(), Diag>)
    ensures
        r == eq_at(toks@, i as int, hi as int, scope),
{
    if is_punct_exec(toks, i, hi, '=') {
        Ok(())
    } else {
        Err(expect_err_exec(toks, i, hi, scope, Want::Eq))
    }
}

/// The span of the token at `c` (used for the closing token of a group).
pub open spec fn close_span(toks: Seq<Tok>, c: int) -> usize {
    if 0 <= c < toks.len() {
        toks[c].span_of()
    } else {
        0
    }
}

pub fn close_span_exec(toks: &Vec<Tok>, c: usize) -> (r: usize)
    ensures
        r == close_span(toks@, c as int),
{
    if c < toks.len() {
        toks[c].span()
    } else {
        0
    }
}


/// Words that `syn` refuses as an identifier (Rust keywords and `_`).
pub open spec fn is_reserved_word(s: Seq<char>) -> bool {
    s == "_"@ ||
    s == "abstract"@ ||
    s == "as"@ ||
    s == "async"@ ||
    s == "await"@ ||
    s == "become"@ ||
    s == "box"@ ||
    s == "break"@ ||
    s == "const"@ ||
    s == "continue"@ ||
    s == "crate"@ ||
    s == "do"@ ||
    s == "dyn"@ ||
    s == "else"@ ||
    s == "enum"@ ||
    s == "extern"@ ||
    s == "false"@ ||
    s == "final"@ ||
    s == "fn"@ ||
    s == "for"@ ||
    s == "if"@ ||
    s == "impl"@ ||
    s == "in"@ ||
    s == "let"@ ||
    s == "loop"@ ||
    s == "macro"@ ||
    s == "match"@ ||
    s == "mod"@ ||
    s == "move"@ ||
    s == "mut"@ ||
    s == "override"@ ||
    s == "priv"@ ||
    s == "pub"@ ||
    s == "ref"@ ||
    s == "return"@ ||
    s == "Self"@ ||
    s == "self"@ ||
    s == "static"@ ||
    s == "struct"@ ||
    s == "super"@ ||
    s == "trait"@ ||
    s == "true"@ ||
    s == "try"@ ||
    s == "type"@ ||
    s == "typeof"@ ||
    s == "unsafe"@ ||
    s == "unsized"@ ||
    s == "use"@ ||
    s == "virtual"@ ||
    s == "where"@ ||
    s == "while"@ ||
    s == "yield"@
}

pub fn is_reserved_word_exec(s: &str) -> (r: bool)
    ensures
        r == is_reserved_word(s@),
{
    str_eq(s, "_") ||
        str_eq(s, "abstract") ||
        str_eq(s, "as") ||
        str_eq(s, "async") ||
        str_eq(s, "await") ||
        str_eq(s, "become") ||
        str_eq(s, "box") ||
        str_eq(s, "break") ||
        str_eq(s, "const") ||
        str_eq(s, "continue") ||
        str_eq(s, "crate") ||
        str_eq(s, "do") ||
        str_eq(s, "dyn") ||
        str_eq(s, "else") ||
        str_eq(s, "enum") ||
        str_eq(s, "extern") ||
        str_eq(s, "false") ||
        str_eq(s, "final") ||
        str_eq(s, "fn") ||
        str_eq(s, "for") ||
        str_eq(s, "if") ||
        str_eq(s, "impl") ||
        str_eq(s, "in") ||
        str_eq(s, "let") ||
        str_eq(s, "loop") ||
        str_eq(s, "macro") ||
        str_eq(s, "match") ||
        str_eq(s, "mod") ||
        str_eq(s, "move") ||
        str_eq(s, "mut") ||
        str_eq(s, "override") ||
        str_eq(s, "priv") ||
        str_eq(s, "pub") ||
        str_eq(s, "ref") ||
        str_eq(s, "return") ||
        str_eq(s, "Self") ||
        str_eq(s, "self") ||
        str_eq(s, "static") ||
        str_eq(s, "struct") ||
        str_eq(s, "super") ||
        str_eq(s, "trait") ||
        str_eq(s, "true") ||
        str_eq(s, "try") ||
        str_eq(s, "type") ||
        str_eq(s, "typeof") ||
        str_eq(s, "unsafe") ||
        str_eq(s, "unsized") ||
        str_eq(s, "use") ||
        str_eq(s, "virtual") ||
        str_eq(s, "where") ||
        str_eq(s, "while") ||
        str_eq(s, "yield")
}

/// The token at `i` is an identifier that is not a reserved word.
pub open spec fn peek_ident(toks: Seq<Tok>, syms: Seq<String>, i: int, hi: int) -> bool {
    0 <= i < hi && i < toks.len() && toks[i] is Ident && !is_reserved_word(sym_text(syms, toks[i]->sym as int))
}

pub fn peek_ident_exec(toks: &Vec<Tok>, syms: &Vec<String>, i: usize, hi: usize) -> (r: bool)
    ensures
        r == peek_ident(toks@, syms@, i as int, hi as int),
{
    if i < hi && i < toks.len() {
        match toks[i] {
            Tok::Ident { sym, .. } => {
                let t = sym_string(syms, sym);
                !is_reserved_word_exec(t.as_str())
            },
            _ => false,
        }
    } else {
        false
    }
}

/// An identifier (not a reserved word) at `i`: its symbol.
pub open spec fn ident_at(toks: Seq<Tok>, syms: Seq<String>, i: int, hi: int, scope: usize) -> Result<usize, Diag> {
    if peek_ident(toks, syms, i, hi) {
        Ok(toks[i]->sym)
    } else if 0 <= i < hi && i < toks.len() && toks[i] is Ident {
        Err(Diag::at(toks[i].span_of(), ErrorKind::KeywordNotIdent { sym: toks[i]->sym }))
    } else {
        Err(expect_err(toks, i, hi, scope, Want::Ident))
    }
}

pub fn ident_at_exec(toks: &Vec<Tok>, syms: &Vec<String>, i: usize, hi: usize, scope: usize) -> (r: Result<usize, Diag>)
    ensures
        r == ident_at(toks@, syms@, i as int, hi as int, scope),
{
    if peek_ident_exec(toks, syms, i, hi) {
        match toks[i] {
            Tok::Ident { sym, .. } => Ok(sym),
            _ => Err(expect_err_exec(toks, i, hi, scope, Want::Ident)),
        }
    } else if i < hi && i < toks.len() {
        match toks[i] {
            Tok::Ident { sym, span } => Err(Diag { span, kind: ErrorKind::KeywordNotIdent { sym } }),
            _ => Err(expect_err_exec(toks, i, hi, scope, Want::Ident)),
        }
    } else {
        Err(expect_err_exec(toks, i, hi, scope, Want::Ident))
    }
}


/// The path of a nested attribute item (`name`, `a::b`, `::a`).
#[derive(Clone, Copy, PartialEq, Eq, Debug, Structural)]
pub struct MetaPath {
    /// The symbol of the path when it is one identifier without a leading
    /// `::`.
    pub single: Option<usize>,
    /// Span of the path's first identifier.
    pub span: usize,
}

impl MetaPath {
    pub open spec fn is(self, syms: Seq<String>, name: Seq<char>) -> bool {
        self.single matches Some(s) && sym_text(syms, s as int) == name
    }

    pub fn is_exec(&self, syms: &Vec<String>, name: &str) -> (r: bool)
        ensures
            r == self.is(syms@, name@),
    {
        match self.single {
            Some(s) => {
                let t = sym_string(syms, s);
                str_eq(t.as_str(), name)
            },
            None => false,
        }
    }
}

/// The `::ident` segments after the first identifier of a path, from `k`:
/// the index after them.
pub open spec fn path_rest(toks: Seq<Tok>, k: int, hi: int, scope: usize) -> Result<int, Diag>
    decreases hi - k,
{
    if k >= hi || !is_punct2(toks, k, hi, ':', ':') {
        Ok(k)
    } else if !(k + 2 < hi && k + 2 < toks.len() && toks[k + 2] is Ident) {
        Err(expect_err(toks, k + 2, hi, scope, Want::Ident))
    } else {
        path_rest(toks, k + 3, hi, scope)
    }
}

/// The path that starts a nested attribute item at `i`, and the index after
/// it.
pub open spec fn meta_path_at(toks: Seq<Tok>, i: int, hi: int, scope: usize) -> Result<(MetaPath, int), Diag> {
    let lead = is_punct2(toks, i, hi, ':', ':');
    let j = if lead { i + 2 } else { i };
    if j < hi && j < toks.len() && toks[j] is Ident {
        match path_rest(toks, j + 1, hi, scope) {
            Err(e) => Err(e),
            Ok(k) => Ok((MetaPath { single: if !lead && k == j + 1 { Some(toks[j]->sym) } else { None }, span: toks[j].span_of() }, k)),
        }
    } else if !(j < hi) {
        Err(expect_err(toks, j, hi, scope, Want::NestedMetaPath))
    } else if j < toks.len() && toks[j] is Lit {
        Err(Diag::at(toks[j].span_of(), ErrorKind::UnexpectedLitInNested))
    } else {
        Err(Diag::at(span_at(toks, j, hi, scope), ErrorKind::UnexpectedTokenInNested))
    }
}

/// After a nested item that ended at `j`: `None` when the list is over,
/// otherwise the start of the next item.
pub open spec fn nested_next(toks: Seq<Tok>, j: int, hi: int, scope: usize) -> Result<Option<int>, Diag> {
    if j >= hi {
        Ok(None)
    } else if !is_punct(toks, j, hi, ',') {
        Err(expect_err(toks, j, hi, scope, Want::Comma))
    } else if j + 1 >= hi {
        Ok(None)
    } else {
        Ok(Some(j + 1))
    }
}

pub fn meta_path_at_exec(toks: &Vec<Tok>, i: usize, hi: usize, scope: usize) -> (r: Result<(MetaPath, usize), Diag>)
    requires
        hi <= toks@.len(),
    ensures
        r matches Ok((p, k)) ==> meta_path_at(toks@, i as int, hi as int, scope) == Ok::<(MetaPath, int), Diag>((p, k as int)) && i < k <= hi,
        r matches Err(e) ==> meta_path_at(toks@, i as int, hi as int, scope) == Err::<(MetaPath, int), Diag>(e),
{
    let lead = is_punct2_exec(toks, i, hi, ':', ':');
    let j = if lead { i + 2 } else { i };
    if j < hi {
        match toks[j] {
            Tok::Ident { sym, span } => {
                let mut k = j + 1;
                while k < hi && is_punct2_exec(toks, k, hi, ':', ':')
                    invariant
                        hi <= toks@.len(),
                        j < k <= hi,
                        lead == is_punct2(toks@, i as int, hi as int, ':', ':'),
                        j == (if lead { i + 2 } else { i as int }),
                        toks@[j as int] is Ident,
                        path_rest(toks@, j + 1, hi as int, scope) == path_rest(toks@, k as int, hi as int, scope),
                    decreases hi - k,
                {
                    if !(k + 2 < hi) {
                        return Err(expect_err_exec(toks, k + 2, hi, scope, Want::Ident));
                    }
                    match toks[k + 2] {
                        Tok::Ident { .. } => {},
                        _ => return Err(expect_err_exec(toks, k + 2, hi, scope, Want::Ident)),
                    }
                    k = k + 3;
                }
                let single = if !lead && k == j + 1 { Some(sym) } else { None };
                Ok((MetaPath { single, span }, k))
            },
            Tok::Lit { span, .. } => Err(Diag { span, kind: ErrorKind::UnexpectedLitInNested }),
            _ => Err(Diag { span: span_at_exec(toks, j, hi, scope), kind: ErrorKind::UnexpectedTokenInNested }),
        }
    } else {
        Err(expect_err_exec(toks, j, hi, scope, Want::NestedMetaPath))
    }
}

pub fn nested_next_exec(toks: &Vec<Tok>, j: usize, hi: usize, scope: usize) -> (r: Result<Option<usize>, Diag>)
    ensures
        r matches Ok(Some(k)) ==> nested_next(toks@, j as int, hi as int, scope) == Ok::<Option<int>, Diag>(Some(k as int)) && k == j + 1 && k < hi,
        r matches Ok(None) ==> nested_next(toks@, j as int, hi as int, scope) == Ok::<Option<int>, Diag>(None),
        r matches Err(e) ==> nested_next(toks@, j as int, hi as int, scope) == Err::<Option<int>, Diag>(e),
{
    if j >= hi {
        Ok(None)
    } else if !is_punct_exec(toks, j, hi, ',') {
        Err(expect_err_exec(toks, j, hi, scope, Want::Comma))
    } else if j + 1 >= hi {
        Ok(None)
    } else {
        Ok(Some(j + 1))
    }
}

} // verus!
