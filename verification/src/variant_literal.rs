//! Recognizing embedded-enum variant literals (`Enum::Variant { field:
//! value }`) and expanding them into a chain on the enum's `EmbedCreate`
//! builder:
//!
//! ```text
//! Contact::Email { address: a }
//!     <Contact as toasty::codegen_support::EmbedCreate>::create().email().address(a)
//! ```
//!
//! The last two path segments must start with an uppercase letter and
//! carry no generic arguments. Unqualified variants, functional updates
//! (`..rest`) and unnamed fields are not variant literals.
use vstd::prelude::*;

use crate::case::{char_is_uppercase, is_uppercase};
use crate::create::parse::{value_end, value_end_exec};
use crate::emit::{copies, parens, path_sep, punct, push_copies, push_path_sep, push_punct, OutTok, Word};
use crate::schema::attr::{peek_ident, peek_ident_exec};
use crate::text::chars_of;
use crate::tokens::{is_open, is_open_exec, is_punct, is_punct2, is_punct2_exec, is_punct_exec, lemma_tree_end, sym_string, sym_text, tree_end, tree_end_exec, Delim, Tok};

verus! {

/// The fields of a struct literal: each the index of its name and the
/// token range of its value.
#[derive(Debug)]
pub enum LitFields {
    Nil,
    Cons(usize, usize, usize, Box<LitFields>),
}

/// A recognized variant literal.
#[derive(Debug)]
pub struct VariantLiteral {
    /// The enum's path: the tokens `path_start..path_end`.
    pub path_start: usize,
    pub path_end: usize,
    /// Index of the variant's identifier.
    pub variant: usize,
    pub fields: LitFields,
}

/// The identifier at `i` starts with an uppercase letter.
pub open spec fn is_type_name(toks: Seq<Tok>, syms: Seq<String>, i: int) -> bool {
    let t = sym_text(syms, toks[i]->sym as int);
    t.len() > 0 && is_uppercase(t[0])
}

/// Whether the identifier at `i` starts with an uppercase letter.
pub fn is_type_name_exec(toks: &Vec<Tok>, syms: &Vec<String>, i: usize) -> (r: bool)
    requires
        i < toks@.len(),
        toks@[i as int] is Ident,
    ensures
        r == is_type_name(toks@, syms@, i as int),
{
    match toks[i] {
        Tok::Ident { sym, .. } => {
            let t = sym_string(syms, sym);
            let cs = chars_of(t.as_str());
            if cs.len() == 0 {
                false
            } else {
                char_is_uppercase(cs[0])
            }
        },
        _ => false,
    }
}

/// The segment identifiers after the first of a path `::`-separated from
/// `k`: the index of the last segment, and the end.
pub open spec fn last_segs(toks: Seq<Tok>, syms: Seq<String>, prev: int, k: int, hi: int) -> (int, int, int)
    decreases hi - k,
{
    if k < hi && is_punct2(toks, k, hi, ':', ':') && peek_ident(toks, syms, k + 2, hi) {
        last_segs(toks, syms, k - 1, k + 3, hi)
    } else {
        (prev, k - 1, k)
    }
}

/// The fields `{ name: value, name, .. }` from `i` to `hi`; `None` for
/// anything else (unnamed fields, `..rest`).
pub open spec fn lit_fields(toks: Seq<Tok>, syms: Seq<String>, i: int, hi: int) -> Option<LitFields>
    decreases hi - i,
{
    if i >= hi {
        Some(LitFields::Nil)
    } else if !peek_ident(toks, syms, i, hi) {
        None
    } else {
        let (vs, ve) = if is_punct(toks, i + 1, hi, ':') && !is_punct2(toks, i + 1, hi, ':', ':') {
            (i + 2, value_end(toks, i + 2, hi))
        } else {
            (i, i + 1)
        };
        if ve <= vs || ve > hi {
            None
        } else if ve >= hi {
            Some(LitFields::Cons(i as usize, vs as usize, ve as usize, Box::new(LitFields::Nil)))
        } else if !is_punct(toks, ve, hi, ',') {
            None
        } else {
            match lit_fields(toks, syms, ve + 1, hi) {
                None => None,
                Some(rest) => Some(LitFields::Cons(i as usize, vs as usize, ve as usize, Box::new(rest))),
            }
        }
    }
}

/// The variant literal that the tokens `i..e` are, if any: a path of at
/// least two segments, the last two type names, then one `{ .. }` group
/// ending at `e` with named fields.
pub open spec fn recognize_spec(toks: Seq<Tok>, syms: Seq<String>, i: int, e: int) -> Option<VariantLiteral> {
    let j = if is_punct2(toks, i, e, ':', ':') { i + 2 } else { i };
    if !peek_ident(toks, syms, j, e) {
        None
    } else {
        let (enum_seg, variant, p) = last_segs(toks, syms, -1, j + 1, e);
        if enum_seg < j || !is_type_name(toks, syms, enum_seg) || !is_type_name(toks, syms, variant) {
            None
        } else if !(is_open(toks, p, e, Delim::Brace) && tree_end(toks, p, e) == Some(e)) {
            None
        } else {
            match lit_fields(toks, syms, p + 1, e - 1) {
                None => None,
                Some(fs) => Some(VariantLiteral { path_start: i as usize, path_end: (variant - 2) as usize, variant: variant as usize, fields: fs }),
            }
        }
    }
}

/// `.name(value)` for each field, the value as written.
pub open spec fn setters_out(fs: LitFields) -> Seq<OutTok>
    decreases fs,
{
    match fs {
        LitFields::Nil => Seq::empty(),
        LitFields::Cons(name, vs, ve, rest) => punct('.') + seq![OutTok::Copy(name)] + parens(copies(vs as int, ve as int)) + setters_out(*rest),
    }
}

/// `<Enum as toasty::codegen_support::EmbedCreate>::create().variant()`
/// and the setters.
pub open spec fn literal_out(v: VariantLiteral) -> Seq<OutTok> {
    punct('<') + copies(v.path_start as int, v.path_end as int) + seq![OutTok::Word(Word::As), OutTok::Word(Word::Toasty)] + path_sep()
        + seq![OutTok::Word(Word::CodegenSupport)] + path_sep() + seq![OutTok::Word(Word::EmbedCreate)] + punct('>') + path_sep()
        + seq![OutTok::Word(Word::Create)] + parens(Seq::empty()) + punct('.') + seq![OutTok::Snake(v.variant)] + parens(Seq::empty())
        + setters_out(v.fields)
}

/// What a value expands to: a variant literal's builder chain, or the
/// tokens `i..e` as written.
pub open spec fn value_out(toks: Seq<Tok>, syms: Seq<String>, i: int, e: int) -> Seq<OutTok> {
    match recognize_spec(toks, syms, i, e) {
        Some(v) => literal_out(v),
        None => copies(i, e),
    }
}

fn lit_fields_exec(toks: &Vec<Tok>, syms: &Vec<String>, i: usize, hi: usize) -> (r: Option<LitFields>)
    requires
        hi <= toks@.len(),
    ensures
        r == lit_fields(toks@, syms@, i as int, hi as int),
    decreases hi - i,
{
    if i >= hi {
        return Some(LitFields::Nil);
    }
    if !peek_ident_exec(toks, syms, i, hi) {
        return None;
    }
    let (vs, ve) = if is_punct_exec(toks, i + 1, hi, ':') && !is_punct2_exec(toks, i + 1, hi, ':', ':') {
        if i + 2 > hi {
            return None;
        }
        (i + 2, value_end_exec(toks, i + 2, hi))
    } else {
        (i, i + 1)
    };
    if ve <= vs || ve > hi {
        None
    } else if ve >= hi {
        Some(LitFields::Cons(i, vs, ve, Box::new(LitFields::Nil)))
    } else if !is_punct_exec(toks, ve, hi, ',') {
        None
    } else {
        match lit_fields_exec(toks, syms, ve + 1, hi) {
            None => None,
            Some(rest) => Some(LitFields::Cons(i, vs, ve, Box::new(rest))),
        }
    }
}

impl VariantLiteral {
    /// Recognizes a variant literal in the tokens `i..e`.
    pub fn recognize(toks: &Vec<Tok>, syms: &Vec<String>, i: usize, e: usize) -> (r: Option<VariantLiteral>)
        requires
            i <= e <= toks@.len(),
        ensures
            r == recognize_spec(toks@, syms@, i as int, e as int),
    {
        let j = if is_punct2_exec(toks, i, e, ':', ':') { i + 2 } else { i };
        if !peek_ident_exec(toks, syms, j, e) {
            return None;
        }
        let mut enum_seg: usize = 0;
        let mut has_enum = false;
        let mut variant: usize = j;
        let mut k: usize = j + 1;
        while k < e && is_punct2_exec(toks, k, e, ':', ':') && peek_ident_exec(toks, syms, k + 2, e)
            invariant
                e <= toks@.len(),
                j < k <= e,
                variant == k - 1,
                has_enum ==> j <= enum_seg < variant && peek_ident(toks@, syms@, enum_seg as int, e as int),
                recognize_spec(toks@, syms@, i as int, e as int) == ({
                    let (es, va, p) = last_segs(toks@, syms@, if has_enum { enum_seg as int } else { -1 }, k as int, e as int);
                    if es < j || !is_type_name(toks@, syms@, es) || !is_type_name(toks@, syms@, va) {
                        None
                    } else if !(is_open(toks@, p, e as int, Delim::Brace) && tree_end(toks@, p, e as int) == Some(e as int)) {
                        None
                    } else {
                        match lit_fields(toks@, syms@, p + 1, e - 1) {
                            None => None,
                            Some(fs) => Some(VariantLiteral { path_start: i as usize, path_end: (va - 2) as usize, variant: va as usize, fields: fs }),
                        }
                    }
                }),
                peek_ident(toks@, syms@, variant as int, e as int),
            decreases e - k,
        {
            enum_seg = k - 1;
            has_enum = true;
            variant = k + 2;
            k = k + 3;
        }
        if !has_enum {
            return None;
        }
        if !is_type_name_exec(toks, syms, enum_seg) || !is_type_name_exec(toks, syms, variant) {
            return None;
        }
        let p = k;
        if !is_open_exec(toks, p, e, Delim::Brace) {
            return None;
        }
        match tree_end_exec(toks, p, e) {
            Some(t) => {
                if t != e {
                    return None;
                }
            },
            None => {
                return None;
            },
        }
        match lit_fields_exec(toks, syms, p + 1, e - 1) {
            None => None,
            Some(fs) => Some(VariantLiteral { path_start: i, path_end: variant - 2, variant, fields: fs }),
        }
    }

    /// Appends the builder chain of the literal.
    pub fn expand(&self, out: &mut Vec<OutTok>)
        ensures
            final(out)@ == old(out)@ + literal_out(*self),
    {
        let ghost start = out@;
        push_punct('<', out);
        push_copies(self.path_start, self.path_end, out);
        out.push(OutTok::Word(Word::As));
        out.push(OutTok::Word(Word::Toasty));
        push_path_sep(out);
        out.push(OutTok::Word(Word::CodegenSupport));
        push_path_sep(out);
        out.push(OutTok::Word(Word::EmbedCreate));
        push_punct('>', out);
        push_path_sep(out);
        out.push(OutTok::Word(Word::Create));
        out.push(OutTok::Open(Delim::Paren));
        out.push(OutTok::Close(Delim::Paren));
        push_punct('.', out);
        out.push(OutTok::Snake(self.variant));
        out.push(OutTok::Open(Delim::Paren));
        out.push(OutTok::Close(Delim::Paren));
        push_setters(&self.fields, out);
        assert(out@ =~= start + literal_out(*self));
    }
}

fn push_setters(fs: &LitFields, out: &mut Vec<OutTok>)
    ensures
        final(out)@ == old(out)@ + setters_out(*fs),
    decreases *fs,
{
    match fs {
        LitFields::Nil => {
            assert(out@ =~= old(out)@ + setters_out(*fs));
        },
        LitFields::Cons(name, vs, ve, rest) => {
            let ghost start = out@;
            push_punct('.', out);
            out.push(OutTok::Copy(*name));
            out.push(OutTok::Open(Delim::Paren));
            push_copies(*vs, *ve, out);
            out.push(OutTok::Close(Delim::Paren));
            push_setters(rest, out);
            assert(out@ =~= start + setters_out(*fs));
        },
    }
}

/// Appends what a value expands to (see `value_out`).
pub fn expand_value(toks: &Vec<Tok>, syms: &Vec<String>, i: usize, e: usize, out: &mut Vec<OutTok>)
    requires
        i <= e <= toks@.len(),
    ensures
        final(out)@ == old(out)@ + value_out(toks@, syms@, i as int, e as int),
{
    match VariantLiteral::recognize(toks, syms, i, e) {
        Some(v) => v.expand(out),
        None => push_copies(i, e, out),
    }
}

} // verus!
