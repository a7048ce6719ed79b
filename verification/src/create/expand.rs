//! Expanding a parsed `create!` into create-builder calls:
//!
//! ```text
//! create!(User { name: "A", todos: [{ title: "t" }] })
//!     User::create().name("A").todos([User::fields().todos().create().title("t")])
//! create!(User::[ { name: "A" }, { name: "B" } ])
//!     toasty::batch([User::create().name("A"), User::create().name("B"),])
//! create!((User { .. }, Post { .. }))
//!     toasty::batch((User::create()..., Post::create()...,))
//! ```
use vstd::prelude::*;

use super::embedded::{emb_struct_out, push_emb_struct};
use super::parse::{CreateItem, FieldEntry, FieldSet, FieldValue, ItemList, SetList, ValueList};
use crate::emit::{
    braces, brackets, copies, method_call, parens, path_sep, punct, push_all, push_copies,
    push_empty_call, push_path_sep, push_punct, OutTok, Word,
};
use crate::tokens::Delim;

verus! {

/// `fp.name()`: the fields path of a nested record.
pub open spec fn nested_path(fp: Seq<OutTok>, name: usize) -> Seq<OutTok> {
    fp + punct('.') + seq![OutTok::Copy(name)] + parens(Seq::empty())
}

/// The setter calls of a `{ .. }` block; `fp` is the fields path its
/// nested records are built from.
pub open spec fn calls_out(fp: Seq<OutTok>, s: FieldSet) -> Seq<OutTok>
    decreases s,
{
    match s {
        FieldSet::Nil => Seq::empty(),
        FieldSet::Cons(e, rest) => entry_out(fp, *e) + calls_out(fp, *rest),
    }
}

/// `.name(value)`: a nested record is built with `fp.name().create()`, a
/// list becomes an array.
pub open spec fn entry_out(fp: Seq<OutTok>, e: FieldEntry) -> Seq<OutTok>
    decreases e,
{
    let nm = seq![OutTok::Copy(e.name)];
    let nested = nested_path(fp, e.name);
    match e.value {
        FieldValue::Expr { start, end } => punct('.') + nm + parens(copies(start as int, end as int)),
        FieldValue::Embedded { lit, .. } => punct('.') + nm + parens(emb_struct_out(*lit)),
        FieldValue::Single(set) => punct('.') + nm + parens(nested + method_call(Word::Create, Seq::empty()) + calls_out(nested, *set)),
        FieldValue::List(vals) => punct('.') + nm + parens(brackets(list_out(nested, *vals))),
    }
}

/// The items of a list value, separated by commas.
pub open spec fn list_out(nested: Seq<OutTok>, vals: ValueList) -> Seq<OutTok>
    decreases vals,
{
    match vals {
        ValueList::Nil => Seq::empty(),
        ValueList::Cons(v, rest) => item_value_out(nested, *v) + match *rest {
            ValueList::Nil => Seq::empty(),
            _ => punct(',') + list_out(nested, *rest),
        },
    }
}

/// One item of a list value: a nested record, or an expression as written.
pub open spec fn item_value_out(nested: Seq<OutTok>, v: FieldValue) -> Seq<OutTok>
    decreases v,
{
    match v {
        FieldValue::Single(set) => nested + method_call(Word::Create, Seq::empty()) + calls_out(nested, *set),
        FieldValue::Expr { start, end } => copies(start as int, end as int),
        FieldValue::Embedded { start, end, .. } => copies(start as int, end as int),
        FieldValue::List(_) => Seq::empty(),
    }
}

/// `Path::fields()`
pub open spec fn fields_root(s: int, e: int) -> Seq<OutTok> {
    copies(s, e) + path_sep() + seq![OutTok::Word(Word::Fields)] + parens(Seq::empty())
}

/// `Path::create()` and the setter calls of a block.
pub open spec fn typed_out(s: int, e: int, set: FieldSet) -> Seq<OutTok> {
    copies(s, e) + path_sep() + seq![OutTok::Word(Word::Create)] + parens(Seq::empty()) + calls_out(fields_root(s, e), set)
}

/// The builders of a typed batch, each followed by a comma.
pub open spec fn builders_out(s: int, e: int, sets: SetList) -> Seq<OutTok>
    decreases sets,
{
    match sets {
        SetList::Nil => Seq::empty(),
        SetList::Cons(set, rest) => typed_out(s, e, *set) + punct(',') + builders_out(s, e, *rest),
    }
}

/// `toasty::batch(args)`
pub open spec fn batch_call(args: Seq<OutTok>) -> Seq<OutTok> {
    seq![OutTok::Word(Word::Toasty)] + path_sep() + seq![OutTok::Word(Word::Batch)] + parens(args)
}

/// `toasty::codegen_support::w`
pub open spec fn support_path(w: Word) -> Seq<OutTok> {
    seq![OutTok::Word(Word::Toasty)] + path_sep() + seq![OutTok::Word(Word::CodegenSupport)] + path_sep() + seq![OutTok::Word(w)]
}

/// A scoped creation:
/// `{ let __scope = expr; let __scope_fields = toasty::codegen_support::scope_fields(&__scope); toasty::codegen_support::create_in_scope(__scope) calls }`.
pub open spec fn scoped_out(s: int, e: int, set: FieldSet) -> Seq<OutTok> {
    braces(
        seq![OutTok::Word(Word::Let), OutTok::Word(Word::ScopeVar)] + punct('=') + copies(s, e) + punct(';')
            + seq![OutTok::Word(Word::Let), OutTok::Word(Word::ScopeFieldsVar)] + punct('=') + support_path(Word::ScopeFields)
            + parens(punct('&') + seq![OutTok::Word(Word::ScopeVar)]) + punct(';')
            + support_path(Word::CreateInScope) + parens(seq![OutTok::Word(Word::ScopeVar)])
            + calls_out(seq![OutTok::Word(Word::ScopeFieldsVar)], set),
    )
}

/// What an item expands to.
pub open spec fn item_out(x: CreateItem) -> Seq<OutTok>
    decreases x, 1int,
{
    match x {
        CreateItem::Typed { path_start, path_end, fields } => typed_out(path_start as int, path_end as int, *fields),
        CreateItem::Scoped { expr_start, expr_end, fields } => scoped_out(expr_start as int, expr_end as int, *fields),
        CreateItem::TypedBatch { path_start, path_end, items } => batch_call(brackets(builders_out(path_start as int, path_end as int, *items))),
        CreateItem::Tuple(items) => batch_call(parens(elements_out(*items))),
        CreateItem::Batch(items) => batch_call(brackets(elements_out(*items))),
    }
}

/// The elements of a tuple or array of items, each followed by a comma.
pub open spec fn elements_out(items: ItemList) -> Seq<OutTok>
    decreases items, 0int,
{
    match items {
        ItemList::Nil => Seq::empty(),
        ItemList::Cons(x, rest) => element_out(*x) + punct(',') + elements_out(*rest),
    }
}

/// An element: a typed batch inside a tuple or array is a plain array of
/// builders; other items expand as at the top.
pub open spec fn element_out(x: CreateItem) -> Seq<OutTok>
    decreases x, 2int,
{
    match x {
        CreateItem::TypedBatch { path_start, path_end, items } => brackets(builders_out(path_start as int, path_end as int, *items)),
        _ => item_out(x),
    }
}

fn push_nested(fp: &Vec<OutTok>, name: usize) -> (r: Vec<OutTok>)
    ensures
        r@ == nested_path(fp@, name),
{
    let mut r: Vec<OutTok> = Vec::new();
    push_all(fp, &mut r);
    r.push(OutTok::Punct { ch: '.', joint: false });
    r.push(OutTok::Copy(name));
    r.push(OutTok::Open(Delim::Paren));
    r.push(OutTok::Close(Delim::Paren));
    assert(r@ =~= nested_path(fp@, name));
    r
}

fn push_calls(fp: &Vec<OutTok>, s: &FieldSet, out: &mut Vec<OutTok>)
    ensures
        final(out)@ == old(out)@ + calls_out(fp@, *s),
    decreases *s,
{
    match s {
        FieldSet::Nil => {
            assert(out@ =~= old(out)@ + calls_out(fp@, *s));
        },
        FieldSet::Cons(e, rest) => {
            push_entry(fp, e, out);
            push_calls(fp, rest, out);
            assert(out@ =~= old(out)@ + calls_out(fp@, *s));
        },
    }
}

fn push_entry(fp: &Vec<OutTok>, e: &FieldEntry, out: &mut Vec<OutTok>)
    ensures
        final(out)@ == old(out)@ + entry_out(fp@, *e),
    decreases *e,
{
    let ghost start = out@;
    out.push(OutTok::Punct { ch: '.', joint: false });
    out.push(OutTok::Copy(e.name));
    out.push(OutTok::Open(Delim::Paren));
    match &e.value {
        FieldValue::Expr { start: a, end: b } => {
            push_copies(*a, *b, out);
        },
        FieldValue::Embedded { lit, .. } => {
            push_emb_struct(lit, out);
        },
        FieldValue::Single(set) => {
            let nested = push_nested(fp, e.name);
            push_all(&nested, out);
            push_empty_call(Word::Create, out);
            push_calls(&nested, set, out);
        },
        FieldValue::List(vals) => {
            let nested = push_nested(fp, e.name);
            out.push(OutTok::Open(Delim::Bracket));
            push_list(&nested, vals, out);
            out.push(OutTok::Close(Delim::Bracket));
        },
    }
    out.push(OutTok::Close(Delim::Paren));
    assert(out@ =~= start + entry_out(fp@, *e));
}

fn push_list(nested: &Vec<OutTok>, vals: &ValueList, out: &mut Vec<OutTok>)
    ensures
        final(out)@ == old(out)@ + list_out(nested@, *vals),
    decreases *vals,
{
    match vals {
        ValueList::Nil => {
            assert(out@ =~= old(out)@ + list_out(nested@, *vals));
        },
        ValueList::Cons(v, rest) => {
            push_item_value(nested, v, out);
            match &**rest {
                ValueList::Nil => {},
                _ => {
                    push_punct(',', out);
                    push_list(nested, rest, out);
                },
            }
            assert(out@ =~= old(out)@ + list_out(nested@, *vals));
        },
    }
}

fn push_item_value(nested: &Vec<OutTok>, v: &FieldValue, out: &mut Vec<OutTok>)
    ensures
        final(out)@ == old(out)@ + item_value_out(nested@, *v),
    decreases *v,
{
    match v {
        FieldValue::Single(set) => {
            push_all(nested, out);
            push_empty_call(Word::Create, out);
            push_calls(nested, set, out);
            assert(out@ =~= old(out)@ + item_value_out(nested@, *v));
        },
        FieldValue::Expr { start, end } => {
            push_copies(*start, *end, out);
        },
        FieldValue::Embedded { start, end, .. } => {
            push_copies(*start, *end, out);
        },
        FieldValue::List(_) => {
            assert(out@ =~= old(out)@ + item_value_out(nested@, *v));
        },
    }
}

fn fields_root_vec(s: usize, e: usize) -> (r: Vec<OutTok>)
    ensures
        r@ == fields_root(s as int, e as int),
{
    let mut r: Vec<OutTok> = Vec::new();
    push_copies(s, e, &mut r);
    push_path_sep(&mut r);
    r.push(OutTok::Word(Word::Fields));
    r.push(OutTok::Open(Delim::Paren));
    r.push(OutTok::Close(Delim::Paren));
    assert(r@ =~= fields_root(s as int, e as int));
    r
}

fn push_typed(s: usize, e: usize, set: &FieldSet, out: &mut Vec<OutTok>)
    ensures
        final(out)@ == old(out)@ + typed_out(s as int, e as int, *set),
{
    let ghost start = out@;
    push_copies(s, e, out);
    push_path_sep(out);
    out.push(OutTok::Word(Word::Create));
    out.push(OutTok::Open(Delim::Paren));
    out.push(OutTok::Close(Delim::Paren));
    let fp = fields_root_vec(s, e);
    push_calls(&fp, set, out);
    assert(out@ =~= start + typed_out(s as int, e as int, *set));
}

fn push_builders(s: usize, e: usize, sets: &SetList, out: &mut Vec<OutTok>)
    ensures
        final(out)@ == old(out)@ + builders_out(s as int, e as int, *sets),
    decreases *sets,
{
    match sets {
        SetList::Nil => {
            assert(out@ =~= old(out)@ + builders_out(s as int, e as int, *sets));
        },
        SetList::Cons(set, rest) => {
            push_typed(s, e, set, out);
            push_punct(',', out);
            push_builders(s, e, rest, out);
            assert(out@ =~= old(out)@ + builders_out(s as int, e as int, *sets));
        },
    }
}

fn push_support_path(w: Word, out: &mut Vec<OutTok>)
    ensures
        final(out)@ == old(out)@ + support_path(w),
{
    out.push(OutTok::Word(Word::Toasty));
    push_path_sep(out);
    out.push(OutTok::Word(Word::CodegenSupport));
    push_path_sep(out);
    out.push(OutTok::Word(w));
    assert(out@ =~= old(out)@ + support_path(w));
}

fn push_scoped(s: usize, e: usize, set: &FieldSet, out: &mut Vec<OutTok>)
    ensures
        final(out)@ == old(out)@ + scoped_out(s as int, e as int, *set),
{
    let ghost start = out@;
    out.push(OutTok::Open(Delim::Brace));
    out.push(OutTok::Word(Word::Let));
    out.push(OutTok::Word(Word::ScopeVar));
    push_punct('=', out);
    push_copies(s, e, out);
    push_punct(';', out);
    out.push(OutTok::Word(Word::Let));
    out.push(OutTok::Word(Word::ScopeFieldsVar));
    push_punct('=', out);
    push_support_path(Word::ScopeFields, out);
    out.push(OutTok::Open(Delim::Paren));
    push_punct('&', out);
    out.push(OutTok::Word(Word::ScopeVar));
    out.push(OutTok::Close(Delim::Paren));
    push_punct(';', out);
    push_support_path(Word::CreateInScope, out);
    out.push(OutTok::Open(Delim::Paren));
    out.push(OutTok::Word(Word::ScopeVar));
    out.push(OutTok::Close(Delim::Paren));
    let mut fp: Vec<OutTok> = Vec::new();
    fp.push(OutTok::Word(Word::ScopeFieldsVar));
    assert(fp@ =~= seq![OutTok::Word(Word::ScopeFieldsVar)]);
    push_calls(&fp, set, out);
    out.push(OutTok::Close(Delim::Brace));
    assert(out@ =~= start + scoped_out(s as int, e as int, *set));
}

fn push_batch_open(out: &mut Vec<OutTok>)
    ensures
        final(out)@ == old(out)@ + seq![OutTok::Word(Word::Toasty)] + path_sep() + seq![OutTok::Word(Word::Batch), OutTok::Open(Delim::Paren)],
{
    out.push(OutTok::Word(Word::Toasty));
    push_path_sep(out);
    out.push(OutTok::Word(Word::Batch));
    out.push(OutTok::Open(Delim::Paren));
    assert(out@ =~= old(out)@ + seq![OutTok::Word(Word::Toasty)] + path_sep() + seq![OutTok::Word(Word::Batch), OutTok::Open(Delim::Paren)]);
}

/// Appends what an item expands to.
pub fn expand_item(x: &CreateItem, out: &mut Vec<OutTok>)
    ensures
        final(out)@ == old(out)@ + item_out(*x),
    decreases *x, 1int,
{
    let ghost start = out@;
    match x {
        CreateItem::Typed { path_start, path_end, fields } => {
            push_typed(*path_start, *path_end, fields, out);
        },
        CreateItem::Scoped { expr_start, expr_end, fields } => {
            push_scoped(*expr_start, *expr_end, fields, out);
        },
        CreateItem::TypedBatch { path_start, path_end, items } => {
            push_batch_open(out);
            out.push(OutTok::Open(Delim::Bracket));
            push_builders(*path_start, *path_end, items, out);
            out.push(OutTok::Close(Delim::Bracket));
            out.push(OutTok::Close(Delim::Paren));
            assert(out@ =~= start + item_out(*x));
        },
        CreateItem::Tuple(items) => {
            push_batch_open(out);
            out.push(OutTok::Open(Delim::Paren));
            push_elements(items, out);
            out.push(OutTok::Close(Delim::Paren));
            out.push(OutTok::Close(Delim::Paren));
            assert(out@ =~= start + item_out(*x));
        },
        CreateItem::Batch(items) => {
            push_batch_open(out);
            out.push(OutTok::Open(Delim::Bracket));
            push_elements(items, out);
            out.push(OutTok::Close(Delim::Bracket));
            out.push(OutTok::Close(Delim::Paren));
            assert(out@ =~= start + item_out(*x));
        },
    }
}

fn push_elements(items: &ItemList, out: &mut Vec<OutTok>)
    ensures
        final(out)@ == old(out)@ + elements_out(*items),
    decreases *items, 0int,
{
    match items {
        ItemList::Nil => {
            assert(out@ =~= old(out)@ + elements_out(*items));
        },
        ItemList::Cons(x, rest) => {
            let ghost start = out@;
            match &**x {
                CreateItem::TypedBatch { path_start, path_end, items: sets } => {
                    out.push(OutTok::Open(Delim::Bracket));
                    push_builders(*path_start, *path_end, sets, out);
                    out.push(OutTok::Close(Delim::Bracket));
                    assert(out@ =~= start + element_out(**x));
                },
                _ => {
                    expand_item(x, out);
                    assert(out@ =~= start + element_out(**x));
                },
            }
            push_punct(',', out);
            push_elements(rest, out);
            assert(out@ =~= start + elements_out(*items));
        },
    }
}

/// What `create!` expands to.
pub fn expand(x: &CreateItem) -> (r: Vec<OutTok>)
    ensures
        r@ == item_out(*x),
{
    let mut out: Vec<OutTok> = Vec::new();
    expand_item(x, &mut out);
    assert(out@ =~= item_out(*x));
    out
}

} // verus!
