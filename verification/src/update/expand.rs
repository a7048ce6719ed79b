//! Expanding a parsed `update!` into update-builder calls.
//!
//! Every value expression is evaluated first, as the scrutinee of a
//! `match` on a tuple, and bound to `__value_<n>` in field order; only then
//! is the target borrowed by `.update()`. So a value may read the target:
//!
//! ```text
//! update!(todo { done: !todo.done, title })
//!     match (!todo.done, title,) {
//!         (__value_0, __value_1,) => {
//!             let __update = todo.update();
//!             #[allow(unused_variables)]
//!             let __fields = __update.__macro_fields_root();
//!             __update.done(__value_0).title(__value_1)
//!         }
//!     }
//! ```
use vstd::prelude::*;

use super::parse::{ArgList, FieldEntry, FieldSet, FieldValue, UpdateItem, ValueList};
use crate::create::expand::nested_path;
use crate::emit::{
    braces, brackets, copies, method_call, parens, path_sep, punct, push_all, push_copies,
    push_empty_call, push_path_sep, push_punct, CompileErrorKind, OutTok, Word,
};
use crate::tokens::Delim;

verus! {

/// Values evaluated before the update: their token ranges, in order.
pub type Hoisted = Seq<(usize, usize)>;

/// The value `s..e` evaluated beforehand: its `__value_<n>` identifier.
pub open spec fn hoist(h: Hoisted, s: usize, e: usize) -> (Seq<OutTok>, Hoisted) {
    (seq![OutTok::Hoisted(h.len() as usize)], h.push((s, e)))
}

/// `toasty::stmt::w`
pub open spec fn stmt_path(w: Word) -> Seq<OutTok> {
    seq![OutTok::Word(Word::Toasty)] + path_sep() + seq![OutTok::Word(Word::Stmt)] + path_sep() + seq![OutTok::Word(w)]
}

/// The arguments of a method shorthand, each evaluated beforehand,
/// separated by commas.
pub open spec fn args_out(args: ArgList, h: Hoisted) -> (Seq<OutTok>, Hoisted)
    decreases args,
{
    match args {
        ArgList::Nil => (Seq::empty(), h),
        ArgList::Cons(s, e, rest) => {
            let (a, h1) = hoist(h, s, e);
            let (b, h2) = args_out(*rest, h1);
            (a + (if *rest is Nil { Seq::empty() } else { punct(',') }) + b, h2)
        },
    }
}

/// `toasty::stmt::method(args)` for the method identifier at `c`.
pub open spec fn method_value(c: usize, args: ArgList, h: Hoisted) -> (Seq<OutTok>, Hoisted) {
    let (a, h1) = args_out(args, h);
    (seq![OutTok::Word(Word::Toasty)] + path_sep() + seq![OutTok::Word(Word::Stmt)] + path_sep() + seq![OutTok::Copy(c)] + parens(a), h1)
}

/// Whether a list holds a `{ .. }` item.
pub open spec fn any_single(vals: ValueList) -> bool
    decreases vals,
{
    match vals {
        ValueList::Nil => false,
        ValueList::Cons(v, rest) => *v is Single || any_single(*rest),
    }
}

/// The setter calls of a block; `fp` is the fields path of its type.
pub open spec fn calls_out(fp: Seq<OutTok>, s: FieldSet, h: Hoisted) -> (Seq<OutTok>, Hoisted)
    decreases s,
{
    match s {
        FieldSet::Nil => (Seq::empty(), h),
        FieldSet::Cons(e, rest) => {
            let (a, h1) = entry_out(fp, *e, h);
            let (b, h2) = calls_out(fp, *rest, h1);
            (a + b, h2)
        },
    }
}

/// `.name(value)`: a `{ .. }` value patches an embedded value; a list with
/// a `{ .. }` item applies inserts and the other items; any other list is
/// passed as an array.
pub open spec fn entry_out(fp: Seq<OutTok>, e: FieldEntry, h: Hoisted) -> (Seq<OutTok>, Hoisted)
    decreases e,
{
    let nm = punct('.') + seq![OutTok::Copy(e.name)];
    let nested = nested_path(fp, e.name);
    match e.value {
        FieldValue::Expr { start, end } => {
            let (v, h1) = hoist(h, start, end);
            (nm + parens(v), h1)
        },
        FieldValue::Method { combinator, args } => {
            let (m, h1) = method_value(combinator, *args, h);
            (nm + parens(m), h1)
        },
        FieldValue::Single(set) => {
            let (ps, h1) = patches_out(nested, *set, h);
            (nm + parens(stmt_path(Word::Apply) + parens(brackets(ps))), h1)
        },
        FieldValue::List(vals) => if any_single(*vals) {
            let (es, h1) = has_many_items(nested, *vals, h);
            (nm + parens(stmt_path(Word::Apply) + parens(brackets(es))), h1)
        } else {
            let (es, h1) = plain_items(*vals, h);
            (nm + parens(brackets(es)), h1)
        },
    }
}

/// The patches of an embedded block, separated by commas.
pub open spec fn patches_out(parent: Seq<OutTok>, s: FieldSet, h: Hoisted) -> (Seq<OutTok>, Hoisted)
    decreases s,
{
    match s {
        FieldSet::Nil => (Seq::empty(), h),
        FieldSet::Cons(e, rest) => {
            let (a, h1) = patch_entry_out(parent, *e, h);
            let (b, h2) = patches_out(parent, *rest, h1);
            (a + (if *rest is Nil { Seq::empty() } else { punct(',') }) + b, h2)
        },
    }
}

/// `toasty::stmt::patch(parent.into_root().name(), value)`.
pub open spec fn patch_entry_out(parent: Seq<OutTok>, e: FieldEntry, h: Hoisted) -> (Seq<OutTok>, Hoisted)
    decreases e,
{
    let target = parent + method_call(Word::IntoRoot, Seq::empty()) + punct('.') + seq![OutTok::Copy(e.name)] + parens(Seq::empty());
    match e.value {
        FieldValue::Expr { start, end } => {
            let (v, h1) = hoist(h, start, end);
            (stmt_path(Word::Patch) + parens(target + punct(',') + v), h1)
        },
        FieldValue::Method { combinator, args } => {
            let (m, h1) = method_value(combinator, *args, h);
            (stmt_path(Word::Patch) + parens(target + punct(',') + m + punct(',')), h1)
        },
        FieldValue::Single(sub) => {
            let (ps, h1) = patches_out(nested_path(parent, e.name), *sub, h);
            (stmt_path(Word::Patch) + parens(target + punct(',') + stmt_path(Word::Apply) + parens(brackets(ps)) + punct(',')), h1)
        },
        FieldValue::List(_) => (seq![OutTok::CompileError(CompileErrorKind::ListInPatch)], h),
    }
}

/// The items of a has-many list, separated by commas: a `{ .. }` item
/// becomes `toasty::stmt::insert(nested.create() setters)`.
pub open spec fn has_many_items(nested: Seq<OutTok>, vals: ValueList, h: Hoisted) -> (Seq<OutTok>, Hoisted)
    decreases vals,
{
    match vals {
        ValueList::Nil => (Seq::empty(), h),
        ValueList::Cons(v, rest) => {
            let (a, h1) = match *v {
                FieldValue::Single(fields) => {
                    let (ss, h0) = create_setters(*fields, h);
                    (stmt_path(Word::Insert) + parens(nested + method_call(Word::Create, Seq::empty()) + ss), h0)
                },
                FieldValue::Expr { start, end } => hoist(h, start, end),
                FieldValue::List(_) => (seq![OutTok::CompileError(CompileErrorKind::NestedListInUpdate)], h),
                FieldValue::Method { .. } => (seq![OutTok::CompileError(CompileErrorKind::MethodInList)], h),
            };
            let (b, h2) = has_many_items(nested, *rest, h1);
            (a + (if *rest is Nil { Seq::empty() } else { punct(',') }) + b, h2)
        },
    }
}

/// The setters of a create builder inside a has-many list; deeper nesting
/// is an error.
pub open spec fn create_setters(s: FieldSet, h: Hoisted) -> (Seq<OutTok>, Hoisted)
    decreases s,
{
    match s {
        FieldSet::Nil => (Seq::empty(), h),
        FieldSet::Cons(e, rest) => {
            let nm = punct('.') + seq![OutTok::Copy(e.name)];
            let (a, h1) = match e.value {
                FieldValue::Expr { start, end } => {
                    let (v, h0) = hoist(h, start, end);
                    (nm + parens(v), h0)
                },
                FieldValue::Method { combinator, args } => {
                    let (m, h0) = method_value(combinator, *args, h);
                    (nm + parens(m), h0)
                },
                _ => (nm + parens(seq![OutTok::CompileError(CompileErrorKind::DeepNesting)]), h),
            };
            let (b, h2) = create_setters(*rest, h1);
            (a + b, h2)
        },
    }
}

/// The items of a plain list, each evaluated beforehand, separated by
/// commas.
pub open spec fn plain_items(vals: ValueList, h: Hoisted) -> (Seq<OutTok>, Hoisted)
    decreases vals,
{
    match vals {
        ValueList::Nil => (Seq::empty(), h),
        ValueList::Cons(v, rest) => {
            let (a, h1) = match *v {
                FieldValue::Expr { start, end } => hoist(h, start, end),
                FieldValue::List(_) => (seq![OutTok::CompileError(CompileErrorKind::NestedListInUpdate)], h),
                _ => (Seq::empty(), h),
            };
            let (b, h2) = plain_items(*rest, h1);
            (a + (if *rest is Nil { Seq::empty() } else { punct(',') }) + b, h2)
        },
    }
}

/// The first `n` values evaluated beforehand, each followed by a comma.
pub open spec fn hoisted_exprs(h: Hoisted, n: int) -> Seq<OutTok>
    decreases n,
{
    if n <= 0 {
        Seq::empty()
    } else {
        hoisted_exprs(h, n - 1) + copies(h[n - 1].0 as int, h[n - 1].1 as int) + punct(',')
    }
}

/// `__value_0, .., __value_<n-1>,`
pub open spec fn hoisted_idents(n: int) -> Seq<OutTok>
    decreases n,
{
    if n <= 0 {
        Seq::empty()
    } else {
        hoisted_idents(n - 1) + seq![OutTok::Hoisted((n - 1) as usize)] + punct(',')
    }
}

/// `=>`
pub open spec fn fat_arrow() -> Seq<OutTok> {
    seq![OutTok::Punct { ch: '=', joint: true }, OutTok::Punct { ch: '>', joint: false }]
}

/// The arm's body: borrow the target, then apply the setter calls.
pub open spec fn update_body(x: UpdateItem, calls: Seq<OutTok>) -> Seq<OutTok> {
    seq![OutTok::Word(Word::Let), OutTok::Word(Word::UpdateVar)] + punct('=') + copies(x.target_start as int, x.target_end as int)
        + method_call(Word::Update, Seq::empty()) + punct(';')
        + punct('#') + brackets(seq![OutTok::Word(Word::Allow)] + parens(seq![OutTok::Word(Word::UnusedVariables)]))
        + seq![OutTok::Word(Word::Let), OutTok::Word(Word::FieldsVar)] + punct('=') + seq![OutTok::Word(Word::UpdateVar)]
        + method_call(Word::MacroFieldsRoot, Seq::empty()) + punct(';')
        + seq![OutTok::Word(Word::UpdateVar)] + calls
}

/// What `update!` expands to.
pub open spec fn update_out(x: UpdateItem) -> Seq<OutTok> {
    let (calls, h) = calls_out(seq![OutTok::Word(Word::FieldsVar)], x.fields, Seq::empty());
    seq![OutTok::Word(Word::Match)] + parens(hoisted_exprs(h, h.len() as int))
        + braces(parens(hoisted_idents(h.len() as int)) + fat_arrow() + braces(update_body(x, calls)))
}

fn push_hoist(s: usize, e: usize, h: &mut Vec<(usize, usize)>, out: &mut Vec<OutTok>)
    ensures
        final(out)@ == old(out)@ + hoist(old(h)@, s, e).0,
        final(h)@ == hoist(old(h)@, s, e).1,
{
    out.push(OutTok::Hoisted(h.len()));
    h.push((s, e));
    assert(out@ =~= old(out)@ + hoist(old(h)@, s, e).0);
}

fn push_stmt_path(w: Word, out: &mut Vec<OutTok>)
    ensures
        final(out)@ == old(out)@ + stmt_path(w),
{
    out.push(OutTok::Word(Word::Toasty));
    push_path_sep(out);
    out.push(OutTok::Word(Word::Stmt));
    push_path_sep(out);
    out.push(OutTok::Word(w));
    assert(out@ =~= old(out)@ + stmt_path(w));
}

fn push_args(args: &ArgList, h: &mut Vec<(usize, usize)>, out: &mut Vec<OutTok>)
    ensures
        final(out)@ == old(out)@ + args_out(*args, old(h)@).0,
        final(h)@ == args_out(*args, old(h)@).1,
    decreases *args,
{
    match args {
        ArgList::Nil => {
            assert(out@ =~= old(out)@ + args_out(*args, old(h)@).0);
        },
        ArgList::Cons(s, e, rest) => {
            push_hoist(*s, *e, h, out);
            match &**rest {
                ArgList::Nil => {},
                _ => push_punct(',', out),
            }
            push_args(rest, h, out);
            assert(out@ =~= old(out)@ + args_out(*args, old(h)@).0);
        },
    }
}

fn push_method_value(c: usize, args: &ArgList, h: &mut Vec<(usize, usize)>, out: &mut Vec<OutTok>)
    ensures
        final(out)@ == old(out)@ + method_value(c, *args, old(h)@).0,
        final(h)@ == method_value(c, *args, old(h)@).1,
{
    out.push(OutTok::Word(Word::Toasty));
    push_path_sep(out);
    out.push(OutTok::Word(Word::Stmt));
    push_path_sep(out);
    out.push(OutTok::Copy(c));
    out.push(OutTok::Open(Delim::Paren));
    push_args(args, h, out);
    out.push(OutTok::Close(Delim::Paren));
    assert(out@ =~= old(out)@ + method_value(c, *args, old(h)@).0);
}

fn has_single(vals: &ValueList) -> (r: bool)
    ensures
        r == any_single(*vals),
        r <==> super::laws::has_block_item(*vals),
    decreases *vals,
{
    proof {
        super::laws::lemma_any_single_iff_block_item(*vals);
    }
    match vals {
        ValueList::Nil => false,
        ValueList::Cons(v, rest) => {
            match &**v {
                FieldValue::Single(_) => true,
                _ => has_single(rest),
            }
        },
    }
}

fn push_calls(fp: &Vec<OutTok>, s: &FieldSet, h: &mut Vec<(usize, usize)>, out: &mut Vec<OutTok>)
    ensures
        final(out)@ == old(out)@ + calls_out(fp@, *s, old(h)@).0,
        final(h)@ == calls_out(fp@, *s, old(h)@).1,
    decreases *s,
{
    match s {
        FieldSet::Nil => {
            assert(out@ =~= old(out)@ + calls_out(fp@, *s, old(h)@).0);
        },
        FieldSet::Cons(e, rest) => {
            push_entry(fp, e, h, out);
            push_calls(fp, rest, h, out);
            assert(out@ =~= old(out)@ + calls_out(fp@, *s, old(h)@).0);
        },
    }
}

fn nested_vec(fp: &Vec<OutTok>, name: usize) -> (r: Vec<OutTok>)
    ensures
        r@ == nested_path(fp@, name),
{
    let mut r: Vec<OutTok> = Vec::new();
    push_all(fp, &mut r);
    r.push(OutTok::Punct { ch: '.', joint: false });
    r.push(OutTok::Copy(name));
    r.push(OutTok::Open(Delim::Paren));
    r.push(OutTok::Close(Delim::Paren));
    assert(r@ =~= nested_path(fp@, name));
    r
}

fn push_entry(fp: &Vec<OutTok>, e: &FieldEntry, h: &mut Vec<(usize, usize)>, out: &mut Vec<OutTok>)
    ensures
        final(out)@ == old(out)@ + entry_out(fp@, *e, old(h)@).0,
        final(h)@ == entry_out(fp@, *e, old(h)@).1,
    decreases *e,
{
    let ghost start = out@;
    out.push(OutTok::Punct { ch: '.', joint: false });
    out.push(OutTok::Copy(e.name));
    out.push(OutTok::Open(Delim::Paren));
    match &e.value {
        FieldValue::Expr { start: a, end: b } => {
            push_hoist(*a, *b, h, out);
        },
        FieldValue::Method { combinator, args } => {
            push_method_value(*combinator, args, h, out);
        },
        FieldValue::Single(set) => {
            let nested = nested_vec(fp, e.name);
            push_stmt_path(Word::Apply, out);
            out.push(OutTok::Open(Delim::Paren));
            out.push(OutTok::Open(Delim::Bracket));
            push_patches(&nested, set, h, out);
            out.push(OutTok::Close(Delim::Bracket));
            out.push(OutTok::Close(Delim::Paren));
        },
        FieldValue::List(vals) => {
            let nested = nested_vec(fp, e.name);
            if has_single(vals) {
                push_stmt_path(Word::Apply, out);
                out.push(OutTok::Open(Delim::Paren));
                out.push(OutTok::Open(Delim::Bracket));
                push_has_many(&nested, vals, h, out);
                out.push(OutTok::Close(Delim::Bracket));
                out.push(OutTok::Close(Delim::Paren));
            } else {
                out.push(OutTok::Open(Delim::Bracket));
                push_plain(vals, h, out);
                out.push(OutTok::Close(Delim::Bracket));
            }
        },
    }
    out.push(OutTok::Close(Delim::Paren));
    assert(out@ =~= start + entry_out(fp@, *e, old(h)@).0);
}

fn push_patches(parent: &Vec<OutTok>, s: &FieldSet, h: &mut Vec<(usize, usize)>, out: &mut Vec<OutTok>)
    ensures
        final(out)@ == old(out)@ + patches_out(parent@, *s, old(h)@).0,
        final(h)@ == patches_out(parent@, *s, old(h)@).1,
    decreases *s,
{
    match s {
        FieldSet::Nil => {
            assert(out@ =~= old(out)@ + patches_out(parent@, *s, old(h)@).0);
        },
        FieldSet::Cons(e, rest) => {
            push_patch_entry(parent, e, h, out);
            match &**rest {
                FieldSet::Nil => {},
                _ => push_punct(',', out),
            }
            push_patches(parent, rest, h, out);
            assert(out@ =~= old(out)@ + patches_out(parent@, *s, old(h)@).0);
        },
    }
}

#[verifier::spinoff_prover]
#[verifier::rlimit(40)]
fn push_patch_entry(parent: &Vec<OutTok>, e: &FieldEntry, h: &mut Vec<(usize, usize)>, out: &mut Vec<OutTok>)
    ensures
        final(out)@ == old(out)@ + patch_entry_out(parent@, *e, old(h)@).0,
        final(h)@ == patch_entry_out(parent@, *e, old(h)@).1,
    decreases *e,
{
    let ghost start = out@;
    match &e.value {
        FieldValue::List(_) => {
            out.push(OutTok::CompileError(CompileErrorKind::ListInPatch));
            assert(out@ =~= start + patch_entry_out(parent@, *e, old(h)@).0);
            return;
        },
        _ => {},
    }
    push_stmt_path(Word::Patch, out);
    out.push(OutTok::Open(Delim::Paren));
    push_all(parent, out);
    push_empty_call(Word::IntoRoot, out);
    out.push(OutTok::Punct { ch: '.', joint: false });
    out.push(OutTok::Copy(e.name));
    out.push(OutTok::Open(Delim::Paren));
    out.push(OutTok::Close(Delim::Paren));
    push_punct(',', out);
    match &e.value {
        FieldValue::Expr { start: a, end: b } => {
            push_hoist(*a, *b, h, out);
        },
        FieldValue::Method { combinator, args } => {
            push_method_value(*combinator, args, h, out);
            push_punct(',', out);
        },
        FieldValue::Single(sub) => {
            let nested = nested_vec(parent, e.name);
            push_stmt_path(Word::Apply, out);
            out.push(OutTok::Open(Delim::Paren));
            out.push(OutTok::Open(Delim::Bracket));
            push_patches(&nested, sub, h, out);
            out.push(OutTok::Close(Delim::Bracket));
            out.push(OutTok::Close(Delim::Paren));
            push_punct(',', out);
        },
        FieldValue::List(_) => {},
    }
    out.push(OutTok::Close(Delim::Paren));
    assert(out@ =~= start + patch_entry_out(parent@, *e, old(h)@).0);
}

fn push_has_many(nested: &Vec<OutTok>, vals: &ValueList, h: &mut Vec<(usize, usize)>, out: &mut Vec<OutTok>)
    ensures
        final(out)@ == old(out)@ + has_many_items(nested@, *vals, old(h)@).0,
        final(h)@ == has_many_items(nested@, *vals, old(h)@).1,
    decreases *vals,
{
    match vals {
        ValueList::Nil => {
            assert(out@ =~= old(out)@ + has_many_items(nested@, *vals, old(h)@).0);
        },
        ValueList::Cons(v, rest) => {
            let ghost start = out@;
            match &**v {
                FieldValue::Single(fields) => {
                    push_stmt_path(Word::Insert, out);
                    out.push(OutTok::Open(Delim::Paren));
                    push_all(nested, out);
                    push_empty_call(Word::Create, out);
                    push_create_setters(fields, h, out);
                    out.push(OutTok::Close(Delim::Paren));
                },
                FieldValue::Expr { start: a, end: b } => {
                    push_hoist(*a, *b, h, out);
                },
                FieldValue::List(_) => {
                    out.push(OutTok::CompileError(CompileErrorKind::NestedListInUpdate));
                },
                FieldValue::Method { .. } => {
                    out.push(OutTok::CompileError(CompileErrorKind::MethodInList));
                },
            }
            match &**rest {
                ValueList::Nil => {},
                _ => push_punct(',', out),
            }
            push_has_many(nested, rest, h, out);
            assert(out@ =~= start + has_many_items(nested@, *vals, old(h)@).0);
        },
    }
}

fn push_create_setters(s: &FieldSet, h: &mut Vec<(usize, usize)>, out: &mut Vec<OutTok>)
    ensures
        final(out)@ == old(out)@ + create_setters(*s, old(h)@).0,
        final(h)@ == create_setters(*s, old(h)@).1,
    decreases *s,
{
    match s {
        FieldSet::Nil => {
            assert(out@ =~= old(out)@ + create_setters(*s, old(h)@).0);
        },
        FieldSet::Cons(e, rest) => {
            let ghost start = out@;
            out.push(OutTok::Punct { ch: '.', joint: false });
            out.push(OutTok::Copy(e.name));
            out.push(OutTok::Open(Delim::Paren));
            match &e.value {
                FieldValue::Expr { start: a, end: b } => {
                    push_hoist(*a, *b, h, out);
                },
                FieldValue::Method { combinator, args } => {
                    push_method_value(*combinator, args, h, out);
                },
                _ => {
                    out.push(OutTok::CompileError(CompileErrorKind::DeepNesting));
                },
            }
            out.push(OutTok::Close(Delim::Paren));
            push_create_setters(rest, h, out);
            assert(out@ =~= start + create_setters(*s, old(h)@).0);
        },
    }
}

fn push_plain(vals: &ValueList, h: &mut Vec<(usize, usize)>, out: &mut Vec<OutTok>)
    ensures
        final(out)@ == old(out)@ + plain_items(*vals, old(h)@).0,
        final(h)@ == plain_items(*vals, old(h)@).1,
    decreases *vals,
{
    match vals {
        ValueList::Nil => {
            assert(out@ =~= old(out)@ + plain_items(*vals, old(h)@).0);
        },
        ValueList::Cons(v, rest) => {
            let ghost start = out@;
            match &**v {
                FieldValue::Expr { start: a, end: b } => {
                    push_hoist(*a, *b, h, out);
                },
                FieldValue::List(_) => {
                    out.push(OutTok::CompileError(CompileErrorKind::NestedListInUpdate));
                },
                _ => {},
            }
            match &**rest {
                ValueList::Nil => {},
                _ => push_punct(',', out),
            }
            push_plain(rest, h, out);
            assert(out@ =~= start + plain_items(*vals, old(h)@).0);
        },
    }
}

fn push_body(x: &UpdateItem, calls: &Vec<OutTok>, out: &mut Vec<OutTok>)
    ensures
        final(out)@ == old(out)@ + update_body(*x, calls@),
{
    out.push(OutTok::Word(Word::Let));
    out.push(OutTok::Word(Word::UpdateVar));
    push_punct('=', out);
    push_copies(x.target_start, x.target_end, out);
    push_empty_call(Word::Update, out);
    push_punct(';', out);
    push_punct('#', out);
    out.push(OutTok::Open(Delim::Bracket));
    out.push(OutTok::Word(Word::Allow));
    out.push(OutTok::Open(Delim::Paren));
    out.push(OutTok::Word(Word::UnusedVariables));
    out.push(OutTok::Close(Delim::Paren));
    out.push(OutTok::Close(Delim::Bracket));
    out.push(OutTok::Word(Word::Let));
    out.push(OutTok::Word(Word::FieldsVar));
    push_punct('=', out);
    out.push(OutTok::Word(Word::UpdateVar));
    push_empty_call(Word::MacroFieldsRoot, out);
    push_punct(';', out);
    out.push(OutTok::Word(Word::UpdateVar));
    push_all(calls, out);
    assert(out@ =~= old(out)@ + update_body(*x, calls@));
}

/// What `update!` expands to.
pub fn expand(x: &UpdateItem) -> (r: Vec<OutTok>)
    ensures
        r@ == update_out(*x),
{
    let mut calls: Vec<OutTok> = Vec::new();
    let mut h: Vec<(usize, usize)> = Vec::new();
    let mut fp: Vec<OutTok> = Vec::new();
    fp.push(OutTok::Word(Word::FieldsVar));
    assert(fp@ =~= seq![OutTok::Word(Word::FieldsVar)]);
    assert(h@ =~= Seq::<(usize, usize)>::empty());
    push_calls(&fp, &x.fields, &mut h, &mut calls);
    assert(calls@ =~= calls_out(seq![OutTok::Word(Word::FieldsVar)], x.fields, Seq::empty()).0);
    let mut out: Vec<OutTok> = Vec::new();
    out.push(OutTok::Word(Word::Match));
    out.push(OutTok::Open(Delim::Paren));
    let ghost base = out@;
    let mut k: usize = 0;
    while k < h.len()
        invariant
            k <= h@.len(),
            out@ == base + hoisted_exprs(h@, k as int),
        decreases h.len() - k,
    {
        let (s, e) = h[k];
        push_copies(s, e, &mut out);
        push_punct(',', &mut out);
        k = k + 1;
    }
    out.push(OutTok::Close(Delim::Paren));
    out.push(OutTok::Open(Delim::Brace));
    out.push(OutTok::Open(Delim::Paren));
    let ghost base2 = out@;
    let mut k: usize = 0;
    while k < h.len()
        invariant
            k <= h@.len(),
            out@ == base2 + hoisted_idents(k as int),
        decreases h.len() - k,
    {
        out.push(OutTok::Hoisted(k));
        push_punct(',', &mut out);
        k = k + 1;
        assert(out@ =~= base2 + hoisted_idents(k as int));
    }
    out.push(OutTok::Close(Delim::Paren));
    out.push(OutTok::Punct { ch: '=', joint: true });
    out.push(OutTok::Punct { ch: '>', joint: false });
    out.push(OutTok::Open(Delim::Brace));
    push_body(x, &calls, &mut out);
    out.push(OutTok::Close(Delim::Brace));
    out.push(OutTok::Close(Delim::Brace));
    assert(out@ =~= update_out(*x));
    out
}

} // verus!
