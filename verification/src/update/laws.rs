//! When a list value of `update!` takes the `toasty::stmt::apply([..])`
//! form: exactly when one of its items, at any position, is a `{ .. }`
//! block, each such block becoming a `toasty::stmt::insert(..)` of a record
//! built from the fields path extended by the field's name.
use vstd::prelude::*;

use super::expand::{any_single, create_setters, entry_out, has_many_items, hoist, plain_items, stmt_path};
use super::parse::{FieldEntry, FieldValue, ValueList};
use crate::create::expand::nested_path;
use crate::emit::{
    free_of, lemma_contains_concat, lemma_free_of_concat, lemma_free_of_plain, lemma_occurs_whole,
    lemma_occurs_within, method_call, occurs_in, parens, punct, OutTok, Word,
};
use crate::tokens::Delim;

verus! {

/// The items of a list value, in order.
pub open spec fn items_of(vals: ValueList) -> Seq<FieldValue>
    decreases vals,
{
    match vals {
        ValueList::Nil => Seq::empty(),
        ValueList::Cons(v, rest) => seq![*v] + items_of(*rest),
    }
}

/// Some item of the list, at any position, is a `{ .. }` block.
pub open spec fn has_block_item(vals: ValueList) -> bool {
    exists|i: int| 0 <= i < items_of(vals).len() && (#[trigger] items_of(vals)[i]) is Single
}

/// A list holds a `{ .. }` item, as the expansion decides it, exactly when
/// one of its items at some position is a `{ .. }` block.
pub proof fn lemma_any_single_iff_block_item(vals: ValueList)
    ensures
        any_single(vals) <==> has_block_item(vals),
    decreases vals,
{
    match vals {
        ValueList::Nil => {},
        ValueList::Cons(v, rest) => {
            lemma_any_single_iff_block_item(*rest);
            let s = items_of(vals);
            let r = items_of(*rest);
            assert(s =~= seq![*v] + r);
            if *v is Single {
                assert(s[0] is Single);
            }
            if has_block_item(*rest) {
                let j = choose|j: int| 0 <= j < r.len() && (#[trigger] r[j]) is Single;
                assert(s[j + 1] == r[j]);
            }
            if has_block_item(vals) {
                let i = choose|i: int| 0 <= i < s.len() && (#[trigger] s[i]) is Single;
                if i > 0 {
                    assert(r[i - 1] == s[i]);
                }
            }
        },
    }
}

/// The items of a plain list hold no `apply` and no `insert`.
proof fn lemma_plain_free(vals: ValueList, h: Seq<(usize, usize)>, w: Word)
    requires
        w == Word::Apply || w == Word::Insert,
    ensures
        free_of(plain_items(vals, h).0, OutTok::Word(w)),
    decreases vals,
{
    let t = OutTok::Word(w);
    match vals {
        ValueList::Nil => {},
        ValueList::Cons(v, rest) => {
            let (a, h1) = match *v {
                FieldValue::Expr { start, end } => hoist(h, start, end),
                FieldValue::List(_) => (seq![OutTok::CompileError(crate::emit::CompileErrorKind::NestedListInUpdate)], h),
                _ => (Seq::empty(), h),
            };
            assert(free_of(a, t));
            lemma_plain_free(*rest, h1, w);
            let sep = if *rest is Nil { Seq::<OutTok>::empty() } else { punct(',') };
            lemma_free_of_plain(0, 0, ',', Seq::empty(), w);
            assert(free_of(sep, t));
            lemma_free_of_concat(a, sep, t);
            lemma_free_of_concat(a + sep, plain_items(*rest, h1).0, t);
        },
    }
}

/// Each `{ .. }` item of a has-many list becomes an `insert`.
proof fn lemma_has_many_insert(nested: Seq<OutTok>, vals: ValueList, h: Seq<(usize, usize)>)
    requires
        has_block_item(vals),
    ensures
        has_many_items(nested, vals, h).0.contains(OutTok::Word(Word::Insert)),
    decreases vals,
{
    let t = OutTok::Word(Word::Insert);
    match vals {
        ValueList::Nil => {
            assert(items_of(vals).len() == 0);
        },
        ValueList::Cons(v, rest) => {
            let (a, h1) = match *v {
                FieldValue::Single(fields) => {
                    let (ss, h0) = create_setters(*fields, h);
                    (stmt_path(Word::Insert) + parens(nested + method_call(Word::Create, Seq::empty()) + ss), h0)
                },
                FieldValue::Expr { start, end } => hoist(h, start, end),
                FieldValue::List(_) => (seq![OutTok::CompileError(crate::emit::CompileErrorKind::NestedListInUpdate)], h),
                FieldValue::Method { .. } => (seq![OutTok::CompileError(crate::emit::CompileErrorKind::MethodInList)], h),
            };
            let sep = if *rest is Nil { Seq::<OutTok>::empty() } else { punct(',') };
            let b = has_many_items(nested, *rest, h1).0;
            assert(has_many_items(nested, vals, h).0 == a + sep + b);
            if *v is Single {
                assert(a[6] == t);
                lemma_contains_concat(a, sep, t);
            } else {
                let s = items_of(vals);
                let i = choose|i: int| 0 <= i < s.len() && (#[trigger] s[i]) is Single;
                assert(s =~= seq![*v] + items_of(*rest));
                assert(i > 0);
                assert(items_of(*rest)[i - 1] == s[i]);
                lemma_has_many_insert(nested, *rest, h1);
            }
            lemma_contains_concat(a + sep, b, t);
        },
    }
}

/// A list value of `update!` takes the `toasty::stmt::apply([..])` form,
/// with a `toasty::stmt::insert(..)`, exactly when one of its items, at any
/// position, is a `{ .. }` block; otherwise it is passed as a plain array
/// that holds neither.
pub proof fn lemma_list_apply_form(fp: Seq<OutTok>, e: FieldEntry, h: Seq<(usize, usize)>)
    requires
        e.value is List,
    ensures
        entry_out(fp, e, h).0.contains(OutTok::Word(Word::Apply)) <==> has_block_item(*e.value->List_0),
        entry_out(fp, e, h).0.contains(OutTok::Word(Word::Insert)) <==> has_block_item(*e.value->List_0),
{
    let vals = *e.value->List_0;
    lemma_any_single_iff_block_item(vals);
    let nm = punct('.') + seq![OutTok::Copy(e.name)];
    let nested = nested_path(fp, e.name);
    if any_single(vals) {
        let es = has_many_items(nested, vals, h).0;
        let body = stmt_path(Word::Apply) + parens(crate::emit::brackets(es));
        assert(entry_out(fp, e, h).0 == nm + parens(body));
        lemma_has_many_insert(nested, vals, h);
        let lead = nm + seq![OutTok::Open(crate::tokens::Delim::Paren)] + stmt_path(Word::Apply) + seq![OutTok::Open(crate::tokens::Delim::Paren)]
            + seq![OutTok::Open(crate::tokens::Delim::Bracket)];
        let trail = seq![OutTok::Close(crate::tokens::Delim::Bracket), OutTok::Close(crate::tokens::Delim::Paren), OutTok::Close(crate::tokens::Delim::Paren)];
        assert(entry_out(fp, e, h).0 =~= lead + es + trail);
        lemma_contains_concat(lead, es, OutTok::Word(Word::Insert));
        lemma_contains_concat(lead + es, trail, OutTok::Word(Word::Insert));
        assert(entry_out(fp, e, h).0[nm.len() as int + 7] == OutTok::Word(Word::Apply));
    } else {
        let es = plain_items(vals, h).0;
        assert(entry_out(fp, e, h).0 == nm + parens(crate::emit::brackets(es)));
        let ws = seq![Word::Apply, Word::Insert];
        assert forall|k: int| 0 <= k < 2 implies free_of(entry_out(fp, e, h).0, OutTok::Word(#[trigger] ws[k])) by {
            let w = ws[k];
            let t = OutTok::Word(w);
            lemma_plain_free(vals, h, w);
            lemma_free_of_plain(0, 0, '.', crate::emit::brackets(es), w);
            lemma_free_of_plain(0, 0, '.', es, w);
            assert(free_of(seq![OutTok::Copy(e.name)], t));
            lemma_free_of_concat(punct('.'), seq![OutTok::Copy(e.name)], t);
            lemma_free_of_concat(nm, parens(crate::emit::brackets(es)), t);
        }
        assert(free_of(entry_out(fp, e, h).0, OutTok::Word(ws[0])));
        assert(free_of(entry_out(fp, e, h).0, OutTok::Word(ws[1])));
    }
}

/// `toasty::stmt::insert(path.create()`: the start of the insert of a
/// `{ .. }` item whose records are built from `path`.
pub open spec fn insert_from(path: Seq<OutTok>) -> Seq<OutTok> {
    stmt_path(Word::Insert) + seq![OutTok::Open(Delim::Paren)] + path + method_call(Word::Create, Seq::empty())
}

proof fn lemma_has_many_insert_from(nested: Seq<OutTok>, vals: ValueList, h: Seq<(usize, usize)>)
    requires
        has_block_item(vals),
    ensures
        occurs_in(insert_from(nested), has_many_items(nested, vals, h).0),
    decreases vals,
{
    match vals {
        ValueList::Nil => {
            assert(items_of(vals).len() == 0);
        },
        ValueList::Cons(v, rest) => {
            let (a, h1) = match *v {
                FieldValue::Single(fields) => {
                    let (ss, h0) = create_setters(*fields, h);
                    (stmt_path(Word::Insert) + parens(nested + method_call(Word::Create, Seq::empty()) + ss), h0)
                },
                FieldValue::Expr { start, end } => hoist(h, start, end),
                FieldValue::List(_) => (seq![OutTok::CompileError(crate::emit::CompileErrorKind::NestedListInUpdate)], h),
                FieldValue::Method { .. } => (seq![OutTok::CompileError(crate::emit::CompileErrorKind::MethodInList)], h),
            };
            let sep = if *rest is Nil { Seq::<OutTok>::empty() } else { punct(',') };
            let b = has_many_items(nested, *rest, h1).0;
            assert(has_many_items(nested, vals, h).0 == a + sep + b);
            match *v {
                FieldValue::Single(fields) => {
                    let ss = create_setters(*fields, h).0;
                    let close = seq![OutTok::Close(Delim::Paren)];
                    lemma_occurs_whole(Seq::empty(), insert_from(nested), ss + close);
                    assert(Seq::<OutTok>::empty() + insert_from(nested) + (ss + close) =~= a);
                    lemma_occurs_within(Seq::empty(), a, sep + b, insert_from(nested));
                    assert(Seq::<OutTok>::empty() + a + (sep + b) =~= a + sep + b);
                },
                _ => {
                    let s = items_of(vals);
                    let i = choose|i: int| 0 <= i < s.len() && (#[trigger] s[i]) is Single;
                    assert(s =~= seq![*v] + items_of(*rest));
                    assert(i > 0);
                    assert(items_of(*rest)[i - 1] == s[i]);
                    lemma_has_many_insert_from(nested, *rest, h1);
                    lemma_occurs_within(a + sep, b, Seq::empty(), insert_from(nested));
                    assert(a + sep + b + Seq::<OutTok>::empty() =~= a + sep + b);
                },
            }
        },
    }
}

/// The `{ .. }` items of a list value of `update!` are inserted through the
/// fields path extended by that field's name:
/// `toasty::stmt::insert(__fields.todos().create()..)` for `todos: [{ .. }]`.
pub proof fn lemma_list_inserts_from_field(fp: Seq<OutTok>, e: FieldEntry, h: Seq<(usize, usize)>)
    requires
        e.value is List,
        has_block_item(*e.value->List_0),
    ensures
        occurs_in(
            insert_from(fp + punct('.') + seq![OutTok::Copy(e.name)] + parens(Seq::empty())),
            entry_out(fp, e, h).0,
        ),
{
    let vals = *e.value->List_0;
    lemma_any_single_iff_block_item(vals);
    let nested = nested_path(fp, e.name);
    let es = has_many_items(nested, vals, h).0;
    lemma_has_many_insert_from(nested, vals, h);
    let lead = punct('.') + seq![OutTok::Copy(e.name)] + seq![OutTok::Open(Delim::Paren)] + stmt_path(Word::Apply)
        + seq![OutTok::Open(Delim::Paren)] + seq![OutTok::Open(Delim::Bracket)];
    let trail = seq![OutTok::Close(Delim::Bracket), OutTok::Close(Delim::Paren), OutTok::Close(Delim::Paren)];
    assert(entry_out(fp, e, h).0 =~= lead + es + trail);
    lemma_occurs_within(lead, es, trail, insert_from(nested));
}

} // verus!
