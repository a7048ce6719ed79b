//! Where the nested records of a `create!` block are built from: a record
//! reached through the fields `a`, then `b`, is built with
//! `fp.a().b().create()`, whatever its depth and whether it stands as a
//! field's value or as an item of a list value.
use vstd::prelude::*;

use super::expand::{calls_out, entry_out, fields_root, item_out, item_value_out, list_out, nested_path};
use super::parse::{CreateItem, FieldEntry, FieldSet, FieldValue, ValueList};
use crate::emit::{
    brackets, lemma_occurs_whole, lemma_occurs_within, method_call, occurs_in, parens, punct, OutTok,
    Word,
};
use crate::tokens::Delim;

verus! {

/// `fp.a().b()..`: the fields path reached from `fp` through the field
/// identifiers `names`, outermost first, one `.name()` call each.
pub open spec fn path_through(fp: Seq<OutTok>, names: Seq<usize>) -> Seq<OutTok>
    decreases names.len(),
{
    if names.len() == 0 {
        fp
    } else {
        path_through(fp + punct('.') + seq![OutTok::Copy(names[0])] + parens(Seq::empty()), names.drop_first())
    }
}

/// `.create()`
pub open spec fn create_call() -> Seq<OutTok> {
    method_call(Word::Create, Seq::empty())
}

/// The block `s` holds a nested record (a `{ .. }` value, or a `{ .. }`
/// item of a list value) reached through the field identifiers `names`,
/// outermost first.
pub open spec fn record_at(s: FieldSet, names: Seq<usize>) -> bool
    decreases s,
{
    match s {
        FieldSet::Nil => false,
        FieldSet::Cons(e, rest) => entry_record_at(*e, names) || record_at(*rest, names),
    }
}

/// The entry `e` is the first field of `names` and leads to such a record.
pub open spec fn entry_record_at(e: FieldEntry, names: Seq<usize>) -> bool
    decreases e,
{
    names.len() > 0 && e.name == names[0] && value_record_at(e.value, names.drop_first())
}

/// The value `v` is such a record (when `names` is empty) or leads to one.
pub open spec fn value_record_at(v: FieldValue, names: Seq<usize>) -> bool
    decreases v,
{
    match v {
        FieldValue::Single(set) => names.len() == 0 || record_at(*set, names),
        FieldValue::List(vals) => list_record_at(*vals, names),
        _ => false,
    }
}

/// Some `{ .. }` item of the list is such a record or leads to one.
pub open spec fn list_record_at(vals: ValueList, names: Seq<usize>) -> bool
    decreases vals,
{
    match vals {
        ValueList::Nil => false,
        ValueList::Cons(v, rest) => (*v is Single && value_record_at(*v, names)) || list_record_at(*rest, names),
    }
}

proof fn lemma_calls(fp: Seq<OutTok>, s: FieldSet, names: Seq<usize>)
    requires
        record_at(s, names),
    ensures
        occurs_in(path_through(fp, names) + create_call(), calls_out(fp, s)),
    decreases s,
{
    let target = path_through(fp, names) + create_call();
    match s {
        FieldSet::Nil => {},
        FieldSet::Cons(e, rest) => {
            if entry_record_at(*e, names) {
                lemma_entry(fp, *e, names);
                lemma_occurs_within(Seq::empty(), entry_out(fp, *e), calls_out(fp, *rest), target);
                assert(Seq::<OutTok>::empty() + entry_out(fp, *e) + calls_out(fp, *rest) =~= calls_out(fp, s));
            } else {
                lemma_calls(fp, *rest, names);
                lemma_occurs_within(entry_out(fp, *e), calls_out(fp, *rest), Seq::empty(), target);
                assert(entry_out(fp, *e) + calls_out(fp, *rest) + Seq::<OutTok>::empty() =~= calls_out(fp, s));
            }
        },
    }
}

proof fn lemma_entry(fp: Seq<OutTok>, e: FieldEntry, names: Seq<usize>)
    requires
        entry_record_at(e, names),
    ensures
        occurs_in(path_through(fp, names) + create_call(), entry_out(fp, e)),
    decreases e,
{
    let nested = nested_path(fp, e.name);
    let rest = names.drop_first();
    let target = path_through(nested, rest) + create_call();
    assert(path_through(fp, names) == path_through(nested, rest));
    let open = punct('.') + seq![OutTok::Copy(e.name)] + seq![OutTok::Open(Delim::Paren)];
    let close = seq![OutTok::Close(Delim::Paren)];
    match e.value {
        FieldValue::Single(set) => {
            let calls = calls_out(nested, *set);
            let inner = nested + create_call() + calls;
            if rest.len() == 0 {
                assert(target == nested + create_call());
                lemma_occurs_whole(Seq::empty(), nested + create_call(), calls);
                assert(Seq::<OutTok>::empty() + (nested + create_call()) + calls =~= inner);
            } else {
                lemma_calls(nested, *set, rest);
                lemma_occurs_within(nested + create_call(), calls, Seq::empty(), target);
                assert(nested + create_call() + calls + Seq::<OutTok>::empty() =~= inner);
            }
            lemma_occurs_within(open, inner, close, target);
            assert(open + inner + close =~= entry_out(fp, e));
        },
        FieldValue::List(vals) => {
            let items = list_out(nested, *vals);
            lemma_list(nested, *vals, rest);
            lemma_occurs_within(open + seq![OutTok::Open(Delim::Bracket)], items, seq![OutTok::Close(Delim::Bracket)] + close, target);
            assert(open + seq![OutTok::Open(Delim::Bracket)] + items + (seq![OutTok::Close(Delim::Bracket)] + close) =~= entry_out(fp, e));
        },
        _ => {},
    }
}

proof fn lemma_list(nested: Seq<OutTok>, vals: ValueList, names: Seq<usize>)
    requires
        list_record_at(vals, names),
    ensures
        occurs_in(path_through(nested, names) + create_call(), list_out(nested, vals)),
    decreases vals,
{
    let target = path_through(nested, names) + create_call();
    match vals {
        ValueList::Nil => {},
        ValueList::Cons(v, rest) => {
            let item = item_value_out(nested, *v);
            let tail = match *rest {
                ValueList::Nil => Seq::empty(),
                _ => punct(',') + list_out(nested, *rest),
            };
            assert(list_out(nested, vals) == item + tail);
            if *v is Single && value_record_at(*v, names) {
                match *v {
                    FieldValue::Single(set) => {
                        let calls = calls_out(nested, *set);
                        if names.len() == 0 {
                            assert(target == nested + create_call());
                            lemma_occurs_whole(Seq::empty(), nested + create_call(), calls + tail);
                            assert(Seq::<OutTok>::empty() + (nested + create_call()) + (calls + tail) =~= item + tail);
                        } else {
                            lemma_calls(nested, *set, names);
                            lemma_occurs_within(nested + create_call(), calls, tail, target);
                            assert(nested + create_call() + calls + tail =~= item + tail);
                        }
                    },
                    _ => {},
                }
            } else {
                lemma_list(nested, *rest, names);
                lemma_occurs_within(item + punct(','), list_out(nested, *rest), Seq::empty(), target);
                assert(item + punct(',') + list_out(nested, *rest) + Seq::<OutTok>::empty() =~= item + tail);
            }
        },
    }
}

/// Every nested record of a `create!` block (a `{ .. }` value, or a
/// `{ .. }` item of a list value, at any depth) is built from the block's
/// fields path extended by the names of the fields that lead to it: the
/// record reached through `a`, then `b`, starts `fp.a().b().create()`.
pub proof fn lemma_nested_records_extend_path(fp: Seq<OutTok>, s: FieldSet, names: Seq<usize>)
    requires
        record_at(s, names),
    ensures
        occurs_in(path_through(fp, names) + create_call(), calls_out(fp, s)),
{
    lemma_calls(fp, s, names);
}

/// The same for `create!(Type { .. })`: the record reached through `a`,
/// then `b`, is built with `Type::fields().a().b().create()`.
pub proof fn lemma_typed_nested_records(path_start: usize, path_end: usize, fields: FieldSet, names: Seq<usize>)
    requires
        record_at(fields, names),
    ensures
        occurs_in(
            path_through(fields_root(path_start as int, path_end as int), names) + create_call(),
            item_out(CreateItem::Typed { path_start, path_end, fields: Box::new(fields) }),
        ),
{
    let fp = fields_root(path_start as int, path_end as int);
    let x = CreateItem::Typed { path_start, path_end, fields: Box::new(fields) };
    lemma_calls(fp, fields, names);
    let head = crate::emit::copies(path_start as int, path_end as int) + crate::emit::path_sep()
        + seq![OutTok::Word(Word::Create)] + parens(Seq::empty());
    lemma_occurs_within(head, calls_out(fp, fields), Seq::empty(), path_through(fp, names) + create_call());
    assert(head + calls_out(fp, fields) + Seq::<OutTok>::empty() =~= item_out(x));
}

} // verus!
