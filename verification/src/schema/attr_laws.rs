//! What reading a field's attributes ignores: attributes that the macro
//! does not know are skipped.
use vstd::prelude::*;

use super::attr::{attr_is, Attr};
use super::field::{field_attr_fold, field_attr_step, field_attrs_spec, ExprSrc, FieldAttr};
use crate::diag::Diag;

verus! {

/// The attribute is none of those a field's settings are read from.
pub open spec fn unrelated_field_attr(a: Attr, syms: Seq<String>) -> bool {
    &&& !attr_is(a, syms, "key"@)
    &&& !attr_is(a, syms, "auto"@)
    &&& !attr_is(a, syms, "unique"@)
    &&& !attr_is(a, syms, "index"@)
    &&& !attr_is(a, syms, "column"@)
    &&& !attr_is(a, syms, "default"@)
    &&& !attr_is(a, syms, "update"@)
    &&& !attr_is(a, syms, "version"@)
    &&& !attr_is(a, syms, "serialize"@)
}

/// An expression's attribute position, moved past an attribute inserted
/// at `i`.
pub open spec fn shift_src(e: Option<ExprSrc>, i: int) -> Option<ExprSrc> {
    match e {
        Some(ExprSrc::Arg(p)) => if p >= i { Some(ExprSrc::Arg((p + 1) as usize)) } else { e },
        _ => e,
    }
}

/// The settings with their expression positions moved past an attribute
/// inserted at `i`.
pub open spec fn shift_field_attr(f: FieldAttr, i: int) -> FieldAttr {
    FieldAttr { default_expr: shift_src(f.default_expr, i), update_expr: shift_src(f.update_expr, i), ..f }
}

pub open spec fn src_below(e: Option<ExprSrc>, k: int) -> bool {
    e matches Some(ExprSrc::Arg(p)) ==> p < k
}

pub open spec fn positions_below(f: FieldAttr, k: int) -> bool {
    src_below(f.default_expr, k) && src_below(f.update_expr, k)
}

proof fn lemma_step_shift(a: Attr, k: int, i: int, syms: Seq<String>, acc: FieldAttr, errs: Seq<Diag>)
    requires
        0 <= i <= k,
        k + 1 <= usize::MAX,
    ensures
        field_attr_step(a, k + 1, syms, shift_field_attr(acc, i), errs)
            == (shift_field_attr(field_attr_step(a, k, syms, acc, errs).0, i), field_attr_step(a, k, syms, acc, errs).1),
{
}

proof fn lemma_step_below(a: Attr, k: int, syms: Seq<String>, acc: FieldAttr, errs: Seq<Diag>)
    requires
        0 <= k < usize::MAX,
        positions_below(acc, k),
    ensures
        positions_below(field_attr_step(a, k, syms, acc, errs).0, k + 1),
{
}

proof fn lemma_fold_after(attrs: Seq<Attr>, attrs2: Seq<Attr>, i: int, syms: Seq<String>, k: int, acc: FieldAttr, errs: Seq<Diag>)
    requires
        0 <= i <= k <= attrs.len(),
        attrs2.len() == attrs.len() + 1,
        attrs2.len() <= usize::MAX,
        forall|j: int| i <= j < attrs.len() ==> attrs2[j + 1] == attrs[j],
    ensures
        field_attr_fold(attrs2, syms, k + 1, shift_field_attr(acc, i), errs)
            == (shift_field_attr(field_attr_fold(attrs, syms, k, acc, errs).0, i), field_attr_fold(attrs, syms, k, acc, errs).1),
    decreases attrs.len() - k,
{
    if k < attrs.len() {
        let (acc2, errs2) = field_attr_step(attrs[k], k, syms, acc, errs);
        lemma_step_shift(attrs[k], k, i, syms, acc, errs);
        lemma_fold_after(attrs, attrs2, i, syms, k + 1, acc2, errs2);
    }
}

proof fn lemma_fold_before(attrs: Seq<Attr>, x: Attr, i: int, syms: Seq<String>, k: int, acc: FieldAttr, errs: Seq<Diag>)
    requires
        0 <= k <= i <= attrs.len(),
        attrs.len() + 1 <= usize::MAX,
        unrelated_field_attr(x, syms),
        positions_below(acc, k),
    ensures
        field_attr_fold(attrs.insert(i, x), syms, k, acc, errs)
            == (shift_field_attr(field_attr_fold(attrs, syms, k, acc, errs).0, i), field_attr_fold(attrs, syms, k, acc, errs).1),
    decreases i - k,
{
    let attrs2 = attrs.insert(i, x);
    if k < i {
        assert(attrs2[k] == attrs[k]);
        let (acc2, errs2) = field_attr_step(attrs[k], k, syms, acc, errs);
        lemma_step_below(attrs[k], k, syms, acc, errs);
        lemma_fold_before(attrs, x, i, syms, k + 1, acc2, errs2);
    } else {
        assert(attrs2[i] == x);
        assert(field_attr_step(x, i, syms, acc, errs) == (acc, errs));
        assert(shift_field_attr(acc, i) == acc);
        assert forall|j: int| i <= j < attrs.len() implies attrs2[j + 1] == attrs[j] by {}
        lemma_fold_after(attrs, attrs2, i, syms, i, acc, errs);
    }
}

/// Inserting an attribute that is none of `key`, `auto`, `unique`,
/// `index`, `column`, `default`, `update`, `version` or `serialize` into a
/// field's attributes changes nothing that is read from them: the same
/// errors, or the same settings, with the positions of the `#[default]` /
/// `#[update]` attributes moved past the inserted one.
pub proof fn lemma_unrelated_attrs_skipped(attrs: Seq<Attr>, x: Attr, i: int, syms: Seq<String>)
    requires
        0 <= i <= attrs.len(),
        attrs.len() + 1 <= usize::MAX,
        unrelated_field_attr(x, syms),
    ensures
        field_attrs_spec(attrs.insert(i, x), syms) == (match field_attrs_spec(attrs, syms) {
            Ok(f) => Ok::<FieldAttr, Seq<Diag>>(shift_field_attr(f, i)),
            Err(e) => Err::<FieldAttr, Seq<Diag>>(e),
        }),
{
    let acc0 = super::field::field_attr0();
    lemma_fold_before(attrs, x, i, syms, 0, acc0, Seq::empty());
}

/// `attrs` with the attributes of `ins` inserted in turn, each at its
/// position in the list built so far.
pub open spec fn insert_all(attrs: Seq<Attr>, ins: Seq<(int, Attr)>) -> Seq<Attr>
    decreases ins.len(),
{
    if ins.len() == 0 {
        attrs
    } else {
        insert_all(attrs, ins.drop_last()).insert(ins.last().0, ins.last().1)
    }
}

/// Each insertion is at a position of the list built so far, and inserts
/// an attribute unrelated to a field's settings.
pub open spec fn insertions_fit(attrs: Seq<Attr>, ins: Seq<(int, Attr)>, syms: Seq<String>) -> bool {
    forall|j: int| 0 <= j < ins.len() ==> 0 <= (#[trigger] ins[j]).0 <= attrs.len() + j && unrelated_field_attr(ins[j].1, syms)
}

/// Both are absent, both the timestamp, or both an attribute's arguments.
pub open spec fn same_src_kind(a: Option<ExprSrc>, b: Option<ExprSrc>) -> bool {
    match (a, b) {
        (None, None) => true,
        (Some(ExprSrc::Now), Some(ExprSrc::Now)) => true,
        (Some(ExprSrc::Arg(_)), Some(ExprSrc::Arg(_))) => true,
        _ => false,
    }
}

/// The settings are equal but for the positions of the `#[default]` /
/// `#[update]` attributes they record.
pub open spec fn same_up_to_positions(f: FieldAttr, g: FieldAttr) -> bool {
    &&& FieldAttr { default_expr: None, update_expr: None, ..f } == FieldAttr { default_expr: None, update_expr: None, ..g }
    &&& same_src_kind(f.default_expr, g.default_expr)
    &&& same_src_kind(f.update_expr, g.update_expr)
}

proof fn lemma_insert_all_len(attrs: Seq<Attr>, ins: Seq<(int, Attr)>, syms: Seq<String>)
    requires
        insertions_fit(attrs, ins, syms),
    ensures
        insert_all(attrs, ins).len() == attrs.len() + ins.len(),
    decreases ins.len(),
{
    if ins.len() > 0 {
        let pre = ins.drop_last();
        assert forall|j: int| 0 <= j < pre.len() implies 0 <= (#[trigger] pre[j]).0 <= attrs.len() + j && unrelated_field_attr(pre[j].1, syms) by {
            assert(pre[j] == ins[j]);
        }
        lemma_insert_all_len(attrs, pre, syms);
        assert(ins[ins.len() - 1] == ins.last());
    }
}

/// Inserting any number of attributes that are none of `key`, `auto`,
/// `unique`, `index`, `column`, `default`, `update`, `version` or
/// `serialize` into a field's attributes changes nothing that is read from
/// them: both readings fail with the same errors, or both succeed with the
/// same settings up to the positions of the `#[default]` / `#[update]`
/// attributes.
pub proof fn lemma_unrelated_attrs_skipped_all(attrs: Seq<Attr>, ins: Seq<(int, Attr)>, syms: Seq<String>)
    requires
        insertions_fit(attrs, ins, syms),
        attrs.len() + ins.len() <= usize::MAX,
    ensures
        match (field_attrs_spec(insert_all(attrs, ins), syms), field_attrs_spec(attrs, syms)) {
            (Ok(f2), Ok(f)) => same_up_to_positions(f2, f),
            (Err(e2), Err(e)) => e2 == e,
            _ => false,
        },
    decreases ins.len(),
{
    if ins.len() == 0 {
        match field_attrs_spec(attrs, syms) {
            Ok(f) => {
                assert(same_src_kind(f.default_expr, f.default_expr));
                assert(same_src_kind(f.update_expr, f.update_expr));
            },
            Err(_) => {},
        }
    } else {
        let pre = ins.drop_last();
        assert forall|j: int| 0 <= j < pre.len() implies 0 <= (#[trigger] pre[j]).0 <= attrs.len() + j && unrelated_field_attr(pre[j].1, syms) by {
            assert(pre[j] == ins[j]);
        }
        lemma_unrelated_attrs_skipped_all(attrs, pre, syms);
        lemma_insert_all_len(attrs, pre, syms);
        let mid = insert_all(attrs, pre);
        assert(ins[ins.len() - 1] == ins.last());
        lemma_unrelated_attrs_skipped(mid, ins.last().1, ins.last().0, syms);
    }
}

} // verus!
