//! The compile-time obligations generated for a model: each names a field
//! type and a bound the type must meet, so that a misuse is reported by the
//! type checker at the field's declaration.
use vstd::prelude::*;

use crate::gen::{c, gens_view, push_code, push_gen, Gen, GenV};
use crate::registration::{
    auto_checks, column_type_checks, indexable_checks, storage_checks, version_checks, AutoTag, CompileChecks,
};
use crate::schema::column::StorageTag;
use crate::schema::model::{Model, ModelV};

verus! {

/// The obligation that the type of field `k` meets `bound`.
pub open spec fn bound_check_out(k: usize, bound: Seq<GenV>) -> Seq<GenV> {
    c("const _: () = { fn _check<__T>() where __T: "@) + bound + c(", {} let _ = _check::<"@) + seq![GenV::FieldTy(k)] + c(">; }; "@)
}

/// The storage marker type of a column type.
pub open spec fn marker_out(t: StorageTag) -> Seq<GenV> {
    match t {
        StorageTag::Boolean => c("_toasty::codegen_support::storage::tag::Boolean"@),
        StorageTag::I8 => c("_toasty::codegen_support::storage::tag::I8"@),
        StorageTag::I16 => c("_toasty::codegen_support::storage::tag::I16"@),
        StorageTag::I32 => c("_toasty::codegen_support::storage::tag::I32"@),
        StorageTag::I64 => c("_toasty::codegen_support::storage::tag::I64"@),
        StorageTag::U8 => c("_toasty::codegen_support::storage::tag::U8"@),
        StorageTag::U16 => c("_toasty::codegen_support::storage::tag::U16"@),
        StorageTag::U32 => c("_toasty::codegen_support::storage::tag::U32"@),
        StorageTag::U64 => c("_toasty::codegen_support::storage::tag::U64"@),
        StorageTag::Int(n) => c("_toasty::codegen_support::storage::tag::Int<"@) + seq![GenV::Num(n as u64)] + c("u8>"@),
        StorageTag::UInt(n) => c("_toasty::codegen_support::storage::tag::UInt<"@) + seq![GenV::Num(n as u64)] + c("u8>"@),
        StorageTag::F32 => c("_toasty::codegen_support::storage::tag::F32"@),
        StorageTag::F64 => c("_toasty::codegen_support::storage::tag::F64"@),
        StorageTag::Text => c("_toasty::codegen_support::storage::tag::Text"@),
        StorageTag::VarChar => c("_toasty::codegen_support::storage::tag::VarChar"@),
        StorageTag::Json => c("_toasty::codegen_support::storage::tag::Json"@),
        StorageTag::Jsonb => c("_toasty::codegen_support::storage::tag::Jsonb"@),
        StorageTag::Binary => c("_toasty::codegen_support::storage::tag::Binary"@),
        StorageTag::Blob => c("_toasty::codegen_support::storage::tag::Blob"@),
        StorageTag::Timestamp => c("_toasty::codegen_support::storage::tag::Timestamp"@),
        StorageTag::Date => c("_toasty::codegen_support::storage::tag::Date"@),
        StorageTag::Time => c("_toasty::codegen_support::storage::tag::Time"@),
        StorageTag::DateTime => c("_toasty::codegen_support::storage::tag::DateTime"@),
    }
}

fn push_marker(out: &mut Vec<Gen>, t: StorageTag)
    ensures
        gens_view(final(out)@) == gens_view(old(out)@) + marker_out(t),
{
    let ghost start = gens_view(out@);
    match t {
        StorageTag::Boolean => push_code(out, "_toasty::codegen_support::storage::tag::Boolean"),
        StorageTag::I8 => push_code(out, "_toasty::codegen_support::storage::tag::I8"),
        StorageTag::I16 => push_code(out, "_toasty::codegen_support::storage::tag::I16"),
        StorageTag::I32 => push_code(out, "_toasty::codegen_support::storage::tag::I32"),
        StorageTag::I64 => push_code(out, "_toasty::codegen_support::storage::tag::I64"),
        StorageTag::U8 => push_code(out, "_toasty::codegen_support::storage::tag::U8"),
        StorageTag::U16 => push_code(out, "_toasty::codegen_support::storage::tag::U16"),
        StorageTag::U32 => push_code(out, "_toasty::codegen_support::storage::tag::U32"),
        StorageTag::U64 => push_code(out, "_toasty::codegen_support::storage::tag::U64"),
        StorageTag::Int(n) => {
            push_code(out, "_toasty::codegen_support::storage::tag::Int<");
            push_gen(out, Gen::Num(n as u64));
            push_code(out, "u8>");
            assert(gens_view(out@) =~= start + marker_out(t));
        },
        StorageTag::UInt(n) => {
            push_code(out, "_toasty::codegen_support::storage::tag::UInt<");
            push_gen(out, Gen::Num(n as u64));
            push_code(out, "u8>");
            assert(gens_view(out@) =~= start + marker_out(t));
        },
        StorageTag::F32 => push_code(out, "_toasty::codegen_support::storage::tag::F32"),
        StorageTag::F64 => push_code(out, "_toasty::codegen_support::storage::tag::F64"),
        StorageTag::Text => push_code(out, "_toasty::codegen_support::storage::tag::Text"),
        StorageTag::VarChar => push_code(out, "_toasty::codegen_support::storage::tag::VarChar"),
        StorageTag::Json => push_code(out, "_toasty::codegen_support::storage::tag::Json"),
        StorageTag::Jsonb => push_code(out, "_toasty::codegen_support::storage::tag::Jsonb"),
        StorageTag::Binary => push_code(out, "_toasty::codegen_support::storage::tag::Binary"),
        StorageTag::Blob => push_code(out, "_toasty::codegen_support::storage::tag::Blob"),
        StorageTag::Timestamp => push_code(out, "_toasty::codegen_support::storage::tag::Timestamp"),
        StorageTag::Date => push_code(out, "_toasty::codegen_support::storage::tag::Date"),
        StorageTag::Time => push_code(out, "_toasty::codegen_support::storage::tag::Time"),
        StorageTag::DateTime => push_code(out, "_toasty::codegen_support::storage::tag::DateTime"),
    }
}

/// The bound of an explicit `#[auto(..)]` strategy.
pub open spec fn auto_bound_out(t: AutoTag) -> Seq<GenV> {
    match t {
        AutoTag::Uuid => c("_toasty::codegen_support::auto::AutoCompatible<_toasty::codegen_support::auto::tag::Uuid>"@),
        AutoTag::Increment => c("_toasty::codegen_support::auto::AutoCompatible<_toasty::codegen_support::auto::tag::Increment>"@),
    }
}

/// The kinds of obligations.
#[derive(Clone, Copy, PartialEq, Eq, Debug, Structural)]
pub enum CheckKind {
    /// The type is compatible with the column type's storage marker.
    Storage(StorageTag),
    /// The type does not require an explicit column type.
    ColumnType,
    /// The type supports the `#[auto]` strategy.
    Auto(AutoTag),
    /// The type is a version counter.
    Version,
    /// The type can be indexed.
    Indexable,
}

/// The obligation of one kind for field `k`.
pub open spec fn check_out(k: usize, kind: CheckKind) -> Seq<GenV> {
    match kind {
        CheckKind::Storage(t) => bound_check_out(k, c("_toasty::codegen_support::storage::CompatibleWith<"@) + marker_out(t) + c(">"@)),
        CheckKind::ColumnType => c("const _: () = { if <"@) + seq![GenV::FieldTy(k)]

                + c(" as _toasty::codegen_support::Field>::REQUIRES_EXPLICIT_COLUMN_TYPE { panic!(\"`toasty::Json<T>` \
                    fields require `#[column(type = ...)]`; use `#[column(type = text)]` for text-backed \
                    JSON storage\"); } }; "@),
        CheckKind::Auto(t) => bound_check_out(k, auto_bound_out(t)),
        CheckKind::Version => bound_check_out(k, c("_toasty::codegen_support::Version"@)),
        CheckKind::Indexable => bound_check_out(k, c("_toasty::codegen_support::index::IndexableField"@)),
    }
}

pub open spec fn checks_out(ks: Seq<(usize, CheckKind)>) -> Seq<GenV>
    decreases ks.len(),
{
    if ks.len() == 0 { Seq::empty() } else { checks_out(ks.drop_last()) + check_out(ks.last().0, ks.last().1) }
}

/// The obligations of a model, in the order: storage compatibility, column
/// type requirement, auto strategy and version counter (for a root model,
/// `full`), indexability.
pub open spec fn model_checks(m: ModelV, full: bool) -> Seq<(usize, CheckKind)> {
    let n = m.fields.len() as int;
    storage_checks(m.fields, n).map_values(|p: (usize, StorageTag)| (p.0, CheckKind::Storage(p.1)))
        + column_type_checks(m.fields, n).map_values(|k: usize| (k, CheckKind::ColumnType))
        + (if full { auto_checks(m.fields, n).map_values(|p: (usize, AutoTag)| (p.0, CheckKind::Auto(p.1))) } else { Seq::empty() })
        + (if full { version_checks(m.fields, n).map_values(|k: usize| (k, CheckKind::Version)) } else { Seq::empty() })
        + indexable_checks(m).map_values(|k: usize| (k, CheckKind::Indexable))
}

/// The compile-time obligations of a model.
pub open spec fn checks_of_model_out(m: ModelV, full: bool) -> Seq<GenV> {
    checks_out(model_checks(m, full))
}

fn push_check(out: &mut Vec<Gen>, k: usize, kind: CheckKind)
    ensures
        gens_view(final(out)@) == gens_view(old(out)@) + check_out(k, kind),
{
    let ghost start = gens_view(out@);
    match kind {
        CheckKind::ColumnType => {
            push_code(out, "const _: () = { if <");
            push_gen(out, Gen::FieldTy(k));
            push_code(out, " as _toasty::codegen_support::Field>::REQUIRES_EXPLICIT_COLUMN_TYPE { panic!(\"`toasty::Json<T>` \
                fields require `#[column(type = ...)]`; use `#[column(type = text)]` for text-backed \
                JSON storage\"); } }; ");
        },
        _ => {
            push_code(out, "const _: () = { fn _check<__T>() where __T: ");
            let ghost s1 = gens_view(out@);
            match kind {
                CheckKind::Storage(t) => {
                    push_code(out, "_toasty::codegen_support::storage::CompatibleWith<");
                    push_marker(out, t);
                    push_code(out, ">");
                },
                CheckKind::Auto(AutoTag::Uuid) => push_code(out, "_toasty::codegen_support::auto::AutoCompatible<_toasty::codegen_support::auto::tag::Uuid>"),
                CheckKind::Auto(AutoTag::Increment) => push_code(out, "_toasty::codegen_support::auto::AutoCompatible<_toasty::codegen_support::auto::tag::Increment>"),
                CheckKind::Version => push_code(out, "_toasty::codegen_support::Version"),
                _ => push_code(out, "_toasty::codegen_support::index::IndexableField"),
            }
            push_code(out, ", {} let _ = _check::<");
            push_gen(out, Gen::FieldTy(k));
            push_code(out, ">; }; ");
        },
    }
    assert(gens_view(out@) =~= start + check_out(k, kind));
}

/// The compile-time obligations of a model.
pub fn expand_checks(model: &Model, full: bool) -> (r: Vec<Gen>)
    requires
        model.wf(),
    ensures
        gens_view(r@) == checks_of_model_out(model.view(), full),
{
    let ghost m = model.view();
    let plan = CompileChecks::of_model(model);
    let mut ks: Vec<(usize, CheckKind)> = Vec::new();
    let mut i: usize = 0;
    while i < plan.storage.len()
        invariant
            i <= plan.storage@.len(),
            ks@ == plan.storage@.subrange(0, i as int).map_values(|p: (usize, StorageTag)| (p.0, CheckKind::Storage(p.1))),
        decreases plan.storage.len() - i,
    {
        ks.push((plan.storage[i].0, CheckKind::Storage(plan.storage[i].1)));
        i = i + 1;
        assert(ks@ =~= plan.storage@.subrange(0, i as int).map_values(|p: (usize, StorageTag)| (p.0, CheckKind::Storage(p.1))));
    }
    assert(plan.storage@.subrange(0, i as int) =~= plan.storage@);
    let ghost k1 = ks@;
    let mut i: usize = 0;
    while i < plan.column_type.len()
        invariant
            i <= plan.column_type@.len(),
            ks@ == k1 + plan.column_type@.subrange(0, i as int).map_values(|k: usize| (k, CheckKind::ColumnType)),
        decreases plan.column_type.len() - i,
    {
        ks.push((plan.column_type[i], CheckKind::ColumnType));
        i = i + 1;
        assert(ks@ =~= k1 + plan.column_type@.subrange(0, i as int).map_values(|k: usize| (k, CheckKind::ColumnType)));
    }
    assert(plan.column_type@.subrange(0, i as int) =~= plan.column_type@);
    let ghost k2 = ks@;
    let n_auto = if full { plan.auto.len() } else { 0 };
    let mut i: usize = 0;
    while i < n_auto
        invariant
            n_auto == (if full { plan.auto@.len() } else { 0 }),
            i <= n_auto,
            ks@ == k2 + plan.auto@.subrange(0, i as int).map_values(|p: (usize, AutoTag)| (p.0, CheckKind::Auto(p.1))),
        decreases n_auto - i,
    {
        ks.push((plan.auto[i].0, CheckKind::Auto(plan.auto[i].1)));
        i = i + 1;
        assert(ks@ =~= k2 + plan.auto@.subrange(0, i as int).map_values(|p: (usize, AutoTag)| (p.0, CheckKind::Auto(p.1))));
    }
    assert(plan.auto@.subrange(0, i as int) =~= (if full { plan.auto@ } else { Seq::empty() }));
    let ghost k3 = ks@;
    let n_version = if full { plan.version.len() } else { 0 };
    let mut i: usize = 0;
    while i < n_version
        invariant
            n_version == (if full { plan.version@.len() } else { 0 }),
            i <= n_version,
            ks@ == k3 + plan.version@.subrange(0, i as int).map_values(|k: usize| (k, CheckKind::Version)),
        decreases n_version - i,
    {
        ks.push((plan.version[i], CheckKind::Version));
        i = i + 1;
        assert(ks@ =~= k3 + plan.version@.subrange(0, i as int).map_values(|k: usize| (k, CheckKind::Version)));
    }
    assert(plan.version@.subrange(0, i as int) =~= (if full { plan.version@ } else { Seq::empty() }));
    let ghost k4 = ks@;
    let mut i: usize = 0;
    while i < plan.indexable.len()
        invariant
            i <= plan.indexable@.len(),
            ks@ == k4 + plan.indexable@.subrange(0, i as int).map_values(|k: usize| (k, CheckKind::Indexable)),
        decreases plan.indexable.len() - i,
    {
        ks.push((plan.indexable[i], CheckKind::Indexable));
        i = i + 1;
        assert(ks@ =~= k4 + plan.indexable@.subrange(0, i as int).map_values(|k: usize| (k, CheckKind::Indexable)));
    }
    assert(plan.indexable@.subrange(0, i as int) =~= plan.indexable@);
    assert(ks@ =~= model_checks(m, full));
    let mut out: Vec<Gen> = Vec::new();
    proof {
        crate::gen::lemma_gens_empty(out@);
    }
    let mut j: usize = 0;
    while j < ks.len()
        invariant
            j <= ks@.len(),
            gens_view(out@) == checks_out(ks@.subrange(0, j as int)),
        decreases ks.len() - j,
    {
        push_check(&mut out, ks[j].0, ks[j].1);
        assert(ks@.subrange(0, j + 1).drop_last() =~= ks@.subrange(0, j as int));
        j = j + 1;
    }
    assert(ks@.subrange(0, j as int) =~= ks@);
    out
}

} // verus!
