//! The code generated for a validated model, put together: the items are
//! wrapped in an anonymous constant that brings the runtime support into
//! scope under `_toasty`.
use vstd::prelude::*;

use crate::checks_gen::{checks_of_model_out, expand_checks};
use crate::case::{is_pluralizable, pluralizable};
use crate::model_core::{expand_model_core, model_core_out};
use crate::model_gen::{check_column_types, column_types_registrable};
use crate::registration::{autos_registrable, check_autos};
use crate::embed_gen::{embedded_enum_out, embedded_struct_out, expand_embedded_enum, expand_embedded_struct};
use crate::field_list::{expand_field_list_struct, field_list_struct_out};
use crate::field_struct::{expand_field_struct, field_struct_out};
use crate::filters::{filters_view, model_filters, Filter};
use crate::gen::{c, gens_view, push_code, Gen, GenV};
use crate::model_methods::{expand_model_methods, model_methods_out};
use crate::model_traits::{expand_model_trait_impls, model_trait_impls_out};
use crate::query_struct::{expand_query_struct, lemma_model_filters_fit, query_struct_out};
use crate::schema::model::{Model, ModelV};
use crate::upsert::{expand_upsert_builder, upsert_builder_out, upsert_plan, upsert_targets, UpsertPlan};

verus! {

/// Appending pieces appends their views.
pub proof fn lemma_gens_append(a: Seq<Gen>, b: Seq<Gen>)
    ensures
        gens_view(a + b) == gens_view(a) + gens_view(b),
{
    reveal(crate::gen::gens_view);
    assert(gens_view(a + b) =~= gens_view(a) + gens_view(b));
}

pub(crate) fn append_gens(out: &mut Vec<Gen>, more: Vec<Gen>)
    ensures
        gens_view(final(out)@) == gens_view(old(out)@) + gens_view(more@),
{
    let ghost a = out@;
    let ghost b = more@;
    let mut more = more;
    out.append(&mut more);
    proof {
        lemma_gens_append(a, b);
    }
}

/// The items wrapped in an anonymous constant that imports the runtime
/// support as `_toasty`, with the setter-bound traits unqualified.
pub open spec fn wrap_in_const_out(body: Seq<GenV>) -> Seq<GenV> {
    c("const _: () = { use toasty as _toasty; #[allow(unused_imports)] use _toasty::codegen_support::{Assign, FieldExprTarget, IntoExpr}; "@)
        + body + c("};"@)
}

/// The upsert builders for the targets `ts`, in order.
pub open spec fn upserts_out(m: ModelV, syms: Seq<String>, ts: Seq<Seq<usize>>) -> Seq<GenV>
    decreases ts.len(),
{
    if ts.len() == 0 {
        Seq::empty()
    } else {
        upserts_out(m, syms, ts.drop_last()) + upsert_builder_out(m, upsert_plan(m, syms, ts.last()), syms)
    }
}

/// The code generated for a root model: its inherent methods, its core
/// impls and create builder, its key-based trait impls, its fields
/// and list fields structs, its query struct with the model's filters, and an upsert
/// builder per unique index of plain fields, then the compile-time
/// obligations on its field types.
pub open spec fn model_out(model: Model, syms: Seq<String>) -> Seq<GenV> {
    let m = model.view();
    wrap_in_const_out(
        model_methods_out(m, model_filters(m), syms)
            + model_core_out(model, syms)
            + model_trait_impls_out(m, syms)
            + field_struct_out(m, syms)
            + field_list_struct_out(m, syms)
            + query_struct_out(m, model_filters(m), syms)
            + upserts_out(m, syms, upsert_targets(m))
            + checks_of_model_out(m, true),
    )
}

/// The model's core impls can be generated: every `#[auto]` field and every
/// column type can be registered, and the table name is given or the
/// model's name can be pluralized.
pub open spec fn core_expandable(m: Model) -> bool {
    &&& autos_registrable(m.view())
    &&& column_types_registrable(m)
    &&& m.table is Some || pluralizable(m.name.snake_case@)
}

/// Whether `core_expandable` holds.
pub fn check_core_expandable(model: &Model) -> (r: bool)
    ensures
        r == core_expandable(*model),
{
    check_autos(model) && check_column_types(model) && (model.table.is_some() || is_pluralizable(model.name.snake_case.as_str()))
}

/// The code generated for an embedded enum (see `embedded_enum_out`) or
/// struct (see `embedded_struct_out`).
pub open spec fn embedded_out(model: Model, syms: Seq<String>) -> Seq<GenV> {
    let m = model.view();
    if m.kind is EmbeddedEnum {
        wrap_in_const_out(embedded_enum_out(model, syms))
    } else {
        wrap_in_const_out(embedded_struct_out(model, syms))
    }
}

/// The code of an embedded type can be generated: an enum, or a struct
/// whose `#[auto]` fields and column types can be registered.
pub open spec fn embedded_expandable(m: Model) -> bool {
    m.view().kind is EmbeddedEnum || (autos_registrable(m.view()) && column_types_registrable(m))
}

/// Whether `embedded_expandable` holds.
pub fn check_embedded_expandable(model: &Model) -> (r: bool)
    ensures
        r == embedded_expandable(*model),
{
    match &model.kind {
        crate::schema::model::ModelKind::EmbeddedEnum(_) => true,
        _ => check_autos(model) && check_column_types(model),
    }
}

/// The code generated for a root model.
pub fn expand_model(model: &Model, syms: &Vec<String>) -> (r: Vec<Gen>)
    requires
        model.wf(),
        core_expandable(*model),
    ensures
        gens_view(r@) == model_out(*model, syms@),
{
    let ghost m = model.view();
    let mut out: Vec<Gen> = Vec::new();
    proof {
        crate::gen::lemma_gens_empty(out@);
    }
    push_code(&mut out, "const _: () = { use toasty as _toasty; #[allow(unused_imports)] use _toasty::codegen_support::{Assign, FieldExprTarget, IntoExpr}; ");
    let ghost s0 = gens_view(out@);
    let filters = Filter::build_model_filters(model);
    let n = model.fields.len();
    proof {
        lemma_model_filters_fit(m);
    }
    append_gens(&mut out, expand_model_methods(model, &filters, syms));
    append_gens(&mut out, expand_model_core(model, syms));
    append_gens(&mut out, expand_model_trait_impls(model, syms));
    append_gens(&mut out, expand_field_struct(model, syms));
    append_gens(&mut out, expand_field_list_struct(model, syms));
    append_gens(&mut out, expand_query_struct(model, &filters, syms));
    let ghost s1 = gens_view(out@);
    assert(s1 == s0 + model_methods_out(m, model_filters(m), syms@) + model_core_out(*model, syms@) + model_trait_impls_out(m, syms@) + field_struct_out(m, syms@) + field_list_struct_out(m, syms@) + query_struct_out(m, model_filters(m), syms@));
    let plans = UpsertPlan::build_model_upserts(model, syms);
    let ghost ts = upsert_targets(m);
    let mut i: usize = 0;
    while i < plans.len()
        invariant
            i <= plans@.len(),
            m == model.view(),
            ts == upsert_targets(m),
            plans@.len() == ts.len(),
            forall|j: int| 0 <= j < plans@.len() ==> (#[trigger] plans@[j]).view() == upsert_plan(m, syms@, ts[j]),
            gens_view(out@) == s1 + upserts_out(m, syms@, ts.subrange(0, i as int)),
        decreases plans.len() - i,
    {
        let g = expand_upsert_builder(model, &plans[i], syms);
        append_gens(&mut out, g);
        assert(ts.subrange(0, i + 1).drop_last() =~= ts.subrange(0, i as int));
        i = i + 1;
        assert(gens_view(out@) =~= s1 + upserts_out(m, syms@, ts.subrange(0, i as int)));
    }
    assert(ts.subrange(0, i as int) =~= ts);
    append_gens(&mut out, expand_checks(model, true));
    push_code(&mut out, "};");
    assert(gens_view(out@) =~= model_out(*model, syms@));
    out
}

/// The code generated for an embedded struct or enum.
pub fn expand_embedded(model: &Model, syms: &Vec<String>) -> (r: Vec<Gen>)
    requires
        model.wf(),
        embedded_expandable(*model),
    ensures
        gens_view(r@) == embedded_out(*model, syms@),
{
    let mut out: Vec<Gen> = Vec::new();
    proof {
        crate::gen::lemma_gens_empty(out@);
    }
    push_code(&mut out, "const _: () = { use toasty as _toasty; #[allow(unused_imports)] use _toasty::codegen_support::{Assign, FieldExprTarget, IntoExpr}; ");
    let is_enum = match &model.kind {
        crate::schema::model::ModelKind::EmbeddedEnum(_) => true,
        _ => false,
    };
    if is_enum {
        append_gens(&mut out, expand_embedded_enum(model, syms));
    } else {
        append_gens(&mut out, expand_embedded_struct(model, syms));
    }
    push_code(&mut out, "};");
    assert(gens_view(out@) =~= embedded_out(*model, syms@));
    out
}

} // verus!
