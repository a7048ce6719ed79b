//! The code generated for an embedded struct: its `Embed`, `Load` and
//! `Field` impls (its schema, the loading and reloading of its record), its
//! expression and assignment impls, and the newtype impls of a newtype.
use vstd::prelude::*;

use crate::checks_gen::{checks_of_model_out, expand_checks};
use crate::docs::doc_fields;
use crate::field_list::{expand_field_list_struct, field_list_struct_out};
use crate::field_struct::{expand_field_struct, field_struct_out};
use crate::gen::{c, field_ident_at, field_ident_at_exec, gens_view, push_code, push_gen, Gen, GenV};
use crate::model_core::{indices_out, push_indices, push_register_calls, register_calls_out};
use crate::model_expand::append_gens;
use crate::model_gen::{column_types_registrable, expand_model_fields, model_fields_out, name_out, push_name};
use crate::registration::{autos_registrable, fields_named};
use crate::schema::field::{FieldTy, FieldTyV};
use crate::schema::model::{Model, ModelKind};
use crate::text::concat;
use crate::tokens::{sym_string, sym_text};

verus! {

pub fn fields_named_exec(model: &Model) -> (r: bool)
    ensures
        r == fields_named(model.view()),
{
    match &model.kind {
        ModelKind::EmbeddedStruct(e) => e.fields_named,
        _ => true,
    }
}

/// The per-field pieces of an embedded struct's impls.
#[derive(Clone, Copy, PartialEq, Eq, Debug, Structural)]
pub enum EmbedPiece {
    /// Loading the field from a record.
    Load,
    /// Reloading the field: a `match` arm on its position.
    Reload,
    /// The field's value as an untyped expression.
    ExprVal,
    /// The same through a reference.
    ExprRef,
}

/// The field of `self` or `target` at `k`: its name, or its position in a
/// tuple struct.
pub open spec fn access_out(m: Model, syms: Seq<String>, k: usize) -> Seq<GenV> {
    if fields_named(m.view()) { seq![GenV::Text(field_ident_at(syms, m.view().fields, k as int))] } else { seq![GenV::Int(k)] }
}

/// The trait that reloads a field.
pub open spec fn reload_trait_out(m: Model, k: usize) -> Seq<GenV> {
    match m.view().fields[k as int].ty {
        FieldTyV::Primitive => c("_toasty::codegen_support::Load"@),
        FieldTyV::BelongsTo(_) => c("_toasty::codegen_support::RelationOneField"@),
        FieldTyV::HasOne(_) => c("_toasty::codegen_support::RelationOneField"@),
        FieldTyV::HasMany(pv) => if pv.via is Some { c("_toasty::codegen_support::Load"@) } else { c("_toasty::codegen_support::RelationManyField"@) },
    }
}

pub open spec fn embed_item_out(m: Model, syms: Seq<String>, k: usize, kind: EmbedPiece) -> Seq<GenV> {
    match kind {
        EmbedPiece::Load => (if fields_named(m.view()) {
            seq![GenV::Text(field_ident_at(syms, m.view().fields, k as int))] + c(": "@)
        } else {
            Seq::empty()
        }) + c("<"@) + seq![GenV::FieldTy(k)] + c(" as _toasty::codegen_support::Load>::load(record["@) + seq![GenV::Int(k)] + c("].take())?, "@),
        EmbedPiece::Reload => seq![GenV::Int(k)] + c(" => <"@) + seq![GenV::FieldTy(k)] + c(" as "@) + reload_trait_out(m, k)
            + c(">::reload(&mut target."@) + access_out(m, syms, k) + c(", value)?, "@),
        EmbedPiece::ExprVal => c("_toasty::codegen_support::into_untyped_expr::<FieldExprTarget<"@) + seq![GenV::FieldTy(k)] + c(">, _>(self."@)
            + access_out(m, syms, k) + c(")"@),
        EmbedPiece::ExprRef => c("_toasty::codegen_support::into_untyped_expr::<FieldExprTarget<"@) + seq![GenV::FieldTy(k)] + c(">, _>((&self."@)
            + access_out(m, syms, k) + c("))"@),
    }
}

/// The pieces of the first `n` fields; the expressions are separated by
/// commas.
pub open spec fn embed_items_out(m: Model, syms: Seq<String>, kind: EmbedPiece, n: int) -> Seq<GenV>
    decreases n,
{
    if n <= 0 {
        Seq::empty()
    } else {
        embed_items_out(m, syms, kind, n - 1)
            + (if n > 1 && (kind == EmbedPiece::ExprVal || kind == EmbedPiece::ExprRef) { c(", "@) } else { Seq::empty() })
            + embed_item_out(m, syms, (n - 1) as usize, kind)
    }
}

fn push_access(out: &mut Vec<Gen>, model: &Model, syms: &Vec<String>, k: usize)
    ensures
        gens_view(final(out)@) == gens_view(old(out)@) + access_out(*model, syms@, k),
{
    if fields_named_exec(model) {
        push_gen(out, Gen::Text(field_ident_at_exec(model, syms, k)));
    } else {
        push_gen(out, Gen::Int(k));
    }
}

fn push_embed_item(out: &mut Vec<Gen>, model: &Model, syms: &Vec<String>, k: usize, kind: EmbedPiece)
    requires
        k < model.fields@.len(),
    ensures
        gens_view(final(out)@) == gens_view(old(out)@) + embed_item_out(*model, syms@, k, kind),
{
    let ghost start = gens_view(out@);
    match kind {
        EmbedPiece::Load => {
            if fields_named_exec(model) {
                push_gen(out, Gen::Text(field_ident_at_exec(model, syms, k)));
                push_code(out, ": ");
            }
            push_code(out, "<");
            push_gen(out, Gen::FieldTy(k));
            push_code(out, " as _toasty::codegen_support::Load>::load(record[");
            push_gen(out, Gen::Int(k));
            push_code(out, "].take())?, ");
        },
        EmbedPiece::Reload => {
            push_gen(out, Gen::Int(k));
            push_code(out, " => <");
            push_gen(out, Gen::FieldTy(k));
            push_code(out, " as ");
            assert(model.view().fields[k as int] == model.fields@[k as int].view());
            match &model.fields[k].ty {
                FieldTy::Primitive => push_code(out, "_toasty::codegen_support::Load"),
                FieldTy::BelongsTo(_) => push_code(out, "_toasty::codegen_support::RelationOneField"),
                FieldTy::HasOne(_) => push_code(out, "_toasty::codegen_support::RelationOneField"),
                FieldTy::HasMany(h) => {
                    if h.rel.via.is_some() {
                        push_code(out, "_toasty::codegen_support::Load");
                    } else {
                        push_code(out, "_toasty::codegen_support::RelationManyField");
                    }
                },
            }
            push_code(out, ">::reload(&mut target.");
            push_access(out, model, syms, k);
            push_code(out, ", value)?, ");
        },
        EmbedPiece::ExprVal => {
            push_code(out, "_toasty::codegen_support::into_untyped_expr::<FieldExprTarget<");
            push_gen(out, Gen::FieldTy(k));
            push_code(out, ">, _>(self.");
            push_access(out, model, syms, k);
            push_code(out, ")");
        },
        EmbedPiece::ExprRef => {
            push_code(out, "_toasty::codegen_support::into_untyped_expr::<FieldExprTarget<");
            push_gen(out, Gen::FieldTy(k));
            push_code(out, ">, _>((&self.");
            push_access(out, model, syms, k);
            push_code(out, "))");
        },
    }
    assert(gens_view(out@) =~= start + embed_item_out(*model, syms@, k, kind));
}

pub fn push_embed_items(out: &mut Vec<Gen>, model: &Model, syms: &Vec<String>, kind: EmbedPiece)
    ensures
        gens_view(final(out)@) == gens_view(old(out)@) + embed_items_out(*model, syms@, kind, model.fields@.len() as int),
{
    let ghost start = gens_view(out@);
    let sep = match kind {
        EmbedPiece::ExprVal => true,
        EmbedPiece::ExprRef => true,
        _ => false,
    };
    let mut k: usize = 0;
    while k < model.fields.len()
        invariant
            k <= model.fields@.len(),
            sep == (kind == EmbedPiece::ExprVal || kind == EmbedPiece::ExprRef),
            gens_view(out@) == start + embed_items_out(*model, syms@, kind, k as int),
        decreases model.fields.len() - k,
    {
        if k > 0 && sep {
            push_code(out, ", ");
        }
        push_embed_item(out, model, syms, k, kind);
        k = k + 1;
        assert(gens_view(out@) =~= start + embed_items_out(*model, syms@, kind, k as int));
    }
}

/// A newtype: a tuple struct of one plain field.
pub open spec fn is_newtype(m: Model) -> bool {
    !fields_named(m.view()) && m.fields@.len() == 1 && m.view().fields[0].ty is Primitive
}

/// The code generated for an embedded struct: the newtype impls of a
/// newtype, its fields and list fields structs, `fields()`, the
/// compile-time obligations, and its `Embed`, `Load`, `Field`, `Document`,
/// `IntoExpr` and `Assign` impls.
#[verifier::opaque]
pub open spec fn embedded_struct_out(m: Model, syms: Seq<String>) -> Seq<GenV> {
    (if is_newtype(m) { newtype_impls_out(m, syms) } else { Seq::empty() })
        + field_struct_out(m.view(), syms)
        + field_list_struct_out(m.view(), syms)
        + embed_fields_fn_out(m, syms)
        + checks_of_model_out(m.view(), false)
        + embed_impl_out(m, syms)
        + embed_load_impl_out(m, syms)
        + embed_field_impl_out(m, syms)
        + embed_expr_impls_out(m, syms)
}

/// The code generated for an embedded struct (see `embedded_struct_out`).
pub fn expand_embedded_struct(model: &Model, syms: &Vec<String>) -> (r: Vec<Gen>)
    requires
        model.wf(),
        autos_registrable(model.view()),
        column_types_registrable(*model),
    ensures
        gens_view(r@) == embedded_struct_out(*model, syms@),
{
    proof {
        reveal(embedded_struct_out);
    }
    let mut out: Vec<Gen> = Vec::new();
    proof {
        crate::gen::lemma_gens_empty(out@);
    }
    let newtype = if !fields_named_exec(model) && model.fields.len() == 1 {
        assert(model.view().fields[0] == model.fields@[0].view());
        match &model.fields[0].ty {
            FieldTy::Primitive => true,
            _ => false,
        }
    } else {
        false
    };
    if newtype {
        push_newtype_impls(&mut out, model, syms);
    }
    append_gens(&mut out, expand_field_struct(model, syms));
    append_gens(&mut out, expand_field_list_struct(model, syms));
    push_embed_fields_fn(&mut out, model, syms);
    append_gens(&mut out, expand_checks(model, false));
    push_embed_impl(&mut out, model, syms);
    push_embed_load_impl(&mut out, model, syms);
    push_embed_field_impl(&mut out, model, syms);
    push_embed_expr_impls(&mut out, model, syms);
    assert(gens_view(out@) =~= embedded_struct_out(*model, syms@));
    out
}

/// The marker and index forwarding of a newtype: one unnamed plain field.
pub open spec fn newtype_impls_out(m: Model, syms: Seq<String>) -> Seq<GenV> {
    c("impl _toasty::codegen_support::newtype::NewtypeOf for "@)
        + seq![GenV::Sym(m.ident)]
        + c(" { type Inner = "@)
        + seq![GenV::FieldTy(0)]
        + c("; fn into_inner(self) -> "@)
        + seq![GenV::FieldTy(0)]
        + c(" { self.0 } fn from_inner(inner: "@)
        + seq![GenV::FieldTy(0)]
        + c(") -> Self { Self(inner) } } impl _toasty::codegen_support::index::IndexableField for "@)
        + seq![GenV::Sym(m.ident)]
        + c(" where "@)
        + seq![GenV::FieldTy(0)]
        + c(": _toasty::codegen_support::index::IndexableField, {} "@)
}

pub fn push_newtype_impls(out: &mut Vec<Gen>, model: &Model, syms: &Vec<String>)
    ensures
        gens_view(final(out)@) == gens_view(old(out)@) + newtype_impls_out(*model, syms@),
{
    let ghost start = gens_view(out@);

    push_code(out, "impl _toasty::codegen_support::newtype::NewtypeOf for ");
    push_gen(out, Gen::Sym(model.ident));
    push_code(out, " { type Inner = ");
    push_gen(out, Gen::FieldTy(0));
    push_code(out, "; fn into_inner(self) -> ");
    push_gen(out, Gen::FieldTy(0));
    push_code(out, " { self.0 } fn from_inner(inner: ");
    push_gen(out, Gen::FieldTy(0));
    push_code(out, ") -> Self { Self(inner) } } impl _toasty::codegen_support::index::IndexableField for ");
    push_gen(out, Gen::Sym(model.ident));
    push_code(out, " where ");
    push_gen(out, Gen::FieldTy(0));
    push_code(out, ": _toasty::codegen_support::index::IndexableField, {} ");
    assert(gens_view(out@) =~= start + newtype_impls_out(*model, syms@));
}


/// `fields()` of an embedded struct.
pub open spec fn embed_fields_fn_out(m: Model, syms: Seq<String>) -> Seq<GenV> {
    c("impl "@)
        + seq![GenV::Sym(m.ident)]
        + c(" { #[doc = "@)
        + seq![GenV::Str("Returns a handle used to reference `"@ + sym_text(syms, m.ident as int) + "`'s fields when building query expressions."@)]
        + c("] pub fn fields() -> "@)
        + seq![GenV::Text(sym_text(syms, m.ident as int) + "Fields"@)]
        + c("<"@)
        + seq![GenV::Sym(m.ident)]
        + c("> { "@)
        + seq![GenV::Text(sym_text(syms, m.ident as int) + "Fields"@)]
        + c(" { path: <"@)
        + seq![GenV::Sym(m.ident)]
        + c(" as _toasty::codegen_support::Embed>::path_root(), } } } "@)
}

pub fn push_embed_fields_fn(out: &mut Vec<Gen>, model: &Model, syms: &Vec<String>)
    ensures
        gens_view(final(out)@) == gens_view(old(out)@) + embed_fields_fn_out(*model, syms@),
{
    let ghost start = gens_view(out@);

    push_code(out, "impl ");
    push_gen(out, Gen::Sym(model.ident));
    push_code(out, " { #[doc = ");
    { let mn = sym_string(syms, model.ident); push_gen(out, Gen::Str(doc_fields(mn.as_str()))); }
    push_code(out, "] pub fn fields() -> ");
    push_gen(out, Gen::Text(concat(sym_string(syms, model.ident).as_str(), "Fields")));
    push_code(out, "<");
    push_gen(out, Gen::Sym(model.ident));
    push_code(out, "> { ");
    push_gen(out, Gen::Text(concat(sym_string(syms, model.ident).as_str(), "Fields")));
    push_code(out, " { path: <");
    push_gen(out, Gen::Sym(model.ident));
    push_code(out, " as _toasty::codegen_support::Embed>::path_root(), } } } ");
    assert(gens_view(out@) =~= start + embed_fields_fn_out(*model, syms@));
}


/// The `Embed` impl of an embedded struct: its id and its schema.
pub open spec fn embed_impl_out(m: Model, syms: Seq<String>) -> Seq<GenV> {
    c("impl _toasty::codegen_support::Embed for "@)
        + seq![GenV::Sym(m.ident)]
        + c(" { fn id() -> _toasty::codegen_support::core::schema::app::ModelId { static ID: std::sync::OnceLock<_toasty::codegen_support::core::schema::app::ModelId> \
            = std::sync::OnceLock::new(); *ID.get_or_init(|| _toasty::codegen_support::generate_unique_id()) \
            } fn schema() -> _toasty::codegen_support::core::schema::app::Model { let id = <"@)
        + seq![GenV::Sym(m.ident)]
        + c(" as _toasty::codegen_support::Embed>::id(); _toasty::codegen_support::core::schema::app::Model::EmbeddedStruct(_toasty::codegen_support::core::schema::app::EmbeddedStruct \
            { id, name: "@)
        + name_out(m.name.parts@.map_values(|p: String| p@))
        + c(", fields: "@)
        + model_fields_out(m, syms)
        + c(", indices: vec![ "@)
        + indices_out(m, syms, m.indices@.len() as int)
        + c(" ], }) } } "@)
}

pub fn push_embed_impl(out: &mut Vec<Gen>, model: &Model, syms: &Vec<String>)
    requires
        autos_registrable(model.view()),
        column_types_registrable(*model),
    ensures
        gens_view(final(out)@) == gens_view(old(out)@) + embed_impl_out(*model, syms@),
{
    let ghost start = gens_view(out@);

    push_code(out, "impl _toasty::codegen_support::Embed for ");
    push_gen(out, Gen::Sym(model.ident));
    push_code(out, " { fn id() -> _toasty::codegen_support::core::schema::app::ModelId { static ID: std::sync::OnceLock<_toasty::codegen_support::core::schema::app::ModelId> \
        = std::sync::OnceLock::new(); *ID.get_or_init(|| _toasty::codegen_support::generate_unique_id()) \
        } fn schema() -> _toasty::codegen_support::core::schema::app::Model { let id = <");
    push_gen(out, Gen::Sym(model.ident));
    push_code(out, " as _toasty::codegen_support::Embed>::id(); _toasty::codegen_support::core::schema::app::Model::EmbeddedStruct(_toasty::codegen_support::core::schema::app::EmbeddedStruct \
        { id, name: ");
    push_name(out, &model.name.parts);
    push_code(out, ", fields: ");
    append_gens(out, expand_model_fields(model, syms));
    push_code(out, ", indices: vec![ ");
    push_indices(out, model, syms);
    push_code(out, " ], }) } } ");
    assert(gens_view(out@) =~= start + embed_impl_out(*model, syms@));
}


/// The `Load` impl of an embedded struct: loading a record, and reloading it whole or in part.
pub open spec fn embed_load_impl_out(m: Model, syms: Seq<String>) -> Seq<GenV> {
    c("impl _toasty::codegen_support::Load for "@)
        + seq![GenV::Sym(m.ident)]
        + c(" { type Output = Self; fn ty() -> _toasty::codegen_support::core::stmt::Type { _toasty::codegen_support::core::stmt::Type::Model(<Self \
            as _toasty::codegen_support::Embed>::id()) } fn load(value: _toasty::codegen_support::core::stmt::Value) \
            -> _toasty::codegen_support::Result<Self> { match value { _toasty::codegen_support::core::stmt::Value::Null \
            => { Err(_toasty::codegen_support::Error::record_not_found(stringify!("@)
        + seq![GenV::Sym(m.ident)]
        + c("))) } _toasty::codegen_support::core::stmt::Value::Record(mut record) => { Ok("@)
        + seq![GenV::Sym(m.ident)]
        + (if fields_named(m.view()) { c(" { "@) } else { c("( "@) })
        + embed_items_out(m, syms, EmbedPiece::Load, m.fields@.len() as int)
        + (if fields_named(m.view()) { c("}"@) } else { c(")"@) })
        + c(") } value => Err(_toasty::codegen_support::Error::type_conversion(value, stringify!("@)
        + seq![GenV::Sym(m.ident)]
        + c("))), } } fn reload(target: &mut Self, value: _toasty::codegen_support::core::stmt::Value) \
            -> _toasty::codegen_support::Result<()> { match value { _toasty::codegen_support::core::stmt::Value::SparseRecord(sparse) \
            => { for (field, value) in sparse.into_iter() { match field { "@)
        + embed_items_out(m, syms, EmbedPiece::Reload, m.fields@.len() as int)
        + c("_ => panic!(\"not yet implemented: handle unknown field in embedded reload\"), } } Ok(()) \
            } _toasty::codegen_support::core::stmt::Value::Record(record) => { for (field, value) in \
            record.fields.into_iter().enumerate() { match field { "@)
        + embed_items_out(m, syms, EmbedPiece::Reload, m.fields@.len() as int)
        + c("_ => panic!(\"not yet implemented: handle unknown field in embedded reload\"), } } Ok(()) \
            } value => { *target = <Self as _toasty::codegen_support::Load>::load(value)?; Ok(()) } } \
            } } "@)
}

pub fn push_embed_load_impl(out: &mut Vec<Gen>, model: &Model, syms: &Vec<String>)
    ensures
        gens_view(final(out)@) == gens_view(old(out)@) + embed_load_impl_out(*model, syms@),
{
    let ghost start = gens_view(out@);
    let named = fields_named_exec(model);
    push_code(out, "impl _toasty::codegen_support::Load for ");
    push_gen(out, Gen::Sym(model.ident));
    push_code(out, " { type Output = Self; fn ty() -> _toasty::codegen_support::core::stmt::Type { _toasty::codegen_support::core::stmt::Type::Model(<Self \
        as _toasty::codegen_support::Embed>::id()) } fn load(value: _toasty::codegen_support::core::stmt::Value) \
        -> _toasty::codegen_support::Result<Self> { match value { _toasty::codegen_support::core::stmt::Value::Null \
        => { Err(_toasty::codegen_support::Error::record_not_found(stringify!(");
    push_gen(out, Gen::Sym(model.ident));
    push_code(out, "))) } _toasty::codegen_support::core::stmt::Value::Record(mut record) => { Ok(");
    push_gen(out, Gen::Sym(model.ident));
    if named { push_code(out, " { "); } else { push_code(out, "( "); }
    push_embed_items(out, model, syms, EmbedPiece::Load);
    if named { push_code(out, "}"); } else { push_code(out, ")"); }
    push_code(out, ") } value => Err(_toasty::codegen_support::Error::type_conversion(value, stringify!(");
    push_gen(out, Gen::Sym(model.ident));
    push_code(out, "))), } } fn reload(target: &mut Self, value: _toasty::codegen_support::core::stmt::Value) \
        -> _toasty::codegen_support::Result<()> { match value { _toasty::codegen_support::core::stmt::Value::SparseRecord(sparse) \
        => { for (field, value) in sparse.into_iter() { match field { ");
    push_embed_items(out, model, syms, EmbedPiece::Reload);
    push_code(out, "_ => panic!(\"not yet implemented: handle unknown field in embedded reload\"), } \
        } Ok(()) } _toasty::codegen_support::core::stmt::Value::Record(record) => { for (field, value) \
        in record.fields.into_iter().enumerate() { match field { ");
    push_embed_items(out, model, syms, EmbedPiece::Reload);
    push_code(out, "_ => panic!(\"not yet implemented: handle unknown field in embedded reload\"), } \
        } Ok(()) } value => { *target = <Self as _toasty::codegen_support::Load>::load(value)?; Ok(()) \
        } } } } ");
    assert(gens_view(out@) =~= start + embed_load_impl_out(*model, syms@));
}


/// The `Field` impl of an embedded struct: its paths, its update handle, its field type, and its registration.
pub open spec fn embed_field_impl_out(m: Model, syms: Seq<String>) -> Seq<GenV> {
    c("impl _toasty::codegen_support::Field for "@)
        + seq![GenV::Sym(m.ident)]
        + c(" { type ExprTarget = Self; type Path<__Origin> = "@)
        + seq![GenV::Text(sym_text(syms, m.ident as int) + "Fields"@)]
        + c("<__Origin>; type ListPath<__Origin> = "@)
        + seq![GenV::Text(sym_text(syms, m.ident as int) + "ListFields"@)]
        + c("<__Origin>; type Update<'a> = "@)
        + seq![GenV::Text(sym_text(syms, m.ident as int) + "Update"@)]
        + c("<'a>; type Inner = Self; fn new_path<__Origin>(path: _toasty::codegen_support::Path<__Origin, Self>) -> Self::Path<__Origin> { "@)
        + seq![GenV::Text(sym_text(syms, m.ident as int) + "Fields"@)]
        + c(" { path } } fn new_list_path<__Origin>(path: _toasty::codegen_support::Path<__Origin, _toasty::codegen_support::List<Self::ExprTarget>>) \
            -> Self::ListPath<__Origin> { "@)
        + seq![GenV::Text(sym_text(syms, m.ident as int) + "ListFields"@)]
        + c(" { path } } fn new_update<'a>(assignments: &'a mut _toasty::codegen_support::core::stmt::Assignments, \
            projection: _toasty::codegen_support::core::stmt::Projection,) -> Self::Update<'a> { "@)
        + seq![GenV::Text(sym_text(syms, m.ident as int) + "Update"@)]
        + c(" { assignments, projection } } fn field_ty(storage_ty: Option<_toasty::codegen_support::core::schema::db::Type>,) \
            -> _toasty::codegen_support::core::schema::app::FieldTy { _toasty::codegen_support::core::schema::app::FieldTy::Embedded(_toasty::codegen_support::core::schema::app::Embedded \
            { target: <Self as _toasty::codegen_support::Embed>::id(), expr_ty: <Self as _toasty::codegen_support::Load>::ty(), \
            storage_ty, }) } fn key_constraint<__Origin>(&self, target: _toasty::codegen_support::Path<__Origin, \
            Self::Inner>,) -> _toasty::codegen_support::stmt::Expr<bool> { target.eq(self) } fn register(model_set: \
            &mut _toasty::codegen_support::core::schema::app::ModelSet) { if model_set.contains(<Self \
            as _toasty::codegen_support::Embed>::id()) { return; } model_set.add(<Self as _toasty::codegen_support::Embed>::schema()); "@)
        + register_calls_out(m, syms, m.fields@.len() as int)
        + c("} } impl _toasty::codegen_support::Document for "@)
        + seq![GenV::Sym(m.ident)]
        + c(" {} "@)
}

pub fn push_embed_field_impl(out: &mut Vec<Gen>, model: &Model, syms: &Vec<String>)
    ensures
        gens_view(final(out)@) == gens_view(old(out)@) + embed_field_impl_out(*model, syms@),
{
    let ghost start = gens_view(out@);

    push_code(out, "impl _toasty::codegen_support::Field for ");
    push_gen(out, Gen::Sym(model.ident));
    push_code(out, " { type ExprTarget = Self; type Path<__Origin> = ");
    push_gen(out, Gen::Text(concat(sym_string(syms, model.ident).as_str(), "Fields")));
    push_code(out, "<__Origin>; type ListPath<__Origin> = ");
    push_gen(out, Gen::Text(concat(sym_string(syms, model.ident).as_str(), "ListFields")));
    push_code(out, "<__Origin>; type Update<'a> = ");
    push_gen(out, Gen::Text(concat(sym_string(syms, model.ident).as_str(), "Update")));
    push_code(out, "<'a>; type Inner = Self; fn new_path<__Origin>(path: _toasty::codegen_support::Path<__Origin, Self>) -> Self::Path<__Origin> { ");
    push_gen(out, Gen::Text(concat(sym_string(syms, model.ident).as_str(), "Fields")));
    push_code(out, " { path } } fn new_list_path<__Origin>(path: _toasty::codegen_support::Path<__Origin, \
        _toasty::codegen_support::List<Self::ExprTarget>>) -> Self::ListPath<__Origin> { ");
    push_gen(out, Gen::Text(concat(sym_string(syms, model.ident).as_str(), "ListFields")));
    push_code(out, " { path } } fn new_update<'a>(assignments: &'a mut _toasty::codegen_support::core::stmt::Assignments, \
        projection: _toasty::codegen_support::core::stmt::Projection,) -> Self::Update<'a> { ");
    push_gen(out, Gen::Text(concat(sym_string(syms, model.ident).as_str(), "Update")));
    push_code(out, " { assignments, projection } } fn field_ty(storage_ty: Option<_toasty::codegen_support::core::schema::db::Type>,) \
        -> _toasty::codegen_support::core::schema::app::FieldTy { _toasty::codegen_support::core::schema::app::FieldTy::Embedded(_toasty::codegen_support::core::schema::app::Embedded \
        { target: <Self as _toasty::codegen_support::Embed>::id(), expr_ty: <Self as _toasty::codegen_support::Load>::ty(), \
        storage_ty, }) } fn key_constraint<__Origin>(&self, target: _toasty::codegen_support::Path<__Origin, \
        Self::Inner>,) -> _toasty::codegen_support::stmt::Expr<bool> { target.eq(self) } fn register(model_set: \
        &mut _toasty::codegen_support::core::schema::app::ModelSet) { if model_set.contains(<Self as \
        _toasty::codegen_support::Embed>::id()) { return; } model_set.add(<Self as _toasty::codegen_support::Embed>::schema()); ");
    push_register_calls(out, model, syms);
    push_code(out, "} } impl _toasty::codegen_support::Document for ");
    push_gen(out, Gen::Sym(model.ident));
    push_code(out, " {} ");
    assert(gens_view(out@) =~= start + embed_field_impl_out(*model, syms@));
}


/// The embedded struct as an expression (the record of its fields) and as an assignment.
pub open spec fn embed_expr_impls_out(m: Model, syms: Seq<String>) -> Seq<GenV> {
    c("impl _toasty::codegen_support::stmt::IntoExpr<"@)
        + seq![GenV::Sym(m.ident)]
        + c("> for "@)
        + seq![GenV::Sym(m.ident)]
        + c(" { fn into_expr(self) -> _toasty::codegen_support::stmt::Expr<"@)
        + seq![GenV::Sym(m.ident)]
        + c("> { _toasty::codegen_support::stmt::Expr::from_untyped(_toasty::codegen_support::core::stmt::Expr::record([ "@)
        + embed_items_out(m, syms, EmbedPiece::ExprVal, m.fields@.len() as int)
        + c(" ])) } fn by_ref(&self) -> _toasty::codegen_support::stmt::Expr<"@)
        + seq![GenV::Sym(m.ident)]
        + c("> { _toasty::codegen_support::stmt::Expr::from_untyped(_toasty::codegen_support::core::stmt::Expr::record([ "@)
        + embed_items_out(m, syms, EmbedPiece::ExprRef, m.fields@.len() as int)
        + c(" ])) } } impl _toasty::codegen_support::Assign<"@)
        + seq![GenV::Sym(m.ident)]
        + c("> for "@)
        + seq![GenV::Sym(m.ident)]
        + c(" { fn into_assignment(self) -> _toasty::codegen_support::stmt::Assignment<"@)
        + seq![GenV::Sym(m.ident)]
        + c("> { _toasty::codegen_support::stmt::set(<Self as _toasty::codegen_support::IntoExpr<"@)
        + seq![GenV::Sym(m.ident)]
        + c(">>::into_expr(self)) } } "@)
}

pub fn push_embed_expr_impls(out: &mut Vec<Gen>, model: &Model, syms: &Vec<String>)
    ensures
        gens_view(final(out)@) == gens_view(old(out)@) + embed_expr_impls_out(*model, syms@),
{
    let ghost start = gens_view(out@);

    push_code(out, "impl _toasty::codegen_support::stmt::IntoExpr<");
    push_gen(out, Gen::Sym(model.ident));
    push_code(out, "> for ");
    push_gen(out, Gen::Sym(model.ident));
    push_code(out, " { fn into_expr(self) -> _toasty::codegen_support::stmt::Expr<");
    push_gen(out, Gen::Sym(model.ident));
    push_code(out, "> { _toasty::codegen_support::stmt::Expr::from_untyped(_toasty::codegen_support::core::stmt::Expr::record([ ");
    push_embed_items(out, model, syms, EmbedPiece::ExprVal);
    push_code(out, " ])) } fn by_ref(&self) -> _toasty::codegen_support::stmt::Expr<");
    push_gen(out, Gen::Sym(model.ident));
    push_code(out, "> { _toasty::codegen_support::stmt::Expr::from_untyped(_toasty::codegen_support::core::stmt::Expr::record([ ");
    push_embed_items(out, model, syms, EmbedPiece::ExprRef);
    push_code(out, " ])) } } impl _toasty::codegen_support::Assign<");
    push_gen(out, Gen::Sym(model.ident));
    push_code(out, "> for ");
    push_gen(out, Gen::Sym(model.ident));
    push_code(out, " { fn into_assignment(self) -> _toasty::codegen_support::stmt::Assignment<");
    push_gen(out, Gen::Sym(model.ident));
    push_code(out, "> { _toasty::codegen_support::stmt::set(<Self as _toasty::codegen_support::IntoExpr<");
    push_gen(out, Gen::Sym(model.ident));
    push_code(out, ">>::into_expr(self)) } } ");
    assert(gens_view(out@) =~= start + embed_expr_impls_out(*model, syms@));
}

/// A unit enum is one scalar discriminant: indexable, and an element of a list.
pub open spec fn unit_enum_impls_out(m: Model, syms: Seq<String>) -> Seq<GenV> {
    c("impl _toasty::codegen_support::index::IndexableField for "@)
        + seq![GenV::Sym(m.ident)]
        + c(" {} impl _toasty::codegen_support::Scalar for "@)
        + seq![GenV::Sym(m.ident)]
        + c(" {} "@)
}

pub fn push_unit_enum_impls(out: &mut Vec<Gen>, model: &Model, syms: &Vec<String>)
    ensures
        gens_view(final(out)@) == gens_view(old(out)@) + unit_enum_impls_out(*model, syms@),
{
    let ghost start = gens_view(out@);

    push_code(out, "impl _toasty::codegen_support::index::IndexableField for ");
    push_gen(out, Gen::Sym(model.ident));
    push_code(out, " {} impl _toasty::codegen_support::Scalar for ");
    push_gen(out, Gen::Sym(model.ident));
    push_code(out, " {} ");
    assert(gens_view(out@) =~= start + unit_enum_impls_out(*model, syms@));
}


/// The `Field` impl of an embedded enum, which has no update handle, and its assignment impl.
pub open spec fn enum_field_impl_out(m: Model, syms: Seq<String>) -> Seq<GenV> {
    c("impl _toasty::codegen_support::Field for "@)
        + seq![GenV::Sym(m.ident)]
        + c(" { type ExprTarget = Self; type Path<__Origin> = "@)
        + seq![GenV::Text(sym_text(syms, m.ident as int) + "Fields"@)]
        + c("<__Origin>; type ListPath<__Origin> = "@)
        + seq![GenV::Text(sym_text(syms, m.ident as int) + "ListFields"@)]
        + c("<__Origin>; type Update<'a> = (); type Inner = Self; fn new_path<__Origin>(path: _toasty::codegen_support::Path<__Origin, \
            Self>) -> Self::Path<__Origin> { "@)
        + seq![GenV::Text(sym_text(syms, m.ident as int) + "Fields"@)]
        + c(" { path } } fn new_list_path<__Origin>(path: _toasty::codegen_support::Path<__Origin, _toasty::codegen_support::List<Self::ExprTarget>>) \
            -> Self::ListPath<__Origin> { "@)
        + seq![GenV::Text(sym_text(syms, m.ident as int) + "ListFields"@)]
        + c(" { path } } fn new_update<'a>(_assignments: &'a mut _toasty::codegen_support::core::stmt::Assignments, \
            _projection: _toasty::codegen_support::core::stmt::Projection,) -> Self::Update<'a> {} fn \
            field_ty(storage_ty: Option<_toasty::codegen_support::core::schema::db::Type>,) -> _toasty::codegen_support::core::schema::app::FieldTy \
            { _toasty::codegen_support::core::schema::app::FieldTy::Embedded(_toasty::codegen_support::core::schema::app::Embedded \
            { target: <Self as _toasty::codegen_support::Embed>::id(), expr_ty: <Self as _toasty::codegen_support::Load>::ty(), \
            storage_ty, }) } fn key_constraint<__Origin>(&self, target: _toasty::codegen_support::Path<__Origin, \
            Self::Inner>,) -> _toasty::codegen_support::stmt::Expr<bool> { target.eq(self) } fn register(model_set: \
            &mut _toasty::codegen_support::core::schema::app::ModelSet) { if model_set.contains(<Self \
            as _toasty::codegen_support::Embed>::id()) { return; } model_set.add(<Self as _toasty::codegen_support::Embed>::schema()); "@)
        + register_calls_out(m, syms, m.fields@.len() as int)
        + c("} } impl _toasty::codegen_support::Assign<"@)
        + seq![GenV::Sym(m.ident)]
        + c("> for "@)
        + seq![GenV::Sym(m.ident)]
        + c(" { fn into_assignment(self) -> _toasty::codegen_support::stmt::Assignment<"@)
        + seq![GenV::Sym(m.ident)]
        + c("> { _toasty::codegen_support::stmt::set(<Self as _toasty::codegen_support::IntoExpr<"@)
        + seq![GenV::Sym(m.ident)]
        + c(">>::into_expr(self)) } } "@)
}

pub fn push_enum_field_impl(out: &mut Vec<Gen>, model: &Model, syms: &Vec<String>)
    ensures
        gens_view(final(out)@) == gens_view(old(out)@) + enum_field_impl_out(*model, syms@),
{
    let ghost start = gens_view(out@);

    push_code(out, "impl _toasty::codegen_support::Field for ");
    push_gen(out, Gen::Sym(model.ident));
    push_code(out, " { type ExprTarget = Self; type Path<__Origin> = ");
    push_gen(out, Gen::Text(concat(sym_string(syms, model.ident).as_str(), "Fields")));
    push_code(out, "<__Origin>; type ListPath<__Origin> = ");
    push_gen(out, Gen::Text(concat(sym_string(syms, model.ident).as_str(), "ListFields")));
    push_code(out, "<__Origin>; type Update<'a> = (); type Inner = Self; fn new_path<__Origin>(path: \
        _toasty::codegen_support::Path<__Origin, Self>) -> Self::Path<__Origin> { ");
    push_gen(out, Gen::Text(concat(sym_string(syms, model.ident).as_str(), "Fields")));
    push_code(out, " { path } } fn new_list_path<__Origin>(path: _toasty::codegen_support::Path<__Origin, \
        _toasty::codegen_support::List<Self::ExprTarget>>) -> Self::ListPath<__Origin> { ");
    push_gen(out, Gen::Text(concat(sym_string(syms, model.ident).as_str(), "ListFields")));
    push_code(out, " { path } } fn new_update<'a>(_assignments: &'a mut _toasty::codegen_support::core::stmt::Assignments, \
        _projection: _toasty::codegen_support::core::stmt::Projection,) -> Self::Update<'a> {} fn field_ty(storage_ty: \
        Option<_toasty::codegen_support::core::schema::db::Type>,) -> _toasty::codegen_support::core::schema::app::FieldTy \
        { _toasty::codegen_support::core::schema::app::FieldTy::Embedded(_toasty::codegen_support::core::schema::app::Embedded \
        { target: <Self as _toasty::codegen_support::Embed>::id(), expr_ty: <Self as _toasty::codegen_support::Load>::ty(), \
        storage_ty, }) } fn key_constraint<__Origin>(&self, target: _toasty::codegen_support::Path<__Origin, \
        Self::Inner>,) -> _toasty::codegen_support::stmt::Expr<bool> { target.eq(self) } fn register(model_set: \
        &mut _toasty::codegen_support::core::schema::app::ModelSet) { if model_set.contains(<Self as \
        _toasty::codegen_support::Embed>::id()) { return; } model_set.add(<Self as _toasty::codegen_support::Embed>::schema()); ");
    push_register_calls(out, model, syms);
    push_code(out, "} } impl _toasty::codegen_support::Assign<");
    push_gen(out, Gen::Sym(model.ident));
    push_code(out, "> for ");
    push_gen(out, Gen::Sym(model.ident));
    push_code(out, " { fn into_assignment(self) -> _toasty::codegen_support::stmt::Assignment<");
    push_gen(out, Gen::Sym(model.ident));
    push_code(out, "> { _toasty::codegen_support::stmt::set(<Self as _toasty::codegen_support::IntoExpr<");
    push_gen(out, Gen::Sym(model.ident));
    push_code(out, ">>::into_expr(self)) } } ");
    assert(gens_view(out@) =~= start + enum_field_impl_out(*model, syms@));
}


/// The code generated for an embedded enum: its list fields struct, the
/// compile-time obligations, the scalar impls of a unit enum, and its
/// `Field` and `Assign` impls.
#[verifier::opaque]
pub open spec fn embedded_enum_out(m: Model, syms: Seq<String>) -> Seq<GenV> {
    field_list_struct_out(m.view(), syms)
        + checks_of_model_out(m.view(), false)
        + (if m.fields@.len() == 0 { unit_enum_impls_out(m, syms) } else { Seq::empty() })
        + enum_field_impl_out(m, syms)
}

/// The code generated for an embedded enum (see `embedded_enum_out`).
pub fn expand_embedded_enum(model: &Model, syms: &Vec<String>) -> (r: Vec<Gen>)
    requires
        model.wf(),
        model.view().kind is EmbeddedEnum,
    ensures
        gens_view(r@) == embedded_enum_out(*model, syms@),
{
    proof {
        reveal(embedded_enum_out);
    }
    let mut out: Vec<Gen> = Vec::new();
    proof {
        crate::gen::lemma_gens_empty(out@);
    }
    append_gens(&mut out, expand_field_list_struct(model, syms));
    append_gens(&mut out, expand_checks(model, false));
    if model.fields.len() == 0 {
        push_unit_enum_impls(&mut out, model, syms);
    }
    push_enum_field_impl(&mut out, model, syms);
    assert(gens_view(out@) =~= embedded_enum_out(*model, syms@));
    out
}

} // verus!
