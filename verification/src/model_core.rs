//! The core of the code generated for a root model: the `Model` and
//! `Load` impls (the schema the model registers, the loading of a record),
//! its discovery registration, `delete`, and its create builder.
use vstd::prelude::*;

use crate::case::pluralizable;
use crate::create_meta::{create_meta_out, default_pair, expand_create_meta};
use crate::field_list::field_snake_at;
use crate::filters::{method_ident, method_ident_text};
use crate::gen::{c, field_ident_at, field_ident_at_exec, gens_view, push_code, push_gen, Gen, GenV};
use crate::model_expand::append_gens;
use crate::model_gen::{bool_out, column_types_registrable, expand_model_fields, model_fields_out, name_out, push_bool, push_name};
use crate::model_methods::{has_item_parent, has_item_parent_exec};
use crate::model_traits::{pk_exec, pk_of, pk_pieces_out, push_pk_pieces, PkPiece};
use crate::registration::{
    autos_registrable, create_default, create_defaults, create_defaults_from, holds_index, register_call, CreateDefault,
    RegisterCall,
};
use crate::schema::field::{field_name, FieldTy, FieldTyV};
use crate::schema::model::{table_name_of, Index, IndexField, IndexScope, IndexV, Model, ModelKind, ModelKindV, ModelV};
use crate::text::{concat, string_of};
use crate::tokens::{sym_string, sym_text};

verus! {

/// One arm of `field_name_to_id`: the field's name to its id.
pub open spec fn name_to_id_arm_out(m: Model, syms: Seq<String>, k: usize) -> Seq<GenV> {
    seq![GenV::Str(field_snake_at(syms, m.view().fields, k as int))]
        + c(" => _toasty::codegen_support::core::schema::app::FieldId { model: Self::id(), index: "@)
        + seq![GenV::Int(k)]
        + c(" }, "@)
}

pub fn push_name_to_id_arm(out: &mut Vec<Gen>, model: &Model, syms: &Vec<String>, k: usize)
    requires
        k < model.fields@.len(),
    ensures
        gens_view(final(out)@) == gens_view(old(out)@) + name_to_id_arm_out(*model, syms@, k),
{
    let ghost start = gens_view(out@);

    push_gen(out, Gen::Str(field_snake_string(model, syms, k)));
    push_code(out, " => _toasty::codegen_support::core::schema::app::FieldId { model: Self::id(), index: ");
    push_gen(out, Gen::Int(k));
    push_code(out, " }, ");
    assert(gens_view(out@) =~= start + name_to_id_arm_out(*model, syms@, k));
}


/// The loading of field `k` from a loaded record.
pub open spec fn load_field_out(m: Model, syms: Seq<String>, k: usize) -> Seq<GenV> {
    seq![GenV::Text(field_ident_at(syms, m.view().fields, k as int))]
        + c(": <"@)
        + seq![GenV::FieldTy(k)]
        + c(" as _toasty::codegen_support::Load>::load(record["@)
        + seq![GenV::Int(k)]
        + c("].take())?, "@)
}

pub fn push_load_field(out: &mut Vec<Gen>, model: &Model, syms: &Vec<String>, k: usize)
    ensures
        gens_view(final(out)@) == gens_view(old(out)@) + load_field_out(*model, syms@, k),
{
    let ghost start = gens_view(out@);

    push_gen(out, Gen::Text(field_ident_at_exec(model, syms, k)));
    push_code(out, ": <");
    push_gen(out, Gen::FieldTy(k));
    push_code(out, " as _toasty::codegen_support::Load>::load(record[");
    push_gen(out, Gen::Int(k));
    push_code(out, "].take())?, ");
    assert(gens_view(out@) =~= start + load_field_out(*model, syms@, k));
}


/// The create-builder setter of a plain field.
pub open spec fn setter_primitive_out(m: Model, syms: Seq<String>, k: usize) -> Seq<GenV> {
    c("pub fn "@)
        + seq![GenV::Text(field_ident_at(syms, m.view().fields, k as int))]
        + c("(mut self, "@)
        + seq![GenV::Text(field_ident_at(syms, m.view().fields, k as int))]
        + c(": impl IntoExpr<FieldExprTarget<"@)
        + seq![GenV::FieldTy(k)]
        + c(">>) -> Self { self.stmt.set("@)
        + seq![GenV::Int(k)]
        + c(", "@)
        + seq![GenV::Text(field_ident_at(syms, m.view().fields, k as int))]
        + c(".into_expr()); self } "@)
}

pub fn push_setter_primitive(out: &mut Vec<Gen>, model: &Model, syms: &Vec<String>, k: usize)
    ensures
        gens_view(final(out)@) == gens_view(old(out)@) + setter_primitive_out(*model, syms@, k),
{
    let ghost start = gens_view(out@);

    push_code(out, "pub fn ");
    push_gen(out, Gen::Text(field_ident_at_exec(model, syms, k)));
    push_code(out, "(mut self, ");
    push_gen(out, Gen::Text(field_ident_at_exec(model, syms, k)));
    push_code(out, ": impl IntoExpr<FieldExprTarget<");
    push_gen(out, Gen::FieldTy(k));
    push_code(out, ">>) -> Self { self.stmt.set(");
    push_gen(out, Gen::Int(k));
    push_code(out, ", ");
    push_gen(out, Gen::Text(field_ident_at_exec(model, syms, k)));
    push_code(out, ".into_expr()); self } ");
    assert(gens_view(out@) =~= start + setter_primitive_out(*model, syms@, k));
}


/// The create-builder setter of a `#[belongs_to]` field.
pub open spec fn setter_belongs_to_out(m: Model, syms: Seq<String>, k: usize) -> Seq<GenV> {
    c("pub fn "@)
        + seq![GenV::Text(field_ident_at(syms, m.view().fields, k as int))]
        + c("(mut self, "@)
        + seq![GenV::Text(field_ident_at(syms, m.view().fields, k as int))]
        + c(": impl _toasty::codegen_support::IntoExpr<<"@)
        + seq![GenV::FieldTy(k)]
        + c(" as _toasty::codegen_support::RelationOneField>::Target>) -> Self { if false { let m = <"@)
        + seq![GenV::Sym(m.ident)]
        + c(" as _toasty::codegen_support::Load>::load(Default::default()).unwrap(); let _ = &m."@)
        + seq![GenV::Text(field_ident_at(syms, m.view().fields, k as int))]
        + c("; } self.stmt.set("@)
        + seq![GenV::Int(k)]
        + c(", "@)
        + seq![GenV::Text(field_ident_at(syms, m.view().fields, k as int))]
        + c(".into_expr()); self } "@)
}

pub fn push_setter_belongs_to(out: &mut Vec<Gen>, model: &Model, syms: &Vec<String>, k: usize)
    ensures
        gens_view(final(out)@) == gens_view(old(out)@) + setter_belongs_to_out(*model, syms@, k),
{
    let ghost start = gens_view(out@);

    push_code(out, "pub fn ");
    push_gen(out, Gen::Text(field_ident_at_exec(model, syms, k)));
    push_code(out, "(mut self, ");
    push_gen(out, Gen::Text(field_ident_at_exec(model, syms, k)));
    push_code(out, ": impl _toasty::codegen_support::IntoExpr<<");
    push_gen(out, Gen::FieldTy(k));
    push_code(out, " as _toasty::codegen_support::RelationOneField>::Target>) -> Self { if false { let m = <");
    push_gen(out, Gen::Sym(model.ident));
    push_code(out, " as _toasty::codegen_support::Load>::load(Default::default()).unwrap(); let _ = &m.");
    push_gen(out, Gen::Text(field_ident_at_exec(model, syms, k)));
    push_code(out, "; } self.stmt.set(");
    push_gen(out, Gen::Int(k));
    push_code(out, ", ");
    push_gen(out, Gen::Text(field_ident_at_exec(model, syms, k)));
    push_code(out, ".into_expr()); self } ");
    assert(gens_view(out@) =~= start + setter_belongs_to_out(*model, syms@, k));
}


/// The create-builder setter of a `#[has_one]` field.
pub open spec fn setter_has_one_out(m: Model, syms: Seq<String>, k: usize) -> Seq<GenV> {
    c("pub fn "@)
        + seq![GenV::Text(field_ident_at(syms, m.view().fields, k as int))]
        + c("(mut self, "@)
        + seq![GenV::Text(field_ident_at(syms, m.view().fields, k as int))]
        + c(": impl _toasty::codegen_support::IntoExpr<<"@)
        + seq![GenV::FieldTy(k)]
        + c(" as _toasty::codegen_support::RelationOneField>::Target>) -> Self { self.stmt.set("@)
        + seq![GenV::Int(k)]
        + c(", "@)
        + seq![GenV::Text(field_ident_at(syms, m.view().fields, k as int))]
        + c(".into_expr()); self } "@)
}

pub fn push_setter_has_one(out: &mut Vec<Gen>, model: &Model, syms: &Vec<String>, k: usize)
    ensures
        gens_view(final(out)@) == gens_view(old(out)@) + setter_has_one_out(*model, syms@, k),
{
    let ghost start = gens_view(out@);

    push_code(out, "pub fn ");
    push_gen(out, Gen::Text(field_ident_at_exec(model, syms, k)));
    push_code(out, "(mut self, ");
    push_gen(out, Gen::Text(field_ident_at_exec(model, syms, k)));
    push_code(out, ": impl _toasty::codegen_support::IntoExpr<<");
    push_gen(out, Gen::FieldTy(k));
    push_code(out, " as _toasty::codegen_support::RelationOneField>::Target>) -> Self { self.stmt.set(");
    push_gen(out, Gen::Int(k));
    push_code(out, ", ");
    push_gen(out, Gen::Text(field_ident_at_exec(model, syms, k)));
    push_code(out, ".into_expr()); self } ");
    assert(gens_view(out@) =~= start + setter_has_one_out(*model, syms@, k));
}


/// The create-builder setter of a `#[has_many]` field.
pub open spec fn setter_has_many_out(m: Model, syms: Seq<String>, k: usize) -> Seq<GenV> {
    c("pub fn "@)
        + seq![GenV::Text(field_ident_at(syms, m.view().fields, k as int))]
        + c("(mut self, "@)
        + seq![GenV::Text(field_ident_at(syms, m.view().fields, k as int))]
        + c(": impl _toasty::codegen_support::IntoExpr<_toasty::codegen_support::List<<"@)
        + seq![GenV::FieldTy(k)]
        + c(" as _toasty::codegen_support::RelationManyField>::Target>>) -> Self { self.stmt.insert_all("@)
        + seq![GenV::Int(k)]
        + c(", "@)
        + seq![GenV::Text(field_ident_at(syms, m.view().fields, k as int))]
        + c(".into_expr()); self } "@)
}

pub fn push_setter_has_many(out: &mut Vec<Gen>, model: &Model, syms: &Vec<String>, k: usize)
    ensures
        gens_view(final(out)@) == gens_view(old(out)@) + setter_has_many_out(*model, syms@, k),
{
    let ghost start = gens_view(out@);

    push_code(out, "pub fn ");
    push_gen(out, Gen::Text(field_ident_at_exec(model, syms, k)));
    push_code(out, "(mut self, ");
    push_gen(out, Gen::Text(field_ident_at_exec(model, syms, k)));
    push_code(out, ": impl _toasty::codegen_support::IntoExpr<_toasty::codegen_support::List<<");
    push_gen(out, Gen::FieldTy(k));
    push_code(out, " as _toasty::codegen_support::RelationManyField>::Target>>) -> Self { self.stmt.insert_all(");
    push_gen(out, Gen::Int(k));
    push_code(out, ", ");
    push_gen(out, Gen::Text(field_ident_at_exec(model, syms, k)));
    push_code(out, ".into_expr()); self } ");
    assert(gens_view(out@) =~= start + setter_has_many_out(*model, syms@, k));
}


/// The create default of a field with `#[default]`.
pub open spec fn default_from_default_out(m: Model, syms: Seq<String>, k: usize) -> Seq<GenV> {
    c("s.stmt.set("@)
        + seq![GenV::Int(k)]
        + c(", <"@)
        + seq![GenV::FieldTy(k)]
        + c(" as _toasty::codegen_support::IntoExpr<<"@)
        + seq![GenV::FieldTy(k)]
        + c(" as _toasty::codegen_support::Field>::ExprTarget>>::into_expr("@)
        + seq![GenV::DefaultExpr(k)]
        + c(")); "@)
}

pub fn push_default_from_default(out: &mut Vec<Gen>, model: &Model, syms: &Vec<String>, k: usize)
    ensures
        gens_view(final(out)@) == gens_view(old(out)@) + default_from_default_out(*model, syms@, k),
{
    let ghost start = gens_view(out@);

    push_code(out, "s.stmt.set(");
    push_gen(out, Gen::Int(k));
    push_code(out, ", <");
    push_gen(out, Gen::FieldTy(k));
    push_code(out, " as _toasty::codegen_support::IntoExpr<<");
    push_gen(out, Gen::FieldTy(k));
    push_code(out, " as _toasty::codegen_support::Field>::ExprTarget>>::into_expr(");
    push_gen(out, Gen::DefaultExpr(k));
    push_code(out, ")); ");
    assert(gens_view(out@) =~= start + default_from_default_out(*model, syms@, k));
}


/// The create default of a field with `#[update]` and no `#[default]`.
pub open spec fn default_from_update_out(m: Model, syms: Seq<String>, k: usize) -> Seq<GenV> {
    c("s.stmt.set("@)
        + seq![GenV::Int(k)]
        + c(", <"@)
        + seq![GenV::FieldTy(k)]
        + c(" as _toasty::codegen_support::IntoExpr<<"@)
        + seq![GenV::FieldTy(k)]
        + c(" as _toasty::codegen_support::Field>::ExprTarget>>::into_expr("@)
        + seq![GenV::UpdateExpr(k)]
        + c(")); "@)
}

pub fn push_default_from_update(out: &mut Vec<Gen>, model: &Model, syms: &Vec<String>, k: usize)
    ensures
        gens_view(final(out)@) == gens_view(old(out)@) + default_from_update_out(*model, syms@, k),
{
    let ghost start = gens_view(out@);

    push_code(out, "s.stmt.set(");
    push_gen(out, Gen::Int(k));
    push_code(out, ", <");
    push_gen(out, Gen::FieldTy(k));
    push_code(out, " as _toasty::codegen_support::IntoExpr<<");
    push_gen(out, Gen::FieldTy(k));
    push_code(out, " as _toasty::codegen_support::Field>::ExprTarget>>::into_expr(");
    push_gen(out, Gen::UpdateExpr(k));
    push_code(out, ")); ");
    assert(gens_view(out@) =~= start + default_from_update_out(*model, syms@, k));
}


/// The registration call of a plain field.
pub open spec fn register_field_type_out(m: Model, syms: Seq<String>, k: usize) -> Seq<GenV> {
    c("<"@) + seq![GenV::FieldTy(k)] + c(" as _toasty::codegen_support::Field>::register(model_set); "@)
}

pub fn push_register_field_type(out: &mut Vec<Gen>, model: &Model, syms: &Vec<String>, k: usize)
    ensures
        gens_view(final(out)@) == gens_view(old(out)@) + register_field_type_out(*model, syms@, k),
{
    let ghost start = gens_view(out@);

    push_code(out, "<");
    push_gen(out, Gen::FieldTy(k));
    push_code(out, " as _toasty::codegen_support::Field>::register(model_set); ");
    assert(gens_view(out@) =~= start + register_field_type_out(*model, syms@, k));
}


/// The registration call of a single relation.
pub open spec fn register_one_target_out(m: Model, syms: Seq<String>, k: usize) -> Seq<GenV> {
    c("<<"@) + seq![GenV::FieldTy(k)] + c(" as _toasty::codegen_support::RelationOneField>::Target as _toasty::codegen_support::Model>::register(model_set); "@)
}

pub fn push_register_one_target(out: &mut Vec<Gen>, model: &Model, syms: &Vec<String>, k: usize)
    ensures
        gens_view(final(out)@) == gens_view(old(out)@) + register_one_target_out(*model, syms@, k),
{
    let ghost start = gens_view(out@);

    push_code(out, "<<");
    push_gen(out, Gen::FieldTy(k));
    push_code(out, " as _toasty::codegen_support::RelationOneField>::Target as _toasty::codegen_support::Model>::register(model_set); ");
    assert(gens_view(out@) =~= start + register_one_target_out(*model, syms@, k));
}


/// The registration call of a `#[has_many]` relation.
pub open spec fn register_many_target_out(m: Model, syms: Seq<String>, k: usize) -> Seq<GenV> {
    c("<<"@)
        + seq![GenV::FieldTy(k)]
        + c(" as _toasty::codegen_support::RelationManyField>::Target as _toasty::codegen_support::Model>::register(model_set); "@)
}

pub fn push_register_many_target(out: &mut Vec<Gen>, model: &Model, syms: &Vec<String>, k: usize)
    ensures
        gens_view(final(out)@) == gens_view(old(out)@) + register_many_target_out(*model, syms@, k),
{
    let ghost start = gens_view(out@);

    push_code(out, "<<");
    push_gen(out, Gen::FieldTy(k));
    push_code(out, " as _toasty::codegen_support::RelationManyField>::Target as _toasty::codegen_support::Model>::register(model_set); ");
    assert(gens_view(out@) =~= start + register_many_target_out(*model, syms@, k));
}


/// The `schema()` of a root model: its name, fields, primary key, table, indices and version field.
#[verifier::opaque]
pub open spec fn schema_fn_out(m: Model, syms: Seq<String>) -> Seq<GenV> {
    c("fn schema() -> _toasty::codegen_support::core::schema::app::Model { let id = <"@)
        + seq![GenV::Sym(m.ident)]
        + c(" as _toasty::codegen_support::Model>::id(); _toasty::codegen_support::core::schema::app::Model::Root(_toasty::codegen_support::core::schema::app::ModelRoot \
            { id, name: "@)
        + name_out(m.name.parts@.map_values(|p: String| p@))
        + c(", fields: "@)
        + model_fields_out(m, syms)
        + c(", primary_key: _toasty::codegen_support::core::schema::app::PrimaryKey { fields: vec![ "@)
        + pk_pieces_out(m.view(), syms, pk_of(m.view()), PkPiece::FieldId, pk_of(m.view()).len() as int)
        + c(" ], index: _toasty::codegen_support::core::schema::app::IndexId { model: id, index: 0, }, }, table_name: "@)
        + seq![GenV::Str(table_name_of(syms, m.table, m.name.snake_case@))]
        + c(".to_string(), indices: vec![ "@)
        + indices_out(m, syms, m.indices@.len() as int)
        + c(" ], version_field: "@)
        + version_field_out(m)
        + c(", }) } "@)
}

pub fn push_schema_fn(out: &mut Vec<Gen>, model: &Model, syms: &Vec<String>)
    requires
        autos_registrable(model.view()),
        column_types_registrable(*model),
        model.table is Some || pluralizable(model.name.snake_case@),
    ensures
        gens_view(final(out)@) == gens_view(old(out)@) + schema_fn_out(*model, syms@),
{
    proof {
        reveal(schema_fn_out);
    }
    let ghost start = gens_view(out@);
    let pk = pk_exec(model);
    push_code(out, "fn schema() -> _toasty::codegen_support::core::schema::app::Model { let id = <");
    push_gen(out, Gen::Sym(model.ident));
    push_code(out, " as _toasty::codegen_support::Model>::id(); _toasty::codegen_support::core::schema::app::Model::Root(_toasty::codegen_support::core::schema::app::ModelRoot \
        { id, name: ");
    push_name(out, &model.name.parts);
    push_code(out, ", fields: ");
    append_gens(out, expand_model_fields(model, syms));
    push_code(out, ", primary_key: _toasty::codegen_support::core::schema::app::PrimaryKey { fields: vec![ ");
    push_pk_pieces(out, model, syms, &pk, PkPiece::FieldId);
    push_code(out, " ], index: _toasty::codegen_support::core::schema::app::IndexId { model: id, index: 0, }, }, table_name: ");
    push_gen(out, Gen::Str(model.table_name(syms)));
    push_code(out, ".to_string(), indices: vec![ ");
    push_indices(out, model, syms);
    push_code(out, " ], version_field: ");
    push_version_field(out, model);
    push_code(out, ", }) } ");
    assert(gens_view(out@) =~= start + schema_fn_out(*model, syms@));
}


/// The `Model` impl of a root model.
pub open spec fn model_impl_out(m: Model, syms: Seq<String>) -> Seq<GenV> {
    c("impl _toasty::codegen_support::Model for "@)
        + seq![GenV::Sym(m.ident)]
        + c(" { type Query<T> = "@)
        + seq![GenV::Text(sym_text(syms, m.ident as int) + "Query"@)]
        + c("<T>; type Create = "@)
        + seq![GenV::Text(sym_text(syms, m.ident as int) + "Create"@)]
        + c("; type Update<'a> = "@)
        + seq![GenV::Text(sym_text(syms, m.ident as int) + "Update"@)]
        + c("<&'a mut Self>; type UpdateQuery = "@)
        + seq![GenV::Text(sym_text(syms, m.ident as int) + "Update"@)]
        + c("; type Path<__Origin> = "@)
        + seq![GenV::Text(sym_text(syms, m.ident as int) + "Fields"@)]
        + c("<__Origin>; type PrimaryKey = "@)
        + pk_ty_out(m, syms)
        + c("; type ManyField<__Origin> = "@)
        + seq![GenV::Text(sym_text(syms, m.ident as int) + "ListFields"@)]
        + c("<__Origin>; type OneField<__Origin> = "@)
        + seq![GenV::Text(sym_text(syms, m.ident as int) + "Fields"@)]
        + c("<__Origin>; "@)
        + create_meta_const_out(m, syms)
        + c("fn id() -> _toasty::codegen_support::core::schema::app::ModelId { static ID: std::sync::OnceLock<_toasty::codegen_support::core::schema::app::ModelId> \
            = std::sync::OnceLock::new(); *ID.get_or_init(|| _toasty::codegen_support::generate_unique_id()) \
            } "@)
        + schema_fn_out(m, syms)
        + c("fn register(model_set: &mut _toasty::codegen_support::core::schema::app::ModelSet) { if \
            model_set.contains(<Self as _toasty::codegen_support::Model>::id()) { return; } model_set.add(<Self \
            as _toasty::codegen_support::Model>::schema()); "@)
        + register_calls_out(m, syms, m.fields@.len() as int)
        + c("} fn new_path<__Origin>(path: _toasty::codegen_support::Path<__Origin, Self>) -> Self::Path<__Origin> { "@)
        + seq![GenV::Text(sym_text(syms, m.ident as int) + "Fields"@)]
        + c("::from_path(path) } fn new_many_field<__Origin>(path: _toasty::codegen_support::Path<__Origin, _toasty::codegen_support::List<Self>>,) -> "@)
        + seq![GenV::Text(sym_text(syms, m.ident as int) + "ListFields"@)]
        + c("<__Origin> { "@)
        + seq![GenV::Text(sym_text(syms, m.ident as int) + "ListFields"@)]
        + c("::from_path(path) } fn find_by_primary_key(id: _toasty::codegen_support::stmt::Expr<Self::PrimaryKey>,) \
            -> Self::Query<_toasty::codegen_support::List<Self>> { "@)
        + find_by_key_out(m, syms)
        + c(" } fn wrap_query<T>(stmt: _toasty::codegen_support::stmt::Query<T>,) -> Self::Query<T> { "@)
        + seq![GenV::Text(sym_text(syms, m.ident as int) + "Query"@)]
        + c("::from_stmt(stmt) } fn query_one(query: Self::Query<_toasty::codegen_support::List<Self>>,) \
            -> Self::Query<Self> { query.one() } fn query_first(query: Self::Query<_toasty::codegen_support::List<Self>>,) \
            -> Self::Query<_toasty::codegen_support::Option<Self>> { query.first() } fn field_name_to_id(name: \
            &str) -> _toasty::codegen_support::core::schema::app::FieldId { use _toasty::codegen_support::Model; \
            match name { "@)
        + name_to_id_arms_out(m, syms, m.fields@.len() as int)
        + c("_ => panic!(\"not yet implemented: field_name_to_id: {}\", name), } } } "@)
}

#[verifier::rlimit(100)]
#[verifier::spinoff_prover]
pub fn push_model_impl(out: &mut Vec<Gen>, model: &Model, syms: &Vec<String>)
    requires
        model.wf(),
        autos_registrable(model.view()),
        column_types_registrable(*model),
        model.table is Some || pluralizable(model.name.snake_case@),
    ensures
        gens_view(final(out)@) == gens_view(old(out)@) + model_impl_out(*model, syms@),
{
    let ghost start = gens_view(out@);

    push_code(out, "impl _toasty::codegen_support::Model for ");
    push_gen(out, Gen::Sym(model.ident));
    push_code(out, " { type Query<T> = ");
    push_gen(out, Gen::Text(concat(sym_string(syms, model.ident).as_str(), "Query")));
    push_code(out, "<T>; type Create = ");
    push_gen(out, Gen::Text(concat(sym_string(syms, model.ident).as_str(), "Create")));
    push_code(out, "; type Update<'a> = ");
    push_gen(out, Gen::Text(concat(sym_string(syms, model.ident).as_str(), "Update")));
    push_code(out, "<&'a mut Self>; type UpdateQuery = ");
    push_gen(out, Gen::Text(concat(sym_string(syms, model.ident).as_str(), "Update")));
    push_code(out, "; type Path<__Origin> = ");
    push_gen(out, Gen::Text(concat(sym_string(syms, model.ident).as_str(), "Fields")));
    push_code(out, "<__Origin>; type PrimaryKey = ");
    push_pk_ty(out, model, syms);
    push_code(out, "; type ManyField<__Origin> = ");
    push_gen(out, Gen::Text(concat(sym_string(syms, model.ident).as_str(), "ListFields")));
    push_code(out, "<__Origin>; type OneField<__Origin> = ");
    push_gen(out, Gen::Text(concat(sym_string(syms, model.ident).as_str(), "Fields")));
    push_code(out, "<__Origin>; ");
    push_create_meta_const(out, model, syms);
    push_code(out, "fn id() -> _toasty::codegen_support::core::schema::app::ModelId { static ID: std::sync::OnceLock<_toasty::codegen_support::core::schema::app::ModelId> \
        = std::sync::OnceLock::new(); *ID.get_or_init(|| _toasty::codegen_support::generate_unique_id()) \
        } ");
    push_schema_fn(out, model, syms);
    push_code(out, "fn register(model_set: &mut _toasty::codegen_support::core::schema::app::ModelSet) \
        { if model_set.contains(<Self as _toasty::codegen_support::Model>::id()) { return; } model_set.add(<Self \
        as _toasty::codegen_support::Model>::schema()); ");
    push_register_calls(out, model, syms);
    push_code(out, "} fn new_path<__Origin>(path: _toasty::codegen_support::Path<__Origin, Self>) -> Self::Path<__Origin> { ");
    push_gen(out, Gen::Text(concat(sym_string(syms, model.ident).as_str(), "Fields")));
    push_code(out, "::from_path(path) } fn new_many_field<__Origin>(path: _toasty::codegen_support::Path<__Origin, \
        _toasty::codegen_support::List<Self>>,) -> ");
    push_gen(out, Gen::Text(concat(sym_string(syms, model.ident).as_str(), "ListFields")));
    push_code(out, "<__Origin> { ");
    push_gen(out, Gen::Text(concat(sym_string(syms, model.ident).as_str(), "ListFields")));
    push_code(out, "::from_path(path) } fn find_by_primary_key(id: _toasty::codegen_support::stmt::Expr<Self::PrimaryKey>,) \
        -> Self::Query<_toasty::codegen_support::List<Self>> { ");
    push_find_by_key(out, model, syms);
    push_code(out, " } fn wrap_query<T>(stmt: _toasty::codegen_support::stmt::Query<T>,) -> Self::Query<T> { ");
    push_gen(out, Gen::Text(concat(sym_string(syms, model.ident).as_str(), "Query")));
    push_code(out, "::from_stmt(stmt) } fn query_one(query: Self::Query<_toasty::codegen_support::List<Self>>,) \
        -> Self::Query<Self> { query.one() } fn query_first(query: Self::Query<_toasty::codegen_support::List<Self>>,) \
        -> Self::Query<_toasty::codegen_support::Option<Self>> { query.first() } fn field_name_to_id(name: \
        &str) -> _toasty::codegen_support::core::schema::app::FieldId { use _toasty::codegen_support::Model; \
        match name { ");
    push_name_to_id_arms(out, model, syms);
    push_code(out, "_ => panic!(\"not yet implemented: field_name_to_id: {}\", name), } } } ");
    assert(gens_view(out@) =~= start + model_impl_out(*model, syms@));
}


/// The `Load` impl of a root model: a loaded record becomes the model, field by field.
pub open spec fn load_impl_out(m: Model, syms: Seq<String>) -> Seq<GenV> {
    c("impl _toasty::codegen_support::Load for "@)
        + seq![GenV::Sym(m.ident)]
        + c(" { type Output = Self; fn ty() -> _toasty::codegen_support::core::stmt::Type { _toasty::codegen_support::core::stmt::Type::Model(<Self \
            as _toasty::codegen_support::Model>::id()) } fn load(value: _toasty::codegen_support::core::stmt::Value) \
            -> _toasty::codegen_support::Result<Self> { match value { _toasty::codegen_support::core::stmt::Value::Null \
            => { Err(_toasty::codegen_support::Error::record_not_found(stringify!("@)
        + seq![GenV::Sym(m.ident)]
        + c("))) } _toasty::codegen_support::core::stmt::Value::Record(mut record) => { Ok("@)
        + seq![GenV::Sym(m.ident)]
        + c(" { "@)
        + load_fields_out(m, syms, m.fields@.len() as int)
        + c("}) } value => Err(_toasty::codegen_support::Error::type_conversion(value, stringify!("@)
        + seq![GenV::Sym(m.ident)]
        + c("))), } } } "@)
}

pub fn push_load_impl(out: &mut Vec<Gen>, model: &Model, syms: &Vec<String>)
    ensures
        gens_view(final(out)@) == gens_view(old(out)@) + load_impl_out(*model, syms@),
{
    let ghost start = gens_view(out@);

    push_code(out, "impl _toasty::codegen_support::Load for ");
    push_gen(out, Gen::Sym(model.ident));
    push_code(out, " { type Output = Self; fn ty() -> _toasty::codegen_support::core::stmt::Type { _toasty::codegen_support::core::stmt::Type::Model(<Self \
        as _toasty::codegen_support::Model>::id()) } fn load(value: _toasty::codegen_support::core::stmt::Value) \
        -> _toasty::codegen_support::Result<Self> { match value { _toasty::codegen_support::core::stmt::Value::Null \
        => { Err(_toasty::codegen_support::Error::record_not_found(stringify!(");
    push_gen(out, Gen::Sym(model.ident));
    push_code(out, "))) } _toasty::codegen_support::core::stmt::Value::Record(mut record) => { Ok(");
    push_gen(out, Gen::Sym(model.ident));
    push_code(out, " { ");
    push_load_fields(out, model, syms);
    push_code(out, "}) } value => Err(_toasty::codegen_support::Error::type_conversion(value, stringify!(");
    push_gen(out, Gen::Sym(model.ident));
    push_code(out, "))), } } } ");
    assert(gens_view(out@) =~= start + load_impl_out(*model, syms@));
}


/// The registration of a root model for discovery at start-up.
pub open spec fn discover_out(m: Model, syms: Seq<String>) -> Seq<GenV> {
    c("_toasty::codegen_support::inventory::submit! { _toasty::codegen_support::DiscoverItem::new(env!(\"CARGO_PKG_NAME\"), |model_set| { <"@)
        + seq![GenV::Sym(m.ident)]
        + c(" as _toasty::codegen_support::Model>::register(model_set); },) } "@)
}

pub fn push_discover(out: &mut Vec<Gen>, model: &Model, syms: &Vec<String>)
    ensures
        gens_view(final(out)@) == gens_view(old(out)@) + discover_out(*model, syms@),
{
    let ghost start = gens_view(out@);

    push_code(out, "_toasty::codegen_support::inventory::submit! { _toasty::codegen_support::DiscoverItem::new(env!(\"CARGO_PKG_NAME\"), |model_set| { <");
    push_gen(out, Gen::Sym(model.ident));
    push_code(out, " as _toasty::codegen_support::Model>::register(model_set); },) } ");
    assert(gens_view(out@) =~= start + discover_out(*model, syms@));
}


/// `delete(self)`: the statement deleting the record by its key, conditioned on its version when the model has one.
pub open spec fn delete_impl_out(m: Model, syms: Seq<String>) -> Seq<GenV> {
    c("impl "@)
        + seq![GenV::Sym(m.ident)]
        + c(" { pub fn delete(self) -> _toasty::codegen_support::stmt::Delete<()> { { let __delete = "@)
        + seq![GenV::Text(sym_text(syms, m.ident as int) + "Query"@)]
        + c("::default()."@)
        + seq![GenV::Text(method_ident_text(syms, m.view().fields, pk_of(m.view()), "filter"@))]
        + c("("@)
        + pk_pieces_out(m.view(), syms, pk_of(m.view()), PkPiece::Ref, pk_of(m.view()).len() as int)
        + c(").delete(); "@)
        + version_condition_out(m, syms)
        + c(" } } } "@)
}

pub fn push_delete_impl(out: &mut Vec<Gen>, model: &Model, syms: &Vec<String>)
    requires
        model.wf(),
    ensures
        gens_view(final(out)@) == gens_view(old(out)@) + delete_impl_out(*model, syms@),
{
    let ghost start = gens_view(out@);
    let pk = pk_exec(model);
    push_code(out, "impl ");
    push_gen(out, Gen::Sym(model.ident));
    push_code(out, " { pub fn delete(self) -> _toasty::codegen_support::stmt::Delete<()> { { let __delete = ");
    push_gen(out, Gen::Text(concat(sym_string(syms, model.ident).as_str(), "Query")));
    push_code(out, "::default().");
    push_gen(out, Gen::Text(method_ident(model, syms, &pk, "filter")));
    push_code(out, "(");
    push_pk_pieces(out, model, syms, &pk, PkPiece::Ref);
    push_code(out, ").delete(); ");
    push_version_condition(out, model, syms);
    push_code(out, " } } } ");
    assert(gens_view(out@) =~= start + delete_impl_out(*model, syms@));
}


/// The create builder of a root model: a setter per settable field, the `#[default]` / `#[update]` values set up front, and its conversions into a statement, an expression and an assignment.
pub open spec fn create_builder_out(m: Model, syms: Seq<String>) -> Seq<GenV> {
    c("#[derive(Clone)] pub struct "@)
        + seq![GenV::Text(sym_text(syms, m.ident as int) + "Create"@)]
        + c(" { stmt: _toasty::codegen_support::stmt::Insert<"@)
        + seq![GenV::Sym(m.ident)]
        + c(">, } impl "@)
        + seq![GenV::Text(sym_text(syms, m.ident as int) + "Create"@)]
        + c(" { "@)
        + setters_out(m, syms, create_setters_from(m.view(), m.fields@.len() as int))
        + c("pub async fn exec(self, executor: &mut dyn _toasty::codegen_support::Executor) -> _toasty::codegen_support::Result<"@)
        + seq![GenV::Sym(m.ident)]
        + c("> { executor.exec(self.stmt.into()).await } } impl _toasty::codegen_support::IntoInsert for "@)
        + seq![GenV::Text(sym_text(syms, m.ident as int) + "Create"@)]
        + c(" { type Model = "@)
        + seq![GenV::Sym(m.ident)]
        + c("; fn into_insert(self) -> _toasty::codegen_support::stmt::Insert<"@)
        + seq![GenV::Sym(m.ident)]
        + c("> { self.stmt } } impl _toasty::codegen_support::IntoStatement for "@)
        + seq![GenV::Text(sym_text(syms, m.ident as int) + "Create"@)]
        + c(" { type Returning = "@)
        + seq![GenV::Sym(m.ident)]
        + c("; fn into_statement(self) -> _toasty::codegen_support::Statement<"@)
        + seq![GenV::Sym(m.ident)]
        + c("> { self.stmt.into() } } impl _toasty::codegen_support::IntoExpr<"@)
        + seq![GenV::Sym(m.ident)]
        + c("> for "@)
        + seq![GenV::Text(sym_text(syms, m.ident as int) + "Create"@)]
        + c(" { fn into_expr(self) -> _toasty::codegen_support::stmt::Expr<"@)
        + seq![GenV::Sym(m.ident)]
        + c("> { self.stmt.into() } fn by_ref(&self) -> _toasty::codegen_support::stmt::Expr<"@)
        + seq![GenV::Sym(m.ident)]
        + c("> { panic!(\"not yet implemented\") } } impl _toasty::codegen_support::Assign<"@)
        + seq![GenV::Sym(m.ident)]
        + c("> for "@)
        + seq![GenV::Text(sym_text(syms, m.ident as int) + "Create"@)]
        + c(" { fn into_assignment(self) -> _toasty::codegen_support::stmt::Assignment<"@)
        + seq![GenV::Sym(m.ident)]
        + c("> { _toasty::codegen_support::stmt::set(<Self as _toasty::codegen_support::IntoExpr<"@)
        + seq![GenV::Sym(m.ident)]
        + c(">>::into_expr(self)) } } impl _toasty::codegen_support::IntoExpr<_toasty::codegen_support::Option<"@)
        + seq![GenV::Sym(m.ident)]
        + c(">> for "@)
        + seq![GenV::Text(sym_text(syms, m.ident as int) + "Create"@)]
        + c(" { fn into_expr(self) -> _toasty::codegen_support::stmt::Expr<_toasty::codegen_support::Option<"@)
        + seq![GenV::Sym(m.ident)]
        + c(">> { <Self as _toasty::codegen_support::IntoExpr<"@)
        + seq![GenV::Sym(m.ident)]
        + c(">>::into_expr(self).some() } fn by_ref(&self) -> _toasty::codegen_support::stmt::Expr<_toasty::codegen_support::Option<"@)
        + seq![GenV::Sym(m.ident)]
        + c(">> { <Self as _toasty::codegen_support::IntoExpr<"@)
        + seq![GenV::Sym(m.ident)]
        + c(">>::by_ref(self).some() } } impl _toasty::codegen_support::Assign<_toasty::codegen_support::Option<"@)
        + seq![GenV::Sym(m.ident)]
        + c(">> for "@)
        + seq![GenV::Text(sym_text(syms, m.ident as int) + "Create"@)]
        + c(" { fn into_assignment(self) -> _toasty::codegen_support::stmt::Assignment<_toasty::codegen_support::Option<"@)
        + seq![GenV::Sym(m.ident)]
        + c(">> { _toasty::codegen_support::stmt::set(<Self as _toasty::codegen_support::IntoExpr<_toasty::codegen_support::Option<"@)
        + seq![GenV::Sym(m.ident)]
        + c(">>>::into_expr(self)) } } impl Default for "@)
        + seq![GenV::Text(sym_text(syms, m.ident as int) + "Create"@)]
        + c(" { fn default() -> "@)
        + seq![GenV::Text(sym_text(syms, m.ident as int) + "Create"@)]
        + c(" { let mut s = "@)
        + seq![GenV::Text(sym_text(syms, m.ident as int) + "Create"@)]
        + c(" { stmt: _toasty::codegen_support::stmt::Insert::blank_single(), }; "@)
        + create_defaults_out(m, syms, create_defaults_from(m.view().fields, m.fields@.len() as int))
        + c("s } } "@)
}

#[verifier::rlimit(100)]
#[verifier::spinoff_prover]
pub fn push_create_builder(out: &mut Vec<Gen>, model: &Model, syms: &Vec<String>)
    requires
        model.wf(),
    ensures
        gens_view(final(out)@) == gens_view(old(out)@) + create_builder_out(*model, syms@),
{
    let ghost start = gens_view(out@);

    push_code(out, "#[derive(Clone)] pub struct ");
    push_gen(out, Gen::Text(concat(sym_string(syms, model.ident).as_str(), "Create")));
    push_code(out, " { stmt: _toasty::codegen_support::stmt::Insert<");
    push_gen(out, Gen::Sym(model.ident));
    push_code(out, ">, } impl ");
    push_gen(out, Gen::Text(concat(sym_string(syms, model.ident).as_str(), "Create")));
    push_code(out, " { ");
    push_setters(out, model, syms, &create_setters(model));
    push_code(out, "pub async fn exec(self, executor: &mut dyn _toasty::codegen_support::Executor) -> _toasty::codegen_support::Result<");
    push_gen(out, Gen::Sym(model.ident));
    push_code(out, "> { executor.exec(self.stmt.into()).await } } impl _toasty::codegen_support::IntoInsert for ");
    push_gen(out, Gen::Text(concat(sym_string(syms, model.ident).as_str(), "Create")));
    push_code(out, " { type Model = ");
    push_gen(out, Gen::Sym(model.ident));
    push_code(out, "; fn into_insert(self) -> _toasty::codegen_support::stmt::Insert<");
    push_gen(out, Gen::Sym(model.ident));
    push_code(out, "> { self.stmt } } impl _toasty::codegen_support::IntoStatement for ");
    push_gen(out, Gen::Text(concat(sym_string(syms, model.ident).as_str(), "Create")));
    push_code(out, " { type Returning = ");
    push_gen(out, Gen::Sym(model.ident));
    push_code(out, "; fn into_statement(self) -> _toasty::codegen_support::Statement<");
    push_gen(out, Gen::Sym(model.ident));
    push_code(out, "> { self.stmt.into() } } impl _toasty::codegen_support::IntoExpr<");
    push_gen(out, Gen::Sym(model.ident));
    push_code(out, "> for ");
    push_gen(out, Gen::Text(concat(sym_string(syms, model.ident).as_str(), "Create")));
    push_code(out, " { fn into_expr(self) -> _toasty::codegen_support::stmt::Expr<");
    push_gen(out, Gen::Sym(model.ident));
    push_code(out, "> { self.stmt.into() } fn by_ref(&self) -> _toasty::codegen_support::stmt::Expr<");
    push_gen(out, Gen::Sym(model.ident));
    push_code(out, "> { panic!(\"not yet implemented\") } } impl _toasty::codegen_support::Assign<");
    push_gen(out, Gen::Sym(model.ident));
    push_code(out, "> for ");
    push_gen(out, Gen::Text(concat(sym_string(syms, model.ident).as_str(), "Create")));
    push_code(out, " { fn into_assignment(self) -> _toasty::codegen_support::stmt::Assignment<");
    push_gen(out, Gen::Sym(model.ident));
    push_code(out, "> { _toasty::codegen_support::stmt::set(<Self as _toasty::codegen_support::IntoExpr<");
    push_gen(out, Gen::Sym(model.ident));
    push_code(out, ">>::into_expr(self)) } } impl _toasty::codegen_support::IntoExpr<_toasty::codegen_support::Option<");
    push_gen(out, Gen::Sym(model.ident));
    push_code(out, ">> for ");
    push_gen(out, Gen::Text(concat(sym_string(syms, model.ident).as_str(), "Create")));
    push_code(out, " { fn into_expr(self) -> _toasty::codegen_support::stmt::Expr<_toasty::codegen_support::Option<");
    push_gen(out, Gen::Sym(model.ident));
    push_code(out, ">> { <Self as _toasty::codegen_support::IntoExpr<");
    push_gen(out, Gen::Sym(model.ident));
    push_code(out, ">>::into_expr(self).some() } fn by_ref(&self) -> _toasty::codegen_support::stmt::Expr<_toasty::codegen_support::Option<");
    push_gen(out, Gen::Sym(model.ident));
    push_code(out, ">> { <Self as _toasty::codegen_support::IntoExpr<");
    push_gen(out, Gen::Sym(model.ident));
    push_code(out, ">>::by_ref(self).some() } } impl _toasty::codegen_support::Assign<_toasty::codegen_support::Option<");
    push_gen(out, Gen::Sym(model.ident));
    push_code(out, ">> for ");
    push_gen(out, Gen::Text(concat(sym_string(syms, model.ident).as_str(), "Create")));
    push_code(out, " { fn into_assignment(self) -> _toasty::codegen_support::stmt::Assignment<_toasty::codegen_support::Option<");
    push_gen(out, Gen::Sym(model.ident));
    push_code(out, ">> { _toasty::codegen_support::stmt::set(<Self as _toasty::codegen_support::IntoExpr<_toasty::codegen_support::Option<");
    push_gen(out, Gen::Sym(model.ident));
    push_code(out, ">>>::into_expr(self)) } } impl Default for ");
    push_gen(out, Gen::Text(concat(sym_string(syms, model.ident).as_str(), "Create")));
    push_code(out, " { fn default() -> ");
    push_gen(out, Gen::Text(concat(sym_string(syms, model.ident).as_str(), "Create")));
    push_code(out, " { let mut s = ");
    push_gen(out, Gen::Text(concat(sym_string(syms, model.ident).as_str(), "Create")));
    push_code(out, " { stmt: _toasty::codegen_support::stmt::Insert::blank_single(), }; ");
    push_create_defaults(out, model, syms, &create_defaults(model));
    push_code(out, "s } } ");
    assert(gens_view(out@) =~= start + create_builder_out(*model, syms@));
}

/// The creation metadata of a root model, as a constant of its `Model`
/// impl.
#[verifier::opaque]
pub open spec fn create_meta_const_out(m: Model, syms: Seq<String>) -> Seq<GenV> {
    c("const CREATE_META: _toasty::codegen_support::CreateMeta = "@) + create_meta_out(m.view(), syms, default_pair(&m)) + c("; "@)
}

pub fn push_create_meta_const(out: &mut Vec<Gen>, model: &Model, syms: &Vec<String>)
    ensures
        gens_view(final(out)@) == gens_view(old(out)@) + create_meta_const_out(*model, syms@),
{
    proof {
        reveal(create_meta_const_out);
    }
    let ghost start = gens_view(out@);
    push_code(out, "const CREATE_META: _toasty::codegen_support::CreateMeta = ");
    append_gens(out, expand_create_meta(model, syms));
    push_code(out, "; ");
    assert(gens_view(out@) =~= start + create_meta_const_out(*model, syms@));
}

/// The snake-case name of the field at `k`, as a new string.
fn field_snake_string(model: &Model, syms: &Vec<String>, k: usize) -> (r: String)
    requires
        k < model.fields@.len(),
    ensures
        r@ == field_snake_at(syms@, model.view().fields, k as int),
{
    assert(model.view().fields[k as int] == model.fields@[k as int].view());
    let n = field_name(syms, model.fields[k].name);
    string_of(n.as_str())
}

/// The `PrimaryKey` type: the key field's type, or a tuple of them.
#[verifier::opaque]
pub open spec fn pk_ty_out(m: Model, syms: Seq<String>) -> Seq<GenV> {
    let pk = pk_of(m.view());
    if pk.len() == 1 {
        seq![GenV::FieldTy(pk[0])]
    } else {
        c("( "@) + pk_pieces_out(m.view(), syms, pk, PkPiece::Ty, pk.len() as int) + c(" )"@)
    }
}

pub fn push_pk_ty(out: &mut Vec<Gen>, model: &Model, syms: &Vec<String>)
    ensures
        gens_view(final(out)@) == gens_view(old(out)@) + pk_ty_out(*model, syms@),
{
    proof {
        reveal(pk_ty_out);
    }
    let ghost start = gens_view(out@);
    let pk = pk_exec(model);
    if pk.len() == 1 {
        push_gen(out, Gen::FieldTy(pk[0]));
    } else {
        push_code(out, "( ");
        push_pk_pieces(out, model, syms, &pk, PkPiece::Ty);
        push_code(out, " )");
    }
    assert(gens_view(out@) =~= start + pk_ty_out(*model, syms@));
}

/// The body of `find_by_primary_key`: the key filter for a single-field
/// key; for a composite key, the record of the key fields compared with
/// the given key.
#[verifier::opaque]
pub open spec fn find_by_key_out(m: Model, syms: Seq<String>) -> Seq<GenV> {
    let pk = pk_of(m.view());
    if pk.len() == 1 {
        c("Self::"@) + seq![GenV::Text(method_ident_text(syms, m.view().fields, pk, "filter"@))] + c("(id)"@)
    } else {
        c("let pk_expr: _toasty::codegen_support::stmt::Expr<Self::PrimaryKey> = _toasty::codegen_support::IntoExpr::into_expr(( "@)
            + pk_pieces_out(m.view(), syms, pk, PkPiece::FieldsCall, pk.len() as int)
            + c(" )); Self::filter(pk_expr.eq(id))"@)
    }
}

pub fn push_find_by_key(out: &mut Vec<Gen>, model: &Model, syms: &Vec<String>)
    requires
        model.wf(),
    ensures
        gens_view(final(out)@) == gens_view(old(out)@) + find_by_key_out(*model, syms@),
{
    proof {
        reveal(find_by_key_out);
    }
    let ghost start = gens_view(out@);
    let pk = pk_exec(model);
    if pk.len() == 1 {
        push_code(out, "Self::");
        push_gen(out, Gen::Text(method_ident(model, syms, &pk, "filter")));
        push_code(out, "(id)");
    } else {
        push_code(out, "let pk_expr: _toasty::codegen_support::stmt::Expr<Self::PrimaryKey> = _toasty::codegen_support::IntoExpr::into_expr(( ");
        push_pk_pieces(out, model, syms, &pk, PkPiece::FieldsCall);
        push_code(out, " )); Self::filter(pk_expr.eq(id))");
    }
    assert(gens_view(out@) =~= start + find_by_key_out(*model, syms@));
}

/// A field of an index in the schema.
pub open spec fn index_field_out(f: IndexField) -> Seq<GenV> {
    c("_toasty::codegen_support::core::schema::app::IndexField { field: _toasty::codegen_support::core::schema::app::FieldId { model: id, index: "@)
        + seq![GenV::Int(f.field)]
        + c(", }, op: _toasty::codegen_support::core::schema::db::IndexOp::Eq, scope: "@)
        + (match f.scope {
            IndexScope::Partition => c("_toasty::codegen_support::core::schema::db::IndexScope::Partition"@),
            IndexScope::Local => c("_toasty::codegen_support::core::schema::db::IndexScope::Local"@),
        })
        + c(", }"@)
}

pub open spec fn index_fields_out(fs: Seq<IndexField>, n: int) -> Seq<GenV>
    decreases n,
{
    if n <= 0 {
        Seq::empty()
    } else {
        index_fields_out(fs, n - 1) + (if n > 1 { c(", "@) } else { Seq::empty() }) + index_field_out(fs[n - 1])
    }
}

/// Index `i` of the model in the schema.
pub open spec fn index_out(syms: Seq<String>, ix: IndexV, i: int) -> Seq<GenV> {
    c("_toasty::codegen_support::core::schema::app::Index { id: _toasty::codegen_support::core::schema::app::IndexId { model: id, index: "@)
        + seq![GenV::Int(i as usize)]
        + c(", }, name: "@)
        + (match ix.name {
            Some(s) => c("Some("@) + seq![GenV::Str(sym_text(syms, s as int))] + c(".to_string())"@),
            None => c("None"@),
        })
        + c(", fields: vec![ "@)
        + index_fields_out(ix.fields, ix.fields.len() as int)
        + c(" ], unique: "@)
        + bool_out(ix.unique)
        + c(", primary_key: "@)
        + bool_out(ix.primary_key)
        + c(", }"@)
}

pub open spec fn indices_out(m: Model, syms: Seq<String>, n: int) -> Seq<GenV>
    decreases n,
{
    if n <= 0 {
        Seq::empty()
    } else {
        indices_out(m, syms, n - 1) + (if n > 1 { c(", "@) } else { Seq::empty() })
            + index_out(syms, m.indices@[n - 1].view(), n - 1)
    }
}

fn push_index(out: &mut Vec<Gen>, syms: &Vec<String>, ix: &Index, i: usize)
    ensures
        gens_view(final(out)@) == gens_view(old(out)@) + index_out(syms@, ix.view(), i as int),
{
    let ghost start = gens_view(out@);
    push_code(out, "_toasty::codegen_support::core::schema::app::Index { id: _toasty::codegen_support::core::schema::app::IndexId { model: id, index: ");
    push_gen(out, Gen::Int(i));
    push_code(out, ", }, name: ");
    match ix.name {
        Some(s) => {
            push_code(out, "Some(");
            push_gen(out, Gen::Str(sym_string(syms, s)));
            push_code(out, ".to_string())");
        },
        None => push_code(out, "None"),
    }
    push_code(out, ", fields: vec![ ");
    let ghost s1 = gens_view(out@);
    let mut j: usize = 0;
    while j < ix.fields.len()
        invariant
            j <= ix.fields@.len(),
            gens_view(out@) == s1 + index_fields_out(ix.fields@, j as int),
        decreases ix.fields.len() - j,
    {
        if j > 0 {
            push_code(out, ", ");
        }
        let f = ix.fields[j];
        push_code(out, "_toasty::codegen_support::core::schema::app::IndexField { field: _toasty::codegen_support::core::schema::app::FieldId \
            { model: id, index: ");
        push_gen(out, Gen::Int(f.field));
        push_code(out, ", }, op: _toasty::codegen_support::core::schema::db::IndexOp::Eq, scope: ");
        match f.scope {
            IndexScope::Partition => push_code(out, "_toasty::codegen_support::core::schema::db::IndexScope::Partition"),
            IndexScope::Local => push_code(out, "_toasty::codegen_support::core::schema::db::IndexScope::Local"),
        }
        push_code(out, ", }");
        j = j + 1;
        assert(gens_view(out@) =~= s1 + index_fields_out(ix.fields@, j as int));
    }
    push_code(out, " ], unique: ");
    push_bool(out, ix.unique);
    push_code(out, ", primary_key: ");
    push_bool(out, ix.primary_key);
    push_code(out, ", }");
    assert(gens_view(out@) =~= start + index_out(syms@, ix.view(), i as int));
}

pub fn push_indices(out: &mut Vec<Gen>, model: &Model, syms: &Vec<String>)
    ensures
        gens_view(final(out)@) == gens_view(old(out)@) + indices_out(*model, syms@, model.indices@.len() as int),
{
    let ghost start = gens_view(out@);
    let mut i: usize = 0;
    while i < model.indices.len()
        invariant
            i <= model.indices@.len(),
            gens_view(out@) == start + indices_out(*model, syms@, i as int),
        decreases model.indices.len() - i,
    {
        if i > 0 {
            push_code(out, ", ");
        }
        push_index(out, syms, &model.indices[i], i);
        i = i + 1;
        assert(gens_view(out@) =~= start + indices_out(*model, syms@, i as int));
    }
}

/// The version field of a root model in the schema.
pub open spec fn version_field_out(m: Model) -> Seq<GenV> {
    match m.view().kind {
        ModelKindV::Root { version_field: Some(v), .. } => c("Some(_toasty::codegen_support::core::schema::app::FieldId { model: id, index: "@)
            + seq![GenV::Int(v)] + c(", })"@),
        _ => c("None"@),
    }
}

pub fn push_version_field(out: &mut Vec<Gen>, model: &Model)
    ensures
        gens_view(final(out)@) == gens_view(old(out)@) + version_field_out(*model),
{
    let ghost start = gens_view(out@);
    match &model.kind {
        ModelKind::Root(root) => match root.version_field {
            Some(v) => {
                push_code(out, "Some(_toasty::codegen_support::core::schema::app::FieldId { model: id, index: ");
                push_gen(out, Gen::Int(v));
                push_code(out, ", })");
            },
            None => push_code(out, "None"),
        },
        _ => push_code(out, "None"),
    }
    assert(gens_view(out@) =~= start + version_field_out(*model));
}

/// What `delete` returns: the delete statement, conditioned on the
/// record's version when the model has a `#[version]` field.
pub open spec fn version_condition_out(m: Model, syms: Seq<String>) -> Seq<GenV> {
    match m.view().kind {
        ModelKindV::Root { version_field: Some(v), .. } => c("__delete.set_condition(_toasty::codegen_support::core::stmt::Condition::new(_toasty::codegen_support::core::stmt::Expr::eq(\
            _toasty::codegen_support::core::stmt::Expr::Reference(_toasty::codegen_support::core::stmt::ExprReference::Field { nesting: 0, index: "@)
            + seq![GenV::Int(v)]
            + c(", }), _toasty::codegen_support::into_untyped_expr::<"@)
            + seq![GenV::FieldTy(v)]
            + c(", _>(self."@)
            + seq![GenV::Text(field_ident_at(syms, m.view().fields, v as int))]
            + c("),)))"@),
        _ => c("__delete"@),
    }
}

pub fn push_version_condition(out: &mut Vec<Gen>, model: &Model, syms: &Vec<String>)
    ensures
        gens_view(final(out)@) == gens_view(old(out)@) + version_condition_out(*model, syms@),
{
    let ghost start = gens_view(out@);
    let vf = match &model.kind {
        ModelKind::Root(root) => root.version_field,
        _ => None,
    };
    match vf {
        Some(v) => {
            push_code(out, "__delete.set_condition(_toasty::codegen_support::core::stmt::Condition::new(_toasty::codegen_support::core::stmt::Expr::eq(\
            _toasty::codegen_support::core::stmt::Expr::Reference(_toasty::codegen_support::core::stmt::ExprReference::Field { nesting: 0, index: ");
            push_gen(out, Gen::Int(v));
            push_code(out, ", }), _toasty::codegen_support::into_untyped_expr::<");
            push_gen(out, Gen::FieldTy(v));
            push_code(out, ", _>(self.");
            push_gen(out, Gen::Text(field_ident_at_exec(model, syms, v)));
            push_code(out, "),)))");
        },
        None => push_code(out, "__delete"),
    }
    assert(gens_view(out@) =~= start + version_condition_out(*model, syms@));
}

/// The registration calls of the first `n` fields.
pub open spec fn register_calls_out(m: Model, syms: Seq<String>, n: int) -> Seq<GenV>
    decreases n,
{
    if n <= 0 {
        Seq::empty()
    } else {
        register_calls_out(m, syms, n - 1) + match register_call(m.view().fields[n - 1]) {
            Some(RegisterCall::FieldType) => register_field_type_out(m, syms, (n - 1) as usize),
            Some(RegisterCall::OneTarget) => register_one_target_out(m, syms, (n - 1) as usize),
            Some(RegisterCall::ManyTarget) => register_many_target_out(m, syms, (n - 1) as usize),
            None => Seq::empty(),
        }
    }
}

pub fn push_register_calls(out: &mut Vec<Gen>, model: &Model, syms: &Vec<String>)
    ensures
        gens_view(final(out)@) == gens_view(old(out)@) + register_calls_out(*model, syms@, model.fields@.len() as int),
{
    let ghost start = gens_view(out@);
    let mut k: usize = 0;
    while k < model.fields.len()
        invariant
            k <= model.fields@.len(),
            gens_view(out@) == start + register_calls_out(*model, syms@, k as int),
        decreases model.fields.len() - k,
    {
        assert(model.view().fields[k as int] == model.fields@[k as int].view());
        match &model.fields[k].ty {
            FieldTy::Primitive => push_register_field_type(out, model, syms, k),
            FieldTy::BelongsTo(_) => push_register_one_target(out, model, syms, k),
            FieldTy::HasOne(_) => push_register_one_target(out, model, syms, k),
            FieldTy::HasMany(h) => {
                if h.rel.via.is_none() {
                    push_register_many_target(out, model, syms, k);
                }
            },
        }
        k = k + 1;
        assert(gens_view(out@) =~= start + register_calls_out(*model, syms@, k as int));
    }
}

/// The `field_name_to_id` arms of the first `n` fields.
pub open spec fn name_to_id_arms_out(m: Model, syms: Seq<String>, n: int) -> Seq<GenV>
    decreases n,
{
    if n <= 0 { Seq::empty() } else { name_to_id_arms_out(m, syms, n - 1) + name_to_id_arm_out(m, syms, (n - 1) as usize) }
}

pub fn push_name_to_id_arms(out: &mut Vec<Gen>, model: &Model, syms: &Vec<String>)
    ensures
        gens_view(final(out)@) == gens_view(old(out)@) + name_to_id_arms_out(*model, syms@, model.fields@.len() as int),
{
    let ghost start = gens_view(out@);
    let mut k: usize = 0;
    while k < model.fields.len()
        invariant
            k <= model.fields@.len(),
            gens_view(out@) == start + name_to_id_arms_out(*model, syms@, k as int),
        decreases model.fields.len() - k,
    {
        push_name_to_id_arm(out, model, syms, k);
        k = k + 1;
        assert(gens_view(out@) =~= start + name_to_id_arms_out(*model, syms@, k as int));
    }
}

/// The loading of the first `n` fields.
pub open spec fn load_fields_out(m: Model, syms: Seq<String>, n: int) -> Seq<GenV>
    decreases n,
{
    if n <= 0 { Seq::empty() } else { load_fields_out(m, syms, n - 1) + load_field_out(m, syms, (n - 1) as usize) }
}

pub fn push_load_fields(out: &mut Vec<Gen>, model: &Model, syms: &Vec<String>)
    ensures
        gens_view(final(out)@) == gens_view(old(out)@) + load_fields_out(*model, syms@, model.fields@.len() as int),
{
    let ghost start = gens_view(out@);
    let mut k: usize = 0;
    while k < model.fields.len()
        invariant
            k <= model.fields@.len(),
            gens_view(out@) == start + load_fields_out(*model, syms@, k as int),
        decreases model.fields.len() - k,
    {
        push_load_field(out, model, syms, k);
        k = k + 1;
        assert(gens_view(out@) =~= start + load_fields_out(*model, syms@, k as int));
    }
}

/// How the create builder sets a field.
#[derive(Clone, Copy, PartialEq, Eq, Debug, Structural)]
pub enum SetterKind {
    Primitive,
    BelongsTo,
    HasOne,
    HasMany,
}

/// The create-builder setter of field `k`, if it has one. An
/// `#[item_parent]` field is navigation, not a value; the key fields of an
/// item-collection child (its partition and sort fields) come from the
/// parent and the key encoder; a `via` relation is reached through others.
pub open spec fn setter_kind(m: ModelV, k: int) -> Option<SetterKind> {
    let f = m.fields[k];
    if f.item_parent is Some || (has_item_parent(m.fields) && pk_of(m).contains(k as usize)) {
        None
    } else {
        match f.ty {
            FieldTyV::Primitive => Some(SetterKind::Primitive),
            FieldTyV::BelongsTo(_) => Some(SetterKind::BelongsTo),
            FieldTyV::HasOne(_) => Some(SetterKind::HasOne),
            FieldTyV::HasMany(pv) => if pv.via is Some { None } else { Some(SetterKind::HasMany) },
        }
    }
}

/// The setters of the first `n` fields, in field order.
pub open spec fn create_setters_from(m: ModelV, n: int) -> Seq<(usize, SetterKind)>
    decreases n,
{
    if n <= 0 {
        Seq::empty()
    } else {
        match setter_kind(m, n - 1) {
            Some(s) => create_setters_from(m, n - 1).push(((n - 1) as usize, s)),
            None => create_setters_from(m, n - 1),
        }
    }
}

/// The create-builder setters of a model, in field order.
pub fn create_setters(model: &Model) -> (r: Vec<(usize, SetterKind)>)
    ensures
        r@ == create_setters_from(model.view(), model.fields@.len() as int),
{
    let ghost m = model.view();
    let child = has_item_parent_exec(model);
    let pk = pk_exec(model);
    let mut out: Vec<(usize, SetterKind)> = Vec::new();
    let mut k: usize = 0;
    while k < model.fields.len()
        invariant
            k <= model.fields@.len(),
            m == model.view(),
            m.fields.len() == model.fields@.len(),
            child == has_item_parent(m.fields),
            pk@ == pk_of(m),
            out@ == create_setters_from(m, k as int),
        decreases model.fields.len() - k,
    {
        let f = &model.fields[k];
        assert(m.fields[k as int] == f.view());
        let owned = child && holds_index(&pk, k);
        if f.item_parent.is_none() && !owned {
            match &f.ty {
                FieldTy::Primitive => out.push((k, SetterKind::Primitive)),
                FieldTy::BelongsTo(_) => out.push((k, SetterKind::BelongsTo)),
                FieldTy::HasOne(_) => out.push((k, SetterKind::HasOne)),
                FieldTy::HasMany(h) => {
                    if h.rel.via.is_none() {
                        out.push((k, SetterKind::HasMany));
                    }
                },
            }
        }
        k = k + 1;
    }
    out
}

pub open spec fn setter_out(m: Model, syms: Seq<String>, k: usize, s: SetterKind) -> Seq<GenV> {
    match s {
        SetterKind::Primitive => setter_primitive_out(m, syms, k),
        SetterKind::BelongsTo => setter_belongs_to_out(m, syms, k),
        SetterKind::HasOne => setter_has_one_out(m, syms, k),
        SetterKind::HasMany => setter_has_many_out(m, syms, k),
    }
}

pub open spec fn setters_out(m: Model, syms: Seq<String>, ks: Seq<(usize, SetterKind)>) -> Seq<GenV>
    decreases ks.len(),
{
    if ks.len() == 0 { Seq::empty() } else { setters_out(m, syms, ks.drop_last()) + setter_out(m, syms, ks.last().0, ks.last().1) }
}

pub fn push_setters(out: &mut Vec<Gen>, model: &Model, syms: &Vec<String>, ks: &Vec<(usize, SetterKind)>)
    ensures
        gens_view(final(out)@) == gens_view(old(out)@) + setters_out(*model, syms@, ks@),
{
    let ghost start = gens_view(out@);
    let mut i: usize = 0;
    while i < ks.len()
        invariant
            i <= ks@.len(),
            gens_view(out@) == start + setters_out(*model, syms@, ks@.subrange(0, i as int)),
        decreases ks.len() - i,
    {
        let (k, s) = ks[i];
        match s {
            SetterKind::Primitive => push_setter_primitive(out, model, syms, k),
            SetterKind::BelongsTo => push_setter_belongs_to(out, model, syms, k),
            SetterKind::HasOne => push_setter_has_one(out, model, syms, k),
            SetterKind::HasMany => push_setter_has_many(out, model, syms, k),
        }
        assert(ks@.subrange(0, i + 1).drop_last() =~= ks@.subrange(0, i as int));
        i = i + 1;
        assert(gens_view(out@) =~= start + setters_out(*model, syms@, ks@.subrange(0, i as int)));
    }
    assert(ks@.subrange(0, i as int) =~= ks@);
}

pub open spec fn create_defaults_out(m: Model, syms: Seq<String>, ds: Seq<(usize, CreateDefault)>) -> Seq<GenV>
    decreases ds.len(),
{
    if ds.len() == 0 {
        Seq::empty()
    } else {
        create_defaults_out(m, syms, ds.drop_last()) + match ds.last().1 {
            CreateDefault::Default => default_from_default_out(m, syms, ds.last().0),
            CreateDefault::Update => default_from_update_out(m, syms, ds.last().0),
        }
    }
}

pub fn push_create_defaults(out: &mut Vec<Gen>, model: &Model, syms: &Vec<String>, ds: &Vec<(usize, CreateDefault)>)
    ensures
        gens_view(final(out)@) == gens_view(old(out)@) + create_defaults_out(*model, syms@, ds@),
{
    let ghost start = gens_view(out@);
    let mut i: usize = 0;
    while i < ds.len()
        invariant
            i <= ds@.len(),
            gens_view(out@) == start + create_defaults_out(*model, syms@, ds@.subrange(0, i as int)),
        decreases ds.len() - i,
    {
        let (k, d) = ds[i];
        match d {
            CreateDefault::Default => push_default_from_default(out, model, syms, k),
            CreateDefault::Update => push_default_from_update(out, model, syms, k),
        }
        assert(ds@.subrange(0, i + 1).drop_last() =~= ds@.subrange(0, i as int));
        i = i + 1;
        assert(gens_view(out@) =~= start + create_defaults_out(*model, syms@, ds@.subrange(0, i as int)));
    }
    assert(ds@.subrange(0, i as int) =~= ds@);
}

/// What a root model gets beside its query helpers: `delete`, its
/// discovery registration, its `Load` and `Model` impls, and its create
/// builder.
#[verifier::opaque]
pub open spec fn model_core_out(m: Model, syms: Seq<String>) -> Seq<GenV> {
    delete_impl_out(m, syms) + discover_out(m, syms) + load_impl_out(m, syms) + model_impl_out(m, syms) + create_builder_out(m, syms)
}

/// The core impls of a root model (see `model_core_out`).
pub fn expand_model_core(model: &Model, syms: &Vec<String>) -> (r: Vec<Gen>)
    requires
        model.wf(),
        autos_registrable(model.view()),
        column_types_registrable(*model),
        model.table is Some || pluralizable(model.name.snake_case@),
    ensures
        gens_view(r@) == model_core_out(*model, syms@),
{
    proof {
        reveal(model_core_out);
    }
    let mut out: Vec<Gen> = Vec::new();
    proof {
        crate::gen::lemma_gens_empty(out@);
    }
    push_delete_impl(&mut out, model, syms);
    push_discover(&mut out, model, syms);
    push_load_impl(&mut out, model, syms);
    push_model_impl(&mut out, model, syms);
    push_create_builder(&mut out, model, syms);
    assert(gens_view(out@) =~= model_core_out(*model, syms@));
    out
}

} // verus!
