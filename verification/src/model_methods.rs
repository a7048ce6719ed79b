//! The inherent methods of a root model: the handle to its fields, the
//! `get_by_*`, `filter_by_*`, `update_by_*` and `delete_by_*` methods of
//! its filters, its relation accessors, and the entry points of creation
//! and querying.
use vstd::prelude::*;

use crate::case::strip_raw;
use crate::docs::{doc_belongs_to, doc_fields, doc_has_many, doc_has_many_via, doc_has_one};
use crate::filters::{filters_view, method_ident, method_ident_text, Filter, FilterV};
use crate::gen::{c, field_ident_at, field_ident_at_exec, gens_view, push_code, push_gen, Gen, GenV};
use crate::model_gen::fk_target_text;
use crate::query_struct::{arg_pieces_out, filters_fit, push_arg_pieces, ArgPiece};
use crate::schema::field::{field_name_src, field_name_string, FieldTy, FieldTyV, FieldV};
use crate::schema::model::{Model, ModelV};
use crate::schema::name::ident_is_reserved;
use crate::schema::relation::ForeignKeyField;
use crate::text::{concat, string_of};
use crate::tokens::{sym_string, sym_text};

verus! {

pub open spec fn static_get_out(m: ModelV, syms: Seq<String>, f: FilterV) -> Seq<GenV> {
    c("pub async fn "@)
        + seq![GenV::Text(method_ident_text(syms, m.fields, f.fields, "get"@))]
        + c("(executor: &mut dyn _toasty::codegen_support::Executor, "@)
        + arg_pieces_out(m, syms, f.fields, ArgPiece::Arg, f.fields.len() as int)
        + c(") -> _toasty::codegen_support::Result<"@)
        + seq![GenV::Sym(m.ident)]
        + c("> { Self::"@)
        + seq![GenV::Text(method_ident_text(syms, m.fields, f.fields, "filter"@))]
        + c("("@)
        + arg_pieces_out(m, syms, f.fields, ArgPiece::Ident, f.fields.len() as int)
        + c(").get(executor).await } "@)
}

pub open spec fn static_update_out(m: ModelV, syms: Seq<String>, f: FilterV) -> Seq<GenV> {
    c("pub fn "@)
        + seq![GenV::Text(method_ident_text(syms, m.fields, f.fields, "update"@))]
        + c("("@)
        + arg_pieces_out(m, syms, f.fields, ArgPiece::Arg, f.fields.len() as int)
        + c(") -> "@)
        + seq![GenV::Text(sym_text(syms, m.ident as int) + "Update"@)]
        + c(" { Self::"@)
        + seq![GenV::Text(method_ident_text(syms, m.fields, f.fields, "filter"@))]
        + c("("@)
        + arg_pieces_out(m, syms, f.fields, ArgPiece::Ident, f.fields.len() as int)
        + c(").update() } "@)
}

pub open spec fn static_delete_out(m: ModelV, syms: Seq<String>, f: FilterV) -> Seq<GenV> {
    c("pub async fn "@)
        + seq![GenV::Text(method_ident_text(syms, m.fields, f.fields, "delete"@))]
        + c("(executor: &mut dyn _toasty::codegen_support::Executor, "@)
        + arg_pieces_out(m, syms, f.fields, ArgPiece::Arg, f.fields.len() as int)
        + c(") -> _toasty::codegen_support::Result<()> { Self::"@)
        + seq![GenV::Text(method_ident_text(syms, m.fields, f.fields, "filter"@))]
        + c("("@)
        + arg_pieces_out(m, syms, f.fields, ArgPiece::Ident, f.fields.len() as int)
        + c(").delete().exec(executor).await } "@)
}

pub open spec fn static_filter_method_out(m: ModelV, syms: Seq<String>, f: FilterV) -> Seq<GenV> {
    c("pub fn "@)
        + seq![GenV::Text(method_ident_text(syms, m.fields, f.fields, "filter"@))]
        + c("("@)
        + arg_pieces_out(m, syms, f.fields, ArgPiece::Arg, f.fields.len() as int)
        + c(") -> "@)
        + seq![GenV::Text(sym_text(syms, m.ident as int) + "Query"@)]
        + c(" { "@)
        + seq![GenV::Text(sym_text(syms, m.ident as int) + "Query"@)]
        + c("::default()."@)
        + seq![GenV::Text(method_ident_text(syms, m.fields, f.fields, "filter"@))]
        + c("("@)
        + arg_pieces_out(m, syms, f.fields, ArgPiece::Ident, f.fields.len() as int)
        + c(") } "@)
}

/// The methods of a filter on the model itself.
pub open spec fn static_filter_out(m: ModelV, syms: Seq<String>, f: FilterV) -> Seq<GenV> {
    static_get_out(m, syms, f) + static_update_out(m, syms, f) + static_delete_out(m, syms, f) + static_filter_method_out(m, syms, f)
}

/// The filter methods of the model itself: those of the filters that are
/// not for relation structs only.
pub open spec fn static_filters_out(m: ModelV, syms: Seq<String>, fs: Seq<FilterV>) -> Seq<GenV>
    decreases fs.len(),
{
    if fs.len() == 0 {
        Seq::empty()
    } else {
        static_filters_out(m, syms, fs.drop_last()) + (if fs.last().only_relation { Seq::empty() } else { static_filter_out(m, syms, fs.last()) })
    }
}

/// The foreign key of the relation field at `k` (none for other fields).
pub open spec fn fk_of(fields: Seq<FieldV>, k: int) -> Seq<ForeignKeyField> {
    if 0 <= k < fields.len() {
        match fields[k].ty {
            FieldTyV::BelongsTo(fk) => fk,
            _ => Seq::empty(),
        }
    } else {
        Seq::empty()
    }
}

pub open spec fn fk_operand_out(m: ModelV, syms: Seq<String>, k: usize, fk: ForeignKeyField) -> Seq<GenV> {
    c("_toasty::codegen_support::Field::key_constraint(&self."@)
        + seq![GenV::Text(field_ident_at(syms, m.fields, fk.source as int))]
        + c(", <"@)
        + seq![GenV::FieldTy(k)]
        + c(" as _toasty::codegen_support::RelationOneField>::Target::fields()."@)
        + seq![GenV::Text(fk_target_text(syms, fk.target))]
        + c("().into(),)"@)
}

/// The first `n` key constraints of a foreign key, separated by commas.
pub open spec fn fk_operands_out(m: ModelV, syms: Seq<String>, k: usize, fks: Seq<ForeignKeyField>, n: int) -> Seq<GenV>
    decreases n,
{
    if n <= 0 {
        Seq::empty()
    } else {
        fk_operands_out(m, syms, k, fks, n - 1) + (if n > 1 { c(", "@) } else { Seq::empty() }) + fk_operand_out(m, syms, k, fks[n - 1])
    }
}

/// The condition a `#[belongs_to]` accessor selects its target by.
pub open spec fn fk_filter_out(m: ModelV, syms: Seq<String>, k: usize, fks: Seq<ForeignKeyField>) -> Seq<GenV> {
    if fks.len() == 1 {
        fk_operands_out(m, syms, k, fks, 1)
    } else {
        c("_toasty::codegen_support::stmt::Expr::and_all([ "@) + fk_operands_out(m, syms, k, fks, fks.len() as int) + c(" ])"@)
    }
}

/// Reads of the foreign key's source fields, which keep them used.
pub open spec fn fk_suppress_out(m: ModelV, syms: Seq<String>, fks: Seq<ForeignKeyField>, n: int) -> Seq<GenV>
    decreases n,
{
    if n <= 0 {
        Seq::empty()
    } else {
        let fk = fks[n - 1];
        fk_suppress_out(m, syms, fks, n - 1) + c("let _ = &self."@) + seq![GenV::Text(field_ident_at(syms, m.fields, fk.source as int))] + c("; "@)
    }
}

/// How the model's accessor of a relation field reaches its target.
#[derive(Clone, Copy, PartialEq, Eq, Debug, Structural)]
pub enum ModelRelation {
    BelongsTo,
    HasMany,
    Via,
    HasOne,
}

/// The names of the model's built-in methods.
pub open spec fn model_reserved() -> Seq<Seq<char>> {
    seq!["fields"@, "create"@, "create_many"@, "update"@, "all"@, "filter"@, "delete"@]
}

pub open spec fn model_relation(f: FieldV) -> Option<ModelRelation> {
    match f.ty {
        FieldTyV::Primitive => None,
        FieldTyV::BelongsTo(_) => Some(ModelRelation::BelongsTo),
        FieldTyV::HasMany(pv) => if pv.via is Some { Some(ModelRelation::Via) } else { Some(ModelRelation::HasMany) },
        FieldTyV::HasOne(_) => Some(ModelRelation::HasOne),
    }
}

/// The relation accessors of the first `n` fields, in field order,
/// without those whose name a built-in method takes.
pub open spec fn model_relations_from(syms: Seq<String>, fields: Seq<FieldV>, n: int) -> Seq<(usize, ModelRelation)>
    decreases n,
{
    if n <= 0 {
        Seq::empty()
    } else {
        let rest = model_relations_from(syms, fields, n - 1);
        if model_reserved().contains(strip_raw(field_name_src(syms, fields[n - 1].name))) {
            rest
        } else {
            match model_relation(fields[n - 1]) {
                Some(r) => rest.push(((n - 1) as usize, r)),
                None => rest,
            }
        }
    }
}

/// The accessor of the relation field at `k`.
pub open spec fn model_relation_out(m: ModelV, syms: Seq<String>, k: usize, kind: ModelRelation) -> Seq<GenV> {
    match kind {
        ModelRelation::BelongsTo => c("#[doc = "@)
            + seq![GenV::Str("Returns a query for the `"@ + field_ident_at(syms, m.fields, k as int) + "` \
                record this `"@ + sym_text(syms, m.ident as int) + "` belongs to."@)]
            + c("] pub fn "@)
            + seq![GenV::Text(field_ident_at(syms, m.fields, k as int))]
            + c("(&self) -> <"@)
            + seq![GenV::FieldTy(k)]
            + c(" as _toasty::codegen_support::RelationOneField>::One { if false { let _ = &self."@)
            + seq![GenV::Text(field_ident_at(syms, m.fields, k as int))]
            + c("; "@)
            + fk_suppress_out(m, syms, fk_of(m.fields, k as int), fk_of(m.fields, k as int).len() as int)
            + c("} <"@)
            + seq![GenV::FieldTy(k)]
            + c(" as _toasty::codegen_support::RelationOneField>::make_one(<"@)
            + seq![GenV::FieldTy(k)]
            + c(" as _toasty::codegen_support::RelationOneField>::Target::filter("@)
            + fk_filter_out(m, syms, k, fk_of(m.fields, k as int))
            + c(")) } "@),
        ModelRelation::HasMany => c("#[doc = "@)
            + seq![GenV::Str("Returns a query over the `"@ + field_ident_at(syms, m.fields, k as int) + "` \
                associated with this `"@ + sym_text(syms, m.ident as int) + "`."@)]
            + c("] pub fn "@)
            + seq![GenV::Text(field_ident_at(syms, m.fields, k as int))]
            + c("(&self) -> _toasty::codegen_support::QueryMany<<"@)
            + seq![GenV::FieldTy(k)]
            + c(" as _toasty::codegen_support::RelationManyField>::Target> { if false { let _ = &self."@)
            + seq![GenV::Text(field_ident_at(syms, m.fields, k as int))]
            + c("; } { use _toasty::codegen_support::IntoStatement; <_toasty::codegen_support::QueryMany<<"@)
            + seq![GenV::FieldTy(k)]
            + c(" as _toasty::codegen_support::RelationManyField>::Target>>::from_assoc_many(_toasty::codegen_support::stmt::Association::many(self.into_statement().into_query().unwrap().to_list(), \
                \
                Self::fields()."@)
            + seq![GenV::Text(field_ident_at(syms, m.fields, k as int))]
            + c("().into(),),) } } "@),
        ModelRelation::Via => c("#[doc = "@)
            + seq![GenV::Str("Returns a query over the `"@ + field_ident_at(syms, m.fields, k as int) + "` \
                reached from this `"@ + sym_text(syms, m.ident as int) + "` through its relations."@)]
            + c("] pub fn "@)
            + seq![GenV::Text(field_ident_at(syms, m.fields, k as int))]
            + c("(&self) -> _toasty::codegen_support::ViaMany<"@)
            + seq![GenV::FieldTy(k)]
            + c("> { if false { let _ = &self."@)
            + seq![GenV::Text(field_ident_at(syms, m.fields, k as int))]
            + c("; } { use _toasty::codegen_support::IntoStatement; let __source = self.into_statement().into_query().unwrap().to_list(); \
                let __assoc = _toasty::codegen_support::stmt::Association::from_source_and_path(__source, \
                Self::fields()."@)
            + seq![GenV::Text(field_ident_at(syms, m.fields, k as int))]
            + c("().into(),); <<"@)
            + seq![GenV::FieldTy(k)]
            + c(" as _toasty::codegen_support::ViaManyField>::Target as _toasty::codegen_support::ViaTarget>::make_via_query(__assoc) } } "@),
        ModelRelation::HasOne => c("#[doc = "@)
            + seq![GenV::Str("Returns a query for the `"@ + field_ident_at(syms, m.fields, k as int) + "` \
                associated with this `"@ + sym_text(syms, m.ident as int) + "`."@)]
            + c("] pub fn "@)
            + seq![GenV::Text(field_ident_at(syms, m.fields, k as int))]
            + c("(&self) -> <"@)
            + seq![GenV::FieldTy(k)]
            + c(" as _toasty::codegen_support::RelationOneField>::One { if false { let _ = &self."@)
            + seq![GenV::Text(field_ident_at(syms, m.fields, k as int))]
            + c("; } { use _toasty::codegen_support::IntoStatement; let assoc = _toasty::codegen_support::stmt::Association::one(self.into_statement().into_query().unwrap().to_list(), \
                \
                Self::fields()."@)
            + seq![GenV::Text(field_ident_at(syms, m.fields, k as int))]
            + c("().into(),); let query = <<"@)
            + seq![GenV::FieldTy(k)]
            + c(" as _toasty::codegen_support::RelationOneField>::Target as _toasty::codegen_support::Model>::wrap_query(assoc.into_statement().into_query().unwrap(),); \
                \
                <"@)
            + seq![GenV::FieldTy(k)]
            + c(" as _toasty::codegen_support::RelationOneField>::make_one(query) } } "@),
    }
}

pub open spec fn model_relations_out(m: ModelV, syms: Seq<String>, ks: Seq<(usize, ModelRelation)>) -> Seq<GenV>
    decreases ks.len(),
{
    if ks.len() == 0 { Seq::empty() } else { model_relations_out(m, syms, ks.drop_last()) + model_relation_out(m, syms, ks.last().0, ks.last().1) }
}

/// Some field is the `#[item_parent]` of an item-collection child. Such a
/// child is created through its parent, so it has no top-level `create()`.
pub open spec fn has_item_parent(fields: Seq<FieldV>) -> bool {
    exists|k: int| 0 <= k < fields.len() && (#[trigger] fields[k]).item_parent is Some
}

pub fn has_item_parent_exec(model: &Model) -> (r: bool)
    ensures
        r == has_item_parent(model.view().fields),
{
    let ghost fv = model.view().fields;
    let mut k: usize = 0;
    while k < model.fields.len()
        invariant
            k <= model.fields@.len(),
            fv == model.view().fields,
            fv.len() == model.fields@.len(),
            forall|j: int| 0 <= j < k ==> (#[trigger] fv[j]).item_parent is None,
        decreases model.fields.len() - k,
    {
        assert(fv[k as int] == model.fields@[k as int].view());
        if model.fields[k].item_parent.is_some() {
            return true;
        }
        k = k + 1;
    }
    false
}

/// The top-level `create()` of a model.
pub open spec fn top_create_out(m: ModelV, syms: Seq<String>) -> Seq<GenV> {
    c("pub fn create() -> "@)
        + seq![GenV::Text(sym_text(syms, m.ident as int) + "Create"@)]
        + c(" { "@)
        + seq![GenV::Text(sym_text(syms, m.ident as int) + "Create"@)]
        + c("::default() } "@)
}

fn push_top_create(out: &mut Vec<Gen>, model: &Model, syms: &Vec<String>)
    ensures
        gens_view(final(out)@) == gens_view(old(out)@) + top_create_out(model.view(), syms@),
{
    let ghost start = gens_view(out@);
    push_code(out, "pub fn create() -> ");
    push_gen(out, Gen::Text(concat(sym_string(syms, model.ident).as_str(), "Create")));
    push_code(out, " { ");
    push_gen(out, Gen::Text(concat(sym_string(syms, model.ident).as_str(), "Create")));
    push_code(out, "::default() } ");
    assert(gens_view(out@) =~= start + top_create_out(model.view(), syms@));
}

/// The inherent methods of a root model: `fields()`, the filter methods,
/// the relation accessors, `create()` (not on an item-collection child),
/// `create_many()`, `all()` and `filter()`.
#[verifier::opaque]
pub open spec fn model_methods_out(m: ModelV, fs: Seq<FilterV>, syms: Seq<String>) -> Seq<GenV> {
    c("impl "@)
        + seq![GenV::Sym(m.ident)]
        + c(" { #[doc = "@)
        + seq![GenV::Str("Returns a handle used to reference `"@ + sym_text(syms, m.ident as int) + "`'s fields when building query expressions."@)]
        + c("] pub fn fields() -> "@)
        + seq![GenV::Text(sym_text(syms, m.ident as int) + "Fields"@)]
        + c("<"@)
        + seq![GenV::Sym(m.ident)]
        + c("> { "@)
        + seq![GenV::Text(sym_text(syms, m.ident as int) + "Fields"@)]
        + c(" { path: <"@)
        + seq![GenV::Sym(m.ident)]
        + c(" as _toasty::codegen_support::Model>::path_root(), } } "@)
        + static_filters_out(m, syms, fs)
        + model_relations_out(m, syms, model_relations_from(syms, m.fields, m.fields.len() as int))
        + (if has_item_parent(m.fields) { Seq::empty() } else { top_create_out(m, syms) })
        + c("pub fn create_many() -> _toasty::codegen_support::stmt::CreateMany<"@)
        + seq![GenV::Sym(m.ident)]
        + c("> { _toasty::codegen_support::stmt::CreateMany::default() } pub fn all() -> "@)
        + seq![GenV::Text(sym_text(syms, m.ident as int) + "Query"@)]
        + c(" { "@)
        + seq![GenV::Text(sym_text(syms, m.ident as int) + "Query"@)]
        + c("::default() } pub fn filter(expr: _toasty::codegen_support::stmt::Expr<bool>) -> "@)
        + seq![GenV::Text(sym_text(syms, m.ident as int) + "Query"@)]
        + c(" { "@)
        + seq![GenV::Text(sym_text(syms, m.ident as int) + "Query"@)]
        + c("::from_stmt(_toasty::codegen_support::stmt::Query::all().filter(expr)) } } "@)
}

#[verifier::spinoff_prover]
fn push_static_get(out: &mut Vec<Gen>, model: &Model, syms: &Vec<String>, f: &Filter)
    requires
        forall|j: int| 0 <= j < f.fields@.len() ==> #[trigger] f.fields@[j] < model.fields@.len(),
    ensures
        gens_view(final(out)@) == gens_view(old(out)@) + static_get_out(model.view(), syms@, f.view()),
{
    let ghost start = gens_view(out@);
    push_code(out, "pub async fn ");
    push_gen(out, Gen::Text(method_ident(model, syms, &f.fields, "get")));
    push_code(out, "(executor: &mut dyn _toasty::codegen_support::Executor, ");
    push_arg_pieces(out, model, syms, &f.fields, ArgPiece::Arg);
    push_code(out, ") -> _toasty::codegen_support::Result<");
    push_gen(out, Gen::Sym(model.ident));
    push_code(out, "> { Self::");
    push_gen(out, Gen::Text(method_ident(model, syms, &f.fields, "filter")));
    push_code(out, "(");
    push_arg_pieces(out, model, syms, &f.fields, ArgPiece::Ident);
    push_code(out, ").get(executor).await } ");
    assert(gens_view(out@) =~= start + static_get_out(model.view(), syms@, f.view()));
}

#[verifier::spinoff_prover]
fn push_static_update(out: &mut Vec<Gen>, model: &Model, syms: &Vec<String>, f: &Filter)
    requires
        forall|j: int| 0 <= j < f.fields@.len() ==> #[trigger] f.fields@[j] < model.fields@.len(),
    ensures
        gens_view(final(out)@) == gens_view(old(out)@) + static_update_out(model.view(), syms@, f.view()),
{
    let ghost start = gens_view(out@);
    push_code(out, "pub fn ");
    push_gen(out, Gen::Text(method_ident(model, syms, &f.fields, "update")));
    push_code(out, "(");
    push_arg_pieces(out, model, syms, &f.fields, ArgPiece::Arg);
    push_code(out, ") -> ");
    push_gen(out, Gen::Text(concat(sym_string(syms, model.ident).as_str(), "Update")));
    push_code(out, " { Self::");
    push_gen(out, Gen::Text(method_ident(model, syms, &f.fields, "filter")));
    push_code(out, "(");
    push_arg_pieces(out, model, syms, &f.fields, ArgPiece::Ident);
    push_code(out, ").update() } ");
    assert(gens_view(out@) =~= start + static_update_out(model.view(), syms@, f.view()));
}

#[verifier::spinoff_prover]
fn push_static_delete(out: &mut Vec<Gen>, model: &Model, syms: &Vec<String>, f: &Filter)
    requires
        forall|j: int| 0 <= j < f.fields@.len() ==> #[trigger] f.fields@[j] < model.fields@.len(),
    ensures
        gens_view(final(out)@) == gens_view(old(out)@) + static_delete_out(model.view(), syms@, f.view()),
{
    let ghost start = gens_view(out@);
    push_code(out, "pub async fn ");
    push_gen(out, Gen::Text(method_ident(model, syms, &f.fields, "delete")));
    push_code(out, "(executor: &mut dyn _toasty::codegen_support::Executor, ");
    push_arg_pieces(out, model, syms, &f.fields, ArgPiece::Arg);
    push_code(out, ") -> _toasty::codegen_support::Result<()> { Self::");
    push_gen(out, Gen::Text(method_ident(model, syms, &f.fields, "filter")));
    push_code(out, "(");
    push_arg_pieces(out, model, syms, &f.fields, ArgPiece::Ident);
    push_code(out, ").delete().exec(executor).await } ");
    assert(gens_view(out@) =~= start + static_delete_out(model.view(), syms@, f.view()));
}

#[verifier::spinoff_prover]
fn push_static_filter_method(out: &mut Vec<Gen>, model: &Model, syms: &Vec<String>, f: &Filter)
    requires
        forall|j: int| 0 <= j < f.fields@.len() ==> #[trigger] f.fields@[j] < model.fields@.len(),
    ensures
        gens_view(final(out)@) == gens_view(old(out)@) + static_filter_method_out(model.view(), syms@, f.view()),
{
    let ghost start = gens_view(out@);
    push_code(out, "pub fn ");
    push_gen(out, Gen::Text(method_ident(model, syms, &f.fields, "filter")));
    push_code(out, "(");
    push_arg_pieces(out, model, syms, &f.fields, ArgPiece::Arg);
    push_code(out, ") -> ");
    push_gen(out, Gen::Text(concat(sym_string(syms, model.ident).as_str(), "Query")));
    push_code(out, " { ");
    push_gen(out, Gen::Text(concat(sym_string(syms, model.ident).as_str(), "Query")));
    push_code(out, "::default().");
    push_gen(out, Gen::Text(method_ident(model, syms, &f.fields, "filter")));
    push_code(out, "(");
    push_arg_pieces(out, model, syms, &f.fields, ArgPiece::Ident);
    push_code(out, ") } ");
    assert(gens_view(out@) =~= start + static_filter_method_out(model.view(), syms@, f.view()));
}

fn push_static_filter(out: &mut Vec<Gen>, model: &Model, syms: &Vec<String>, f: &Filter)
    requires
        forall|j: int| 0 <= j < f.fields@.len() ==> #[trigger] f.fields@[j] < model.fields@.len(),
    ensures
        gens_view(final(out)@) == gens_view(old(out)@) + static_filter_out(model.view(), syms@, f.view()),
{
    let ghost start = gens_view(out@);
    push_static_get(out, model, syms, f);
    push_static_update(out, model, syms, f);
    push_static_delete(out, model, syms, f);
    push_static_filter_method(out, model, syms, f);
    assert(gens_view(out@) =~= start + static_filter_out(model.view(), syms@, f.view()));
}

fn push_static_filters(out: &mut Vec<Gen>, model: &Model, syms: &Vec<String>, fs: &Vec<Filter>)
    requires
        filters_fit(model.view(), filters_view(fs@)),
    ensures
        gens_view(final(out)@) == gens_view(old(out)@) + static_filters_out(model.view(), syms@, filters_view(fs@)),
{
    let ghost start = gens_view(out@);
    let ghost m = model.view();
    let ghost fv = filters_view(fs@);
    let mut i: usize = 0;
    while i < fs.len()
        invariant
            i <= fs@.len(),
            m == model.view(),
            fv == filters_view(fs@),
            fv.len() == fs@.len(),
            filters_fit(m, fv),
            gens_view(out@) == start + static_filters_out(m, syms@, fv.subrange(0, i as int)),
        decreases fs.len() - i,
    {
        let f = &fs[i];
        assert(fv[i as int] == f.view());
        assert forall|j: int| 0 <= j < f.fields@.len() implies #[trigger] f.fields@[j] < model.fields@.len() by {
            assert(fv[i as int].fields[j] == f.fields@[j]);
        }
        if !f.only_relation {
            push_static_filter(out, model, syms, f);
        }
        assert(fv.subrange(0, i + 1).drop_last() =~= fv.subrange(0, i as int));
        assert(fv.subrange(0, i + 1).last() == f.view());
        i = i + 1;
        assert(gens_view(out@) =~= start + static_filters_out(m, syms@, fv.subrange(0, i as int)));
    }
    assert(fv.subrange(0, i as int) =~= fv);
}

fn push_fk_operand(out: &mut Vec<Gen>, model: &Model, syms: &Vec<String>, k: usize, fk: ForeignKeyField)
    ensures
        gens_view(final(out)@) == gens_view(old(out)@) + fk_operand_out(model.view(), syms@, k, fk),
{
    let ghost start = gens_view(out@);
    let ghost m = model.view();
    push_code(out, "_toasty::codegen_support::Field::key_constraint(&self.");
    push_gen(out, Gen::Text(field_ident_at_exec(model, syms, fk.source)));
    push_code(out, ", <");
    push_gen(out, Gen::FieldTy(k));
    push_code(out, " as _toasty::codegen_support::RelationOneField>::Target::fields().");
    { let t = match fk.target { Some(s) => sym_string(syms, s), None => string_of("id") }; push_gen(out, Gen::Text(t)); }
    push_code(out, "().into(),)");
    assert(gens_view(out@) =~= start + fk_operand_out(m, syms@, k, fk));
}

fn fk_exec(model: &Model, k: usize) -> (r: Vec<ForeignKeyField>)
    ensures
        r@ == fk_of(model.view().fields, k as int),
{
    if k < model.fields.len() {
        assert(model.view().fields[k as int] == model.fields@[k as int].view());
        match &model.fields[k].ty {
            FieldTy::BelongsTo(b) => b.foreign_key.clone(),
            _ => Vec::new(),
        }
    } else {
        Vec::new()
    }
}

fn push_fk_filter(out: &mut Vec<Gen>, model: &Model, syms: &Vec<String>, k: usize)
    ensures
        gens_view(final(out)@) == gens_view(old(out)@) + fk_filter_out(model.view(), syms@, k, fk_of(model.view().fields, k as int)),
{
    let ghost start = gens_view(out@);
    let ghost m = model.view();
    let fks = fk_exec(model, k);
    let single = fks.len() == 1;
    if !single {
        push_code(out, "_toasty::codegen_support::stmt::Expr::and_all([ ");
    }
    let ghost s1 = gens_view(out@);
    let mut i: usize = 0;
    while i < fks.len()
        invariant
            i <= fks@.len(),
            m == model.view(),
            gens_view(out@) == s1 + fk_operands_out(m, syms@, k, fks@, i as int),
        decreases fks.len() - i,
    {
        if i > 0 {
            push_code(out, ", ");
        }
        push_fk_operand(out, model, syms, k, fks[i]);
        i = i + 1;
        assert(gens_view(out@) =~= s1 + fk_operands_out(m, syms@, k, fks@, i as int));
    }
    if !single {
        push_code(out, " ])");
    }
    assert(gens_view(out@) =~= start + fk_filter_out(m, syms@, k, fks@));
}

fn push_fk_suppress(out: &mut Vec<Gen>, model: &Model, syms: &Vec<String>, k: usize)
    ensures
        gens_view(final(out)@) == gens_view(old(out)@)
            + fk_suppress_out(model.view(), syms@, fk_of(model.view().fields, k as int), fk_of(model.view().fields, k as int).len() as int),
{
    let ghost start = gens_view(out@);
    let ghost m = model.view();
    let fks = fk_exec(model, k);
    let mut i: usize = 0;
    while i < fks.len()
        invariant
            i <= fks@.len(),
            m == model.view(),
            gens_view(out@) == start + fk_suppress_out(m, syms@, fks@, i as int),
        decreases fks.len() - i,
    {
        let fk = fks[i];
        push_code(out, "let _ = &self.");
    push_gen(out, Gen::Text(field_ident_at_exec(model, syms, fk.source)));
    push_code(out, "; ");
        i = i + 1;
        assert(gens_view(out@) =~= start + fk_suppress_out(m, syms@, fks@, i as int));
    }
}

fn push_model_relation(out: &mut Vec<Gen>, model: &Model, syms: &Vec<String>, k: usize, kind: ModelRelation)
    ensures
        gens_view(final(out)@) == gens_view(old(out)@) + model_relation_out(model.view(), syms@, k, kind),
{
    match kind {
        ModelRelation::BelongsTo => push_model_relation_belongsto(out, model, syms, k),
        ModelRelation::HasMany => push_model_relation_hasmany(out, model, syms, k),
        ModelRelation::Via => push_model_relation_via(out, model, syms, k),
        ModelRelation::HasOne => push_model_relation_hasone(out, model, syms, k),
    }
}

#[verifier::spinoff_prover]
fn push_model_relation_belongsto(out: &mut Vec<Gen>, model: &Model, syms: &Vec<String>, k: usize)
    ensures
        gens_view(final(out)@) == gens_view(old(out)@) + model_relation_out(model.view(), syms@, k, ModelRelation::BelongsTo),
{
    let ghost start = gens_view(out@);
    push_code(out, "#[doc = ");
    { let mn = sym_string(syms, model.ident); let fnm = field_ident_at_exec(model, syms, k); push_gen(out, Gen::Str(doc_belongs_to(mn.as_str(), fnm.as_str()))); }
    push_code(out, "] pub fn ");
    push_gen(out, Gen::Text(field_ident_at_exec(model, syms, k)));
    push_code(out, "(&self) -> <");
    push_gen(out, Gen::FieldTy(k));
    push_code(out, " as _toasty::codegen_support::RelationOneField>::One { if false { let _ = &self.");
    push_gen(out, Gen::Text(field_ident_at_exec(model, syms, k)));
    push_code(out, "; ");
    push_fk_suppress(out, model, syms, k);
    push_code(out, "} <");
    push_gen(out, Gen::FieldTy(k));
    push_code(out, " as _toasty::codegen_support::RelationOneField>::make_one(<");
    push_gen(out, Gen::FieldTy(k));
    push_code(out, " as _toasty::codegen_support::RelationOneField>::Target::filter(");
    push_fk_filter(out, model, syms, k);
    push_code(out, ")) } ");
    assert(gens_view(out@) =~= start + model_relation_out(model.view(), syms@, k, ModelRelation::BelongsTo));
}

#[verifier::spinoff_prover]
fn push_model_relation_hasmany(out: &mut Vec<Gen>, model: &Model, syms: &Vec<String>, k: usize)
    ensures
        gens_view(final(out)@) == gens_view(old(out)@) + model_relation_out(model.view(), syms@, k, ModelRelation::HasMany),
{
    let ghost start = gens_view(out@);
    push_code(out, "#[doc = ");
    { let mn = sym_string(syms, model.ident); let fnm = field_ident_at_exec(model, syms, k); push_gen(out, Gen::Str(doc_has_many(mn.as_str(), fnm.as_str()))); }
    push_code(out, "] pub fn ");
    push_gen(out, Gen::Text(field_ident_at_exec(model, syms, k)));
    push_code(out, "(&self) -> _toasty::codegen_support::QueryMany<<");
    push_gen(out, Gen::FieldTy(k));
    push_code(out, " as _toasty::codegen_support::RelationManyField>::Target> { if false { let _ = &self.");
    push_gen(out, Gen::Text(field_ident_at_exec(model, syms, k)));
    push_code(out, "; } { use _toasty::codegen_support::IntoStatement; <_toasty::codegen_support::QueryMany<<");
    push_gen(out, Gen::FieldTy(k));
    push_code(out, " as _toasty::codegen_support::RelationManyField>::Target>>::from_assoc_many(_toasty::codegen_support::stmt::Association::many(self.into_statement().into_query().unwrap().to_list(), \
        \
        Self::fields().");
    push_gen(out, Gen::Text(field_ident_at_exec(model, syms, k)));
    push_code(out, "().into(),),) } } ");
    assert(gens_view(out@) =~= start + model_relation_out(model.view(), syms@, k, ModelRelation::HasMany));
}

#[verifier::spinoff_prover]
fn push_model_relation_via(out: &mut Vec<Gen>, model: &Model, syms: &Vec<String>, k: usize)
    ensures
        gens_view(final(out)@) == gens_view(old(out)@) + model_relation_out(model.view(), syms@, k, ModelRelation::Via),
{
    let ghost start = gens_view(out@);
    push_code(out, "#[doc = ");
    { let mn = sym_string(syms, model.ident); let fnm = field_ident_at_exec(model, syms, k); push_gen(out, Gen::Str(doc_has_many_via(mn.as_str(), fnm.as_str()))); }
    push_code(out, "] pub fn ");
    push_gen(out, Gen::Text(field_ident_at_exec(model, syms, k)));
    push_code(out, "(&self) -> _toasty::codegen_support::ViaMany<");
    push_gen(out, Gen::FieldTy(k));
    push_code(out, "> { if false { let _ = &self.");
    push_gen(out, Gen::Text(field_ident_at_exec(model, syms, k)));
    push_code(out, "; } { use _toasty::codegen_support::IntoStatement; let __source = self.into_statement().into_query().unwrap().to_list(); \
        let __assoc = _toasty::codegen_support::stmt::Association::from_source_and_path(__source, Self::fields().");
    push_gen(out, Gen::Text(field_ident_at_exec(model, syms, k)));
    push_code(out, "().into(),); <<");
    push_gen(out, Gen::FieldTy(k));
    push_code(out, " as _toasty::codegen_support::ViaManyField>::Target as _toasty::codegen_support::ViaTarget>::make_via_query(__assoc) } } ");
    assert(gens_view(out@) =~= start + model_relation_out(model.view(), syms@, k, ModelRelation::Via));
}

#[verifier::spinoff_prover]
fn push_model_relation_hasone(out: &mut Vec<Gen>, model: &Model, syms: &Vec<String>, k: usize)
    ensures
        gens_view(final(out)@) == gens_view(old(out)@) + model_relation_out(model.view(), syms@, k, ModelRelation::HasOne),
{
    let ghost start = gens_view(out@);
    push_code(out, "#[doc = ");
    { let mn = sym_string(syms, model.ident); let fnm = field_ident_at_exec(model, syms, k); push_gen(out, Gen::Str(doc_has_one(mn.as_str(), fnm.as_str()))); }
    push_code(out, "] pub fn ");
    push_gen(out, Gen::Text(field_ident_at_exec(model, syms, k)));
    push_code(out, "(&self) -> <");
    push_gen(out, Gen::FieldTy(k));
    push_code(out, " as _toasty::codegen_support::RelationOneField>::One { if false { let _ = &self.");
    push_gen(out, Gen::Text(field_ident_at_exec(model, syms, k)));
    push_code(out, "; } { use _toasty::codegen_support::IntoStatement; let assoc = _toasty::codegen_support::stmt::Association::one(self.into_statement().into_query().unwrap().to_list(), \
        \
        Self::fields().");
    push_gen(out, Gen::Text(field_ident_at_exec(model, syms, k)));
    push_code(out, "().into(),); let query = <<");
    push_gen(out, Gen::FieldTy(k));
    push_code(out, " as _toasty::codegen_support::RelationOneField>::Target as _toasty::codegen_support::Model>::wrap_query(assoc.into_statement().into_query().unwrap(),); \
        \
        <");
    push_gen(out, Gen::FieldTy(k));
    push_code(out, " as _toasty::codegen_support::RelationOneField>::make_one(query) } } ");
    assert(gens_view(out@) =~= start + model_relation_out(model.view(), syms@, k, ModelRelation::HasOne));
}


fn push_model_relations(out: &mut Vec<Gen>, model: &Model, syms: &Vec<String>, ks: &Vec<(usize, ModelRelation)>)
    ensures
        gens_view(final(out)@) == gens_view(old(out)@) + model_relations_out(model.view(), syms@, ks@),
{
    let ghost start = gens_view(out@);
    let ghost m = model.view();
    let mut i: usize = 0;
    while i < ks.len()
        invariant
            i <= ks@.len(),
            m == model.view(),
            gens_view(out@) == start + model_relations_out(m, syms@, ks@.subrange(0, i as int)),
        decreases ks.len() - i,
    {
        push_model_relation(out, model, syms, ks[i].0, ks[i].1);
        assert(ks@.subrange(0, i + 1).drop_last() =~= ks@.subrange(0, i as int));
        i = i + 1;
        assert(gens_view(out@) =~= start + model_relations_out(m, syms@, ks@.subrange(0, i as int)));
    }
    assert(ks@.subrange(0, i as int) =~= ks@);
}

fn reserved_names() -> (r: Vec<String>)
    ensures
        r@.map_values(|s: String| s@) == model_reserved(),
{
    let mut out: Vec<String> = Vec::new();
    out.push(string_of("fields"));
    out.push(string_of("create"));
    out.push(string_of("create_many"));
    out.push(string_of("update"));
    out.push(string_of("all"));
    out.push(string_of("filter"));
    out.push(string_of("delete"));
    assert(out@.map_values(|s: String| s@) =~= model_reserved());
    out
}

/// The relation accessors of a model, in field order.
pub fn model_relations(model: &Model, syms: &Vec<String>) -> (r: Vec<(usize, ModelRelation)>)
    ensures
        r@ == model_relations_from(syms@, model.view().fields, model.fields@.len() as int),
{
    let reserved = reserved_names();
    let ghost rv = reserved@.map_values(|s: String| s@);
    let ghost fv = model.view().fields;
    let mut out: Vec<(usize, ModelRelation)> = Vec::new();
    let mut k: usize = 0;
    while k < model.fields.len()
        invariant
            k <= model.fields@.len(),
            fv == model.view().fields,
            fv.len() == model.fields@.len(),
            rv == reserved@.map_values(|s: String| s@),
            rv == model_reserved(),
            out@ == model_relations_from(syms@, fv, k as int),
        decreases model.fields.len() - k,
    {
        let f = &model.fields[k];
        assert(fv[k as int] == f.view());
        let name = field_name_string(syms, f.name);
        let taken = ident_is_reserved(name.as_str(), &reserved);
        proof {
            let t = strip_raw(field_name_src(syms@, f.name));
            if taken {
                let i = choose|i: int| 0 <= i < reserved@.len() && #[trigger] reserved@[i]@ == t;
                assert(rv[i] == t);
            } else if rv.contains(t) {
                let i = choose|i: int| 0 <= i < rv.len() && rv[i] == t;
                assert(reserved@[i]@ == t);
            }
        }
        if !taken {
            match &f.ty {
                FieldTy::Primitive => {},
                FieldTy::BelongsTo(_) => out.push((k, ModelRelation::BelongsTo)),
                FieldTy::HasMany(h) => {
                    if h.rel.via.is_some() {
                        out.push((k, ModelRelation::Via));
                    } else {
                        out.push((k, ModelRelation::HasMany));
                    }
                },
                FieldTy::HasOne(_) => out.push((k, ModelRelation::HasOne)),
            }
        }
        k = k + 1;
    }
    out
}

/// The inherent methods of a root model.
#[verifier::rlimit(100)]
#[verifier::spinoff_prover]
pub fn expand_model_methods(model: &Model, filters: &Vec<Filter>, syms: &Vec<String>) -> (r: Vec<Gen>)
    requires
        filters_fit(model.view(), filters_view(filters@)),
    ensures
        gens_view(r@) == model_methods_out(model.view(), filters_view(filters@), syms@),
{
    proof {
        reveal(model_methods_out);
    }
    let ghost m = model.view();
    let ghost fs = filters_view(filters@);
    let rels = model_relations(model, syms);
    let mut out: Vec<Gen> = Vec::new();
    proof {
        crate::gen::lemma_gens_empty(out@);
    }

    push_code(&mut out, "impl ");
    push_gen(&mut out, Gen::Sym(model.ident));
    push_code(&mut out, " { #[doc = ");
    { let mn = sym_string(syms, model.ident); push_gen(&mut out, Gen::Str(doc_fields(mn.as_str()))); }
    push_code(&mut out, "] pub fn fields() -> ");
    push_gen(&mut out, Gen::Text(concat(sym_string(syms, model.ident).as_str(), "Fields")));
    push_code(&mut out, "<");
    push_gen(&mut out, Gen::Sym(model.ident));
    push_code(&mut out, "> { ");
    push_gen(&mut out, Gen::Text(concat(sym_string(syms, model.ident).as_str(), "Fields")));
    push_code(&mut out, " { path: <");
    push_gen(&mut out, Gen::Sym(model.ident));
    push_code(&mut out, " as _toasty::codegen_support::Model>::path_root(), } } ");
    push_static_filters(&mut out, model, syms, filters);
    push_model_relations(&mut out, model, syms, &rels);
    if !has_item_parent_exec(model) {
        push_top_create(&mut out, model, syms);
    }
    push_code(&mut out, "pub fn create_many() -> _toasty::codegen_support::stmt::CreateMany<");
    push_gen(&mut out, Gen::Sym(model.ident));
    push_code(&mut out, "> { _toasty::codegen_support::stmt::CreateMany::default() } pub fn all() -> ");
    push_gen(&mut out, Gen::Text(concat(sym_string(syms, model.ident).as_str(), "Query")));
    push_code(&mut out, " { ");
    push_gen(&mut out, Gen::Text(concat(sym_string(syms, model.ident).as_str(), "Query")));
    push_code(&mut out, "::default() } pub fn filter(expr: _toasty::codegen_support::stmt::Expr<bool>) -> ");
    push_gen(&mut out, Gen::Text(concat(sym_string(syms, model.ident).as_str(), "Query")));
    push_code(&mut out, " { ");
    push_gen(&mut out, Gen::Text(concat(sym_string(syms, model.ident).as_str(), "Query")));
    push_code(&mut out, "::from_stmt(_toasty::codegen_support::stmt::Query::all().filter(expr)) } } ");
    assert(gens_view(out@) =~= model_methods_out(m, fs, syms@));
    out
}

} // verus!
