//! The query struct of a root model: the builder that `Model::all()`,
//! `Model::filter(..)` and relation accessors return, with the list
//! query's filter methods and relation accessors.
use vstd::prelude::*;

use crate::filters::{add_main, add_suffixes, filters_view, method_ident, method_ident_text, model_filters, recurse_fields, Filter, FilterV};
use crate::gen::{c, field_ident_at, field_ident_at_exec, gens_view, push_code, push_gen, Gen, GenV};
use crate::query_methods::{list_relations, list_relations_from, ListRelation};
use crate::schema::field::FieldV;
use crate::schema::model::{Model, ModelV};
use crate::text::concat;
use crate::tokens::{sym_string, sym_text};

verus! {

/// One per-field piece of a filter method.
#[derive(Clone, Copy, PartialEq, Eq, Debug, Structural)]
pub enum ArgPiece {
    /// The parameter `name: impl IntoExpr<Ty>`.
    Arg,
    /// The argument `name`.
    Ident,
    /// The condition `Model::fields().name().eq(name)`.
    Eq,
}

pub open spec fn arg_piece_out(m: ModelV, syms: Seq<String>, k: usize, kind: ArgPiece) -> Seq<GenV> {
    match kind {
        ArgPiece::Arg => seq![GenV::Text(field_ident_at(syms, m.fields, k as int))]
            + c(": impl _toasty::codegen_support::IntoExpr<"@)
            + seq![GenV::FieldTy(k)]
            + c(">"@),
        ArgPiece::Ident => seq![GenV::Text(field_ident_at(syms, m.fields, k as int))],
        ArgPiece::Eq => seq![GenV::Sym(m.ident)]
            + c("::fields()."@)
            + seq![GenV::Text(field_ident_at(syms, m.fields, k as int))]
            + c("().eq("@)
            + seq![GenV::Text(field_ident_at(syms, m.fields, k as int))]
            + c(")"@),
    }
}

/// The pieces of the first `n` fields of a filter, separated by commas.
pub open spec fn arg_pieces_out(m: ModelV, syms: Seq<String>, fs: Seq<usize>, kind: ArgPiece, n: int) -> Seq<GenV>
    decreases n,
{
    if n <= 0 {
        Seq::empty()
    } else {
        arg_pieces_out(m, syms, fs, kind, n - 1) + (if n > 1 { c(", "@) } else { Seq::empty() }) + arg_piece_out(m, syms, fs[n - 1], kind)
    }
}

/// The condition of a filter: the one field's equality, or all of them.
pub open spec fn filter_expr_out(m: ModelV, syms: Seq<String>, fs: Seq<usize>) -> Seq<GenV> {
    if fs.len() == 1 {
        arg_pieces_out(m, syms, fs, ArgPiece::Eq, 1)
    } else {
        c("_toasty::codegen_support::stmt::Expr::and_all([ "@) + arg_pieces_out(m, syms, fs, ArgPiece::Eq, fs.len() as int) + c(" ])"@)
    }
}

pub open spec fn filter_get_out(m: ModelV, syms: Seq<String>, f: FilterV) -> Seq<GenV> {
    c("pub async fn "@)
        + seq![GenV::Text(method_ident_text(syms, m.fields, f.fields, "get"@))]
        + c("(self, executor: &mut dyn _toasty::codegen_support::Executor, "@)
        + arg_pieces_out(m, syms, f.fields, ArgPiece::Arg, f.fields.len() as int)
        + c(") -> _toasty::codegen_support::Result<"@)
        + seq![GenV::Sym(m.ident)]
        + c("> { self."@)
        + seq![GenV::Text(method_ident_text(syms, m.fields, f.fields, "filter"@))]
        + c("("@)
        + arg_pieces_out(m, syms, f.fields, ArgPiece::Ident, f.fields.len() as int)
        + c(").get(executor).await } "@)
}

pub open spec fn filter_update_out(m: ModelV, syms: Seq<String>, f: FilterV) -> Seq<GenV> {
    c("pub fn "@)
        + seq![GenV::Text(method_ident_text(syms, m.fields, f.fields, "update"@))]
        + c("(self, "@)
        + arg_pieces_out(m, syms, f.fields, ArgPiece::Arg, f.fields.len() as int)
        + c(") -> "@)
        + seq![GenV::Text(sym_text(syms, m.ident as int) + "Update"@)]
        + c(" { self."@)
        + seq![GenV::Text(method_ident_text(syms, m.fields, f.fields, "filter"@))]
        + c("("@)
        + arg_pieces_out(m, syms, f.fields, ArgPiece::Ident, f.fields.len() as int)
        + c(").update() } "@)
}

pub open spec fn filter_delete_out(m: ModelV, syms: Seq<String>, f: FilterV) -> Seq<GenV> {
    c("pub async fn "@)
        + seq![GenV::Text(method_ident_text(syms, m.fields, f.fields, "delete"@))]
        + c("(self, executor: &mut dyn _toasty::codegen_support::Executor, "@)
        + arg_pieces_out(m, syms, f.fields, ArgPiece::Arg, f.fields.len() as int)
        + c(") -> _toasty::codegen_support::Result<()> { self."@)
        + seq![GenV::Text(method_ident_text(syms, m.fields, f.fields, "filter"@))]
        + c("("@)
        + arg_pieces_out(m, syms, f.fields, ArgPiece::Ident, f.fields.len() as int)
        + c(").delete().exec(executor).await } "@)
}

pub open spec fn filter_filter_out(m: ModelV, syms: Seq<String>, f: FilterV) -> Seq<GenV> {
    c("pub fn "@)
        + seq![GenV::Text(method_ident_text(syms, m.fields, f.fields, "filter"@))]
        + c("(self, "@)
        + arg_pieces_out(m, syms, f.fields, ArgPiece::Arg, f.fields.len() as int)
        + c(") -> "@)
        + seq![GenV::Text(sym_text(syms, m.ident as int) + "Query"@)]
        + c(" { "@)
        + seq![GenV::Text(sym_text(syms, m.ident as int) + "Query"@)]
        + c("::from_stmt({ use _toasty::codegen_support::IntoStatement; self.into_statement().into_query().unwrap() }).filter("@)
        + filter_expr_out(m, syms, f.fields)
        + c(") } "@)
}

/// The `get_by_*`, `update_by_*`, `delete_by_*` and `filter_by_*` methods
/// of one filter on the list query.
pub open spec fn relation_filter_out(m: ModelV, syms: Seq<String>, f: FilterV) -> Seq<GenV> {
    filter_get_out(m, syms, f) + filter_update_out(m, syms, f) + filter_delete_out(m, syms, f) + filter_filter_out(m, syms, f)
}

pub open spec fn relation_filters_out(m: ModelV, syms: Seq<String>, fs: Seq<FilterV>) -> Seq<GenV>
    decreases fs.len(),
{
    if fs.len() == 0 { Seq::empty() } else { relation_filters_out(m, syms, fs.drop_last()) + relation_filter_out(m, syms, fs.last()) }
}

/// The position recorded in the field at `k` (none past the end).
pub open spec fn field_id_at(fields: Seq<FieldV>, k: int) -> usize {
    if 0 <= k < fields.len() { fields[k].id } else { 0 }
}

fn field_id_at_exec(model: &Model, k: usize) -> (r: usize)
    ensures
        r == field_id_at(model.view().fields, k as int),
{
    if k < model.fields.len() {
        assert(model.view().fields[k as int] == model.fields@[k as int].view());
        model.fields[k].id
    } else {
        0
    }
}

/// The accessor on the list query of the relation field at `k`.
pub open spec fn relation_method_out(m: ModelV, syms: Seq<String>, k: usize, kind: ListRelation) -> Seq<GenV> {
    match kind {
        ListRelation::One => c("pub fn "@)
            + seq![GenV::Text(field_ident_at(syms, m.fields, k as int))]
            + c("(self) -> _toasty::codegen_support::QueryMany<<"@)
            + seq![GenV::FieldTy(k)]
            + c(" as _toasty::codegen_support::RelationOneField>::Target> { let assoc = _toasty::codegen_support::chain_or_build_many_via_one::<"@)
            + seq![GenV::Sym(m.ident)]
            + c(", <"@)
            + seq![GenV::FieldTy(k)]
            + c(" as _toasty::codegen_support::RelationOneField>::Target>(self.stmt, "@)
            + seq![GenV::Int(field_id_at(m.fields, k as int))]
            + c(", "@)
            + seq![GenV::Sym(m.ident)]
            + c("::fields()."@)
            + seq![GenV::Text(field_ident_at(syms, m.fields, k as int))]
            + c("().into()); <_toasty::codegen_support::QueryMany<<"@)
            + seq![GenV::FieldTy(k)]
            + c(" as _toasty::codegen_support::RelationOneField>::Target>>::from_assoc_many(assoc) } "@),
        ListRelation::Many => c("pub fn "@)
            + seq![GenV::Text(field_ident_at(syms, m.fields, k as int))]
            + c("(self) -> _toasty::codegen_support::QueryMany<<"@)
            + seq![GenV::FieldTy(k)]
            + c(" as _toasty::codegen_support::RelationManyField>::Target> { let assoc = _toasty::codegen_support::chain_or_build_many::<"@)
            + seq![GenV::Sym(m.ident)]
            + c(", <"@)
            + seq![GenV::FieldTy(k)]
            + c(" as _toasty::codegen_support::RelationManyField>::Target>(self.stmt, "@)
            + seq![GenV::Int(field_id_at(m.fields, k as int))]
            + c(", "@)
            + seq![GenV::Sym(m.ident)]
            + c("::fields()."@)
            + seq![GenV::Text(field_ident_at(syms, m.fields, k as int))]
            + c("().into()); <_toasty::codegen_support::QueryMany<<"@)
            + seq![GenV::FieldTy(k)]
            + c(" as _toasty::codegen_support::RelationManyField>::Target>>::from_assoc_many(assoc) } "@),
        ListRelation::Via => c("pub fn "@)
            + seq![GenV::Text(field_ident_at(syms, m.fields, k as int))]
            + c("(self) -> _toasty::codegen_support::ViaMany<"@)
            + seq![GenV::FieldTy(k)]
            + c("> { let __assoc = _toasty::codegen_support::stmt::Association::from_source_and_path(self.stmt, "@)
            + seq![GenV::Sym(m.ident)]
            + c("::fields()."@)
            + seq![GenV::Text(field_ident_at(syms, m.fields, k as int))]
            + c("().into()); <<"@)
            + seq![GenV::FieldTy(k)]
            + c(" as _toasty::codegen_support::ViaManyField>::Target as _toasty::codegen_support::ViaTarget>::make_via_query(__assoc) } "@),
    }
}

pub open spec fn relation_methods_out(m: ModelV, syms: Seq<String>, ks: Seq<(usize, ListRelation)>) -> Seq<GenV>
    decreases ks.len(),
{
    if ks.len() == 0 { Seq::empty() } else { relation_methods_out(m, syms, ks.drop_last()) + relation_method_out(m, syms, ks.last().0, ks.last().1) }
}

pub open spec fn include_out(m: ModelV) -> Seq<GenV> {
    c("pub fn include<__toasty_T>(self, include: impl _toasty::codegen_support::Into<_toasty::codegen_support::stmt::Include<"@)
        + seq![GenV::Sym(m.ident)]
        + c(", __toasty_T>>) -> Self { Self { stmt: self.stmt.include(include.into()) } } "@)
}

/// The query struct of a root model: a query returning a list, one record
/// or an optional record, with the list query's filter and relation
/// methods.
#[verifier::opaque]
pub open spec fn query_struct_out(m: ModelV, fs: Seq<FilterV>, syms: Seq<String>) -> Seq<GenV> {
    c("pub struct "@)
        + seq![GenV::Text(sym_text(syms, m.ident as int) + "Query"@)]
        + c("<__T = _toasty::codegen_support::List<"@)
        + seq![GenV::Sym(m.ident)]
        + c(">> { stmt: _toasty::codegen_support::stmt::Query<__T>, } impl<__T> _toasty::codegen_support::Clone for "@)
        + seq![GenV::Text(sym_text(syms, m.ident as int) + "Query"@)]
        + c("<__T> { fn clone(&self) -> Self { Self { stmt: self.stmt.clone(), } } } impl<__T> "@)
        + seq![GenV::Text(sym_text(syms, m.ident as int) + "Query"@)]
        + c("<__T> { pub "@)
        + c("const"@)
        + c(" fn from_stmt(stmt: _toasty::codegen_support::stmt::Query<__T>) -> Self { Self { stmt } } "@)
        + include_out(m)
        + c("pub async fn exec(self, executor: &mut dyn _toasty::codegen_support::Executor) -> _toasty::codegen_support::Result<__T::Output> \
            where __T: _toasty::codegen_support::Load, { use _toasty::codegen_support::IntoStatement; \
            executor.exec(self.stmt.into_statement()).await } } impl<__T> "@)
        + seq![GenV::Text(sym_text(syms, m.ident as int) + "Query"@)]
        + c("<__T> where _toasty::codegen_support::stmt::Query<__T>: _toasty::codegen_support::stmt::IntoScope<"@)
        + seq![GenV::Sym(m.ident)]
        + c(">, { pub fn create(self) -> "@)
        + seq![GenV::Text(sym_text(syms, m.ident as int) + "Create"@)]
        + c(" { let mut builder = "@)
        + seq![GenV::Text(sym_text(syms, m.ident as int) + "Create"@)]
        + c("::default(); builder.stmt.set_scope(self.stmt); builder } } impl "@)
        + seq![GenV::Text(sym_text(syms, m.ident as int) + "Query"@)]
        + c("<_toasty::codegen_support::List<"@)
        + seq![GenV::Sym(m.ident)]
        + c(">> { #[doc = \" Construct a list query from a many-style association.\"] #[doc(hidden)] \
            pub fn from_assoc_many(assoc: _toasty::codegen_support::stmt::Association<_toasty::codegen_support::List<"@)
        + seq![GenV::Sym(m.ident)]
        + c(">>) -> Self { use _toasty::codegen_support::IntoStatement; let stmt = assoc.into_statement().into_query().unwrap(); Self { stmt } } "@)
        + relation_filters_out(m, syms, fs)
        + c("pub fn first(self) -> "@)
        + seq![GenV::Text(sym_text(syms, m.ident as int) + "Query"@)]
        + c("<_toasty::codegen_support::Option<"@)
        + seq![GenV::Sym(m.ident)]
        + c(">> { "@)
        + seq![GenV::Text(sym_text(syms, m.ident as int) + "Query"@)]
        + c(" { stmt: self.stmt.first(), } } pub fn one(self) -> "@)
        + seq![GenV::Text(sym_text(syms, m.ident as int) + "Query"@)]
        + c("<"@)
        + seq![GenV::Sym(m.ident)]
        + c("> { "@)
        + seq![GenV::Text(sym_text(syms, m.ident as int) + "Query"@)]
        + c(" { stmt: self.stmt.one(), } } pub async fn get(self, executor: &mut dyn _toasty::codegen_support::Executor) -> _toasty::codegen_support::Result<"@)
        + seq![GenV::Sym(m.ident)]
        + c("> { self.one().exec(executor).await } pub fn update(self) -> "@)
        + seq![GenV::Text(sym_text(syms, m.ident as int) + "Update"@)]
        + c(" { "@)
        + seq![GenV::Text(sym_text(syms, m.ident as int) + "Update"@)]
        + c("::from(self.stmt) } pub fn count(self) -> _toasty::codegen_support::stmt::Query<u64> { self.stmt.count() \
            } pub fn select<__E, __U>(self, projection: __E) -> _toasty::codegen_support::stmt::Query<_toasty::codegen_support::List<__U>> \
            where __E: _toasty::codegen_support::IntoExpr<__U>, __U: _toasty::codegen_support::Load, \
            { self.stmt.select(projection) } pub fn delete(self) -> _toasty::codegen_support::stmt::Delete<()> \
            { self.stmt.delete() } pub fn paginate(self, per_page: usize) -> _toasty::codegen_support::stmt::Paginate<"@)
        + seq![GenV::Sym(m.ident)]
        + c("> { _toasty::codegen_support::stmt::Paginate::new(self.stmt, per_page) } pub fn filter(self, \
            expr: _toasty::codegen_support::stmt::Expr<bool>) -> Self { Self { stmt: self.stmt.filter(expr), \
            } } pub fn order_by(self, order_by: impl Into<_toasty::codegen_support::stmt::OrderBy>) -> \
            Self { Self { stmt: self.stmt.order_by(order_by), } } pub fn latest_by<__toasty_T>(self, \
            field: _toasty::codegen_support::stmt::Path<"@)
        + seq![GenV::Sym(m.ident)]
        + c(", __toasty_T>) -> Self { Self { stmt: self.stmt.latest_by(field), } } pub fn limit(self, \
            n: usize) -> Self { Self { stmt: self.stmt.limit(n), } } pub fn offset(self, n: usize) -> \
            Self { Self { stmt: self.stmt.offset(n), } } #[doc = \" Returns a builder that will add an \
            item to the relation this query was scoped\"] #[doc = \" from only on execution.\"] pub fn \
            insert(self, item: impl _toasty::codegen_support::IntoExpr<"@)
        + seq![GenV::Sym(m.ident)]
        + c(">) -> _toasty::codegen_support::stmt::RelationInsert<"@)
        + seq![GenV::Sym(m.ident)]
        + c("> { self.stmt.insert(item) } #[doc = \" Returns a builder that will remove an item from \
            the relation this query was scoped\"] #[doc = \" from only on execution.\"] pub fn remove(self, \
            item: impl _toasty::codegen_support::IntoExpr<"@)
        + seq![GenV::Sym(m.ident)]
        + c(">) -> _toasty::codegen_support::stmt::RelationRemove<"@)
        + seq![GenV::Sym(m.ident)]
        + c("> { self.stmt.remove(item) } "@)
        + relation_methods_out(m, syms, list_relations_from(syms, m.fields, m.fields.len() as int))
        + c("} impl<__T> _toasty::codegen_support::IntoStatement for "@)
        + seq![GenV::Text(sym_text(syms, m.ident as int) + "Query"@)]
        + c("<__T> { type Returning = __T; fn into_statement(self) -> _toasty::codegen_support::Statement<__T> \
            { use _toasty::codegen_support::IntoStatement; self.stmt.into_statement() } } impl<__T> _toasty::codegen_support::IntoStatement \
            for &"@)
        + seq![GenV::Text(sym_text(syms, m.ident as int) + "Query"@)]
        + c("<__T> { type Returning = __T; fn into_statement(self) -> _toasty::codegen_support::Statement<__T> \
            { use _toasty::codegen_support::IntoStatement; self.stmt.clone().into_statement() } } impl \
            _toasty::codegen_support::stmt::IntoScope<"@)
        + seq![GenV::Sym(m.ident)]
        + c("> for "@)
        + seq![GenV::Text(sym_text(syms, m.ident as int) + "Query"@)]
        + c("<_toasty::codegen_support::List<"@)
        + seq![GenV::Sym(m.ident)]
        + c(">> { fn into_scope(self) -> _toasty::codegen_support::Statement<_toasty::codegen_support::List<"@)
        + seq![GenV::Sym(m.ident)]
        + c(">> { use _toasty::codegen_support::stmt::IntoScope; self.stmt.into_scope() } } impl _toasty::codegen_support::stmt::IntoScope<"@)
        + seq![GenV::Sym(m.ident)]
        + c("> for &"@)
        + seq![GenV::Text(sym_text(syms, m.ident as int) + "Query"@)]
        + c("<_toasty::codegen_support::List<"@)
        + seq![GenV::Sym(m.ident)]
        + c(">> { fn into_scope(self) -> _toasty::codegen_support::Statement<_toasty::codegen_support::List<"@)
        + seq![GenV::Sym(m.ident)]
        + c(">> { use _toasty::codegen_support::stmt::IntoScope; self.stmt.clone().into_scope() } } impl _toasty::codegen_support::stmt::IntoScope<"@)
        + seq![GenV::Sym(m.ident)]
        + c("> for "@)
        + seq![GenV::Text(sym_text(syms, m.ident as int) + "Query"@)]
        + c("<"@)
        + seq![GenV::Sym(m.ident)]
        + c("> { fn into_scope(self) -> _toasty::codegen_support::Statement<_toasty::codegen_support::List<"@)
        + seq![GenV::Sym(m.ident)]
        + c(">> { use _toasty::codegen_support::stmt::IntoScope; self.stmt.into_scope() } } impl _toasty::codegen_support::stmt::IntoScope<"@)
        + seq![GenV::Sym(m.ident)]
        + c("> for "@)
        + seq![GenV::Text(sym_text(syms, m.ident as int) + "Query"@)]
        + c("<_toasty::codegen_support::Option<"@)
        + seq![GenV::Sym(m.ident)]
        + c(">> { fn into_scope(self) -> _toasty::codegen_support::Statement<_toasty::codegen_support::List<"@)
        + seq![GenV::Sym(m.ident)]
        + c(">> { use _toasty::codegen_support::stmt::IntoScope; self.stmt.into_scope() } } impl _toasty::codegen_support::Default for "@)
        + seq![GenV::Text(sym_text(syms, m.ident as int) + "Query"@)]
        + c("<_toasty::codegen_support::List<"@)
        + seq![GenV::Sym(m.ident)]
        + c(">> { fn default() -> Self { Self { stmt: _toasty::codegen_support::stmt::Query::all(), } \
            } } #[diagnostic::do_not_recommend] impl _toasty::codegen_support::Scope for "@)
        + seq![GenV::Text(sym_text(syms, m.ident as int) + "Query"@)]
        + c("<_toasty::codegen_support::List<"@)
        + seq![GenV::Sym(m.ident)]
        + c(">> { type Item = _toasty::codegen_support::List<"@)
        + seq![GenV::Sym(m.ident)]
        + c(">; type Path<__Origin> = "@)
        + seq![GenV::Text(sym_text(syms, m.ident as int) + "ListFields"@)]
        + c("<__Origin>; type Create = "@)
        + seq![GenV::Text(sym_text(syms, m.ident as int) + "Create"@)]
        + c("; fn new_path<__Origin>(path: _toasty::codegen_support::Path<__Origin, Self::Item>) -> Self::Path<__Origin> { "@)
        + seq![GenV::Text(sym_text(syms, m.ident as int) + "ListFields"@)]
        + c("::from_path(path) } fn new_create() -> Self::Create { "@)
        + seq![GenV::Text(sym_text(syms, m.ident as int) + "Create"@)]
        + c("::default() } fn new_path_root() -> Self::Path<Self::Item> { "@)
        + seq![GenV::Text(sym_text(syms, m.ident as int) + "ListFields"@)]
        + c("::from_path(<"@)
        + seq![GenV::Sym(m.ident)]
        + c(" as _toasty::codegen_support::Model>::path_model_list()) } fn create_in_scope(self) -> Self::Create \
            { Self::create(self) } } #[diagnostic::do_not_recommend] impl _toasty::codegen_support::Scope \
            for "@)
        + seq![GenV::Text(sym_text(syms, m.ident as int) + "Query"@)]
        + c("<"@)
        + seq![GenV::Sym(m.ident)]
        + c("> { type Item = "@)
        + seq![GenV::Sym(m.ident)]
        + c("; type Path<__Origin> = "@)
        + seq![GenV::Text(sym_text(syms, m.ident as int) + "Fields"@)]
        + c("<__Origin>; type Create = "@)
        + seq![GenV::Text(sym_text(syms, m.ident as int) + "Create"@)]
        + c("; fn new_path<__Origin>(path: _toasty::codegen_support::Path<__Origin, Self::Item>) -> Self::Path<__Origin> { "@)
        + seq![GenV::Text(sym_text(syms, m.ident as int) + "Fields"@)]
        + c("::from_path(path) } fn new_create() -> Self::Create { "@)
        + seq![GenV::Text(sym_text(syms, m.ident as int) + "Create"@)]
        + c("::default() } fn new_path_root() -> Self::Path<Self::Item> { "@)
        + seq![GenV::Text(sym_text(syms, m.ident as int) + "Fields"@)]
        + c("::from_path(<"@)
        + seq![GenV::Sym(m.ident)]
        + c(" as _toasty::codegen_support::Model>::path_root()) } fn create_in_scope(self) -> Self::Create \
            { Self::create(self) } } #[diagnostic::do_not_recommend] impl _toasty::codegen_support::Scope \
            for "@)
        + seq![GenV::Text(sym_text(syms, m.ident as int) + "Query"@)]
        + c("<_toasty::codegen_support::Option<"@)
        + seq![GenV::Sym(m.ident)]
        + c(">> { type Item = "@)
        + seq![GenV::Sym(m.ident)]
        + c("; type Path<__Origin> = "@)
        + seq![GenV::Text(sym_text(syms, m.ident as int) + "Fields"@)]
        + c("<__Origin>; type Create = "@)
        + seq![GenV::Text(sym_text(syms, m.ident as int) + "Create"@)]
        + c("; fn new_path<__Origin>(path: _toasty::codegen_support::Path<__Origin, Self::Item>) -> Self::Path<__Origin> { "@)
        + seq![GenV::Text(sym_text(syms, m.ident as int) + "Fields"@)]
        + c("::from_path(path) } fn new_create() -> Self::Create { "@)
        + seq![GenV::Text(sym_text(syms, m.ident as int) + "Create"@)]
        + c("::default() } fn new_path_root() -> Self::Path<Self::Item> { "@)
        + seq![GenV::Text(sym_text(syms, m.ident as int) + "Fields"@)]
        + c("::from_path(<"@)
        + seq![GenV::Sym(m.ident)]
        + c(" as _toasty::codegen_support::Model>::path_root()) } fn create_in_scope(self) -> Self::Create { Self::create(self) } } "@)
}

/// Every filter is on fields of the model, all of them plain (a filter
/// method takes each argument by the field's plain type).
pub open spec fn filters_fit(m: ModelV, fs: Seq<FilterV>) -> bool {
    forall|i: int, j: int| 0 <= i < fs.len() && 0 <= j < fs[i].fields.len() ==>
        (#[trigger] fs[i].fields[j]) < m.fields.len() && m.fields[fs[i].fields[j] as int].ty is Primitive
}

/// The fields `fs` are plain fields of the model.
pub open spec fn fields_fit(m: ModelV, fs: Seq<usize>) -> bool {
    forall|j: int| 0 <= j < fs.len() ==> (#[trigger] fs[j]) < m.fields.len() && m.fields[fs[j] as int].ty is Primitive
}

proof fn lemma_fit_from_each(m: ModelV, st: Seq<FilterV>)
    requires
        forall|i: int| 0 <= i < st.len() ==> fields_fit(m, #[trigger] st[i].fields),
    ensures
        filters_fit(m, st),
{
    assert forall|i: int, j: int| 0 <= i < st.len() && 0 <= j < st[i].fields.len() implies
        (#[trigger] st[i].fields[j]) < m.fields.len() && m.fields[st[i].fields[j] as int].ty is Primitive by {
        assert(fields_fit(m, st[i].fields));
    }
}

proof fn lemma_add_suffixes_fit(m: ModelV, st: Seq<FilterV>, fs: Seq<usize>, i: int)
    requires
        forall|t: int| 0 <= t < st.len() ==> fields_fit(m, #[trigger] st[t].fields),
        fields_fit(m, fs),
    ensures
        forall|t: int| 0 <= t < add_suffixes(st, fs, i).len() ==> fields_fit(m, #[trigger] add_suffixes(st, fs, i)[t].fields),
    decreases fs.len() - i,
{
    if !(i >= fs.len() || i < 0) {
        let suffix = fs.subrange(i, fs.len() as int);
        assert(fields_fit(m, suffix)) by {
            assert forall|j: int| 0 <= j < suffix.len() implies (#[trigger] suffix[j]) < m.fields.len() && m.fields[suffix[j] as int].ty is Primitive by {
                assert(suffix[j] == fs[i + j]);
            }
        }
        let st1 = if crate::filters::filter_pos(st, suffix, 0) is None { st.push(FilterV { fields: suffix, only_relation: true }) } else { st };
        assert forall|t: int| 0 <= t < st1.len() implies fields_fit(m, #[trigger] st1[t].fields) by {
            if t < st.len() { assert(st1[t] == st[t]); }
        }
        lemma_add_suffixes_fit(m, st1, fs, i + 1);
        assert(add_suffixes(st, fs, i) == add_suffixes(st1, fs, i + 1));
    }
}

proof fn lemma_recurse_fit(m: ModelV, maxlen: int, prefix: Seq<usize>, k: int, st: Seq<FilterV>)
    requires
        forall|t: int| 0 <= t < st.len() ==> fields_fit(m, #[trigger] st[t].fields),
        fields_fit(m, prefix),
        m.fields.len() <= usize::MAX,
    ensures
        forall|t: int| 0 <= t < recurse_fields(m, maxlen, prefix, k, st).len() ==> fields_fit(m, #[trigger] recurse_fields(m, maxlen, prefix, k, st)[t].fields),
    decreases maxlen - prefix.len(), m.fields.len() - k,
{
    if !(k >= m.fields.len() || k < 0) {
        let fs = prefix.push(k as usize);
        if !(m.fields[k].ty is Primitive) || crate::filters::find_index_from(m.indices, fs, 0) is None || fs.len() > maxlen {
            lemma_recurse_fit(m, maxlen, prefix, k + 1, st);
            assert(recurse_fields(m, maxlen, prefix, k, st) == recurse_fields(m, maxlen, prefix, k + 1, st));
        } else {
            assert(fields_fit(m, fs)) by {
                assert forall|j: int| 0 <= j < fs.len() implies (#[trigger] fs[j]) < m.fields.len() && m.fields[fs[j] as int].ty is Primitive by {
                    if j < prefix.len() {
                        assert(fs[j] == prefix[j]);
                    } else {
                        assert(fs[j] == k as usize);
                        assert((k as usize) as int == k);
                    }
                }
            }
            let st1 = add_main(st, fs);
            crate::filters::lemma_filter_pos_found(st, fs, 0);
            assert forall|t: int| 0 <= t < st1.len() implies fields_fit(m, #[trigger] st1[t].fields) by {
                match crate::filters::filter_pos(st, fs, 0) {
                    Some(p) => {
                        if t != p {
                            assert(st1[t] == st[t]);
                        }
                    },
                    None => {
                        if t < st.len() {
                            assert(st1[t] == st[t]);
                        }
                    },
                }
            }
            lemma_add_suffixes_fit(m, st1, fs, 0);
            let st2 = add_suffixes(st1, fs, 0);
            lemma_recurse_fit(m, maxlen, fs, 0, st2);
            let st3 = recurse_fields(m, maxlen, fs, 0, st2);
            lemma_recurse_fit(m, maxlen, prefix, k + 1, st3);
            assert(recurse_fields(m, maxlen, prefix, k, st) == recurse_fields(m, maxlen, prefix, k + 1, st3));
        }
    }
}

/// The filters built for a model are on plain fields of it.
pub proof fn lemma_model_filters_fit(m: ModelV)
    requires
        m.fields.len() <= usize::MAX,
    ensures
        filters_fit(m, model_filters(m)),
{
    let e = Seq::<FilterV>::empty();
    let p = Seq::<usize>::empty();
    lemma_recurse_fit(m, crate::filters::max_index_len(m.indices), p, 0, e);
    lemma_fit_from_each(m, model_filters(m));
}

fn push_arg_piece(out: &mut Vec<Gen>, model: &Model, syms: &Vec<String>, k: usize, kind: ArgPiece)
    ensures
        gens_view(final(out)@) == gens_view(old(out)@) + arg_piece_out(model.view(), syms@, k, kind),
{
    let ghost start = gens_view(out@);
    match kind {
        ArgPiece::Arg => {
            push_gen(out, Gen::Text(field_ident_at_exec(model, syms, k)));
            push_code(out, ": impl _toasty::codegen_support::IntoExpr<");
            push_gen(out, Gen::FieldTy(k));
            push_code(out, ">");
        },
        ArgPiece::Ident => {
            push_gen(out, Gen::Text(field_ident_at_exec(model, syms, k)));
        },
        ArgPiece::Eq => {
            push_gen(out, Gen::Sym(model.ident));
            push_code(out, "::fields().");
            push_gen(out, Gen::Text(field_ident_at_exec(model, syms, k)));
            push_code(out, "().eq(");
            push_gen(out, Gen::Text(field_ident_at_exec(model, syms, k)));
            push_code(out, ")");
        },
    }
    assert(gens_view(out@) =~= start + arg_piece_out(model.view(), syms@, k, kind));
}

pub(crate) fn push_arg_pieces(out: &mut Vec<Gen>, model: &Model, syms: &Vec<String>, fs: &Vec<usize>, kind: ArgPiece)
    ensures
        gens_view(final(out)@) == gens_view(old(out)@) + arg_pieces_out(model.view(), syms@, fs@, kind, fs@.len() as int),
{
    let ghost start = gens_view(out@);
    let ghost m = model.view();
    let mut i: usize = 0;
    while i < fs.len()
        invariant
            i <= fs@.len(),
            m == model.view(),
            gens_view(out@) == start + arg_pieces_out(m, syms@, fs@, kind, i as int),
        decreases fs.len() - i,
    {
        let ghost before = gens_view(out@);
        if i > 0 {
            push_code(out, ", ");
        }
        push_arg_piece(out, model, syms, fs[i], kind);
        i = i + 1;
        assert(gens_view(out@) =~= start + arg_pieces_out(m, syms@, fs@, kind, i as int));
    }
}

pub(crate) fn push_filter_expr(out: &mut Vec<Gen>, model: &Model, syms: &Vec<String>, fs: &Vec<usize>)
    ensures
        gens_view(final(out)@) == gens_view(old(out)@) + filter_expr_out(model.view(), syms@, fs@),
{
    let ghost start = gens_view(out@);
    if fs.len() == 1 {
        push_arg_pieces(out, model, syms, fs, ArgPiece::Eq);
    } else {
        push_code(out, "_toasty::codegen_support::stmt::Expr::and_all([ ");
        push_arg_pieces(out, model, syms, fs, ArgPiece::Eq);
        push_code(out, " ])");
        assert(gens_view(out@) =~= start + filter_expr_out(model.view(), syms@, fs@));
    }
}

#[verifier::spinoff_prover]
fn push_filter_get(out: &mut Vec<Gen>, model: &Model, syms: &Vec<String>, f: &Filter)
    requires
        forall|j: int| 0 <= j < f.fields@.len() ==> #[trigger] f.fields@[j] < model.fields@.len(),
    ensures
        gens_view(final(out)@) == gens_view(old(out)@) + filter_get_out(model.view(), syms@, f.view()),
{
    let ghost start = gens_view(out@);
    push_code(out, "pub async fn ");
    push_gen(out, Gen::Text(method_ident(model, syms, &f.fields, "get")));
    push_code(out, "(self, executor: &mut dyn _toasty::codegen_support::Executor, ");
    push_arg_pieces(out, model, syms, &f.fields, ArgPiece::Arg);
    push_code(out, ") -> _toasty::codegen_support::Result<");
    push_gen(out, Gen::Sym(model.ident));
    push_code(out, "> { self.");
    push_gen(out, Gen::Text(method_ident(model, syms, &f.fields, "filter")));
    push_code(out, "(");
    push_arg_pieces(out, model, syms, &f.fields, ArgPiece::Ident);
    push_code(out, ").get(executor).await } ");
    assert(gens_view(out@) =~= start + filter_get_out(model.view(), syms@, f.view()));
}

#[verifier::spinoff_prover]
fn push_filter_update(out: &mut Vec<Gen>, model: &Model, syms: &Vec<String>, f: &Filter)
    requires
        forall|j: int| 0 <= j < f.fields@.len() ==> #[trigger] f.fields@[j] < model.fields@.len(),
    ensures
        gens_view(final(out)@) == gens_view(old(out)@) + filter_update_out(model.view(), syms@, f.view()),
{
    let ghost start = gens_view(out@);
    push_code(out, "pub fn ");
    push_gen(out, Gen::Text(method_ident(model, syms, &f.fields, "update")));
    push_code(out, "(self, ");
    push_arg_pieces(out, model, syms, &f.fields, ArgPiece::Arg);
    push_code(out, ") -> ");
    push_gen(out, Gen::Text(concat(sym_string(syms, model.ident).as_str(), "Update")));
    push_code(out, " { self.");
    push_gen(out, Gen::Text(method_ident(model, syms, &f.fields, "filter")));
    push_code(out, "(");
    push_arg_pieces(out, model, syms, &f.fields, ArgPiece::Ident);
    push_code(out, ").update() } ");
    assert(gens_view(out@) =~= start + filter_update_out(model.view(), syms@, f.view()));
}

#[verifier::spinoff_prover]
fn push_filter_delete(out: &mut Vec<Gen>, model: &Model, syms: &Vec<String>, f: &Filter)
    requires
        forall|j: int| 0 <= j < f.fields@.len() ==> #[trigger] f.fields@[j] < model.fields@.len(),
    ensures
        gens_view(final(out)@) == gens_view(old(out)@) + filter_delete_out(model.view(), syms@, f.view()),
{
    let ghost start = gens_view(out@);
    push_code(out, "pub async fn ");
    push_gen(out, Gen::Text(method_ident(model, syms, &f.fields, "delete")));
    push_code(out, "(self, executor: &mut dyn _toasty::codegen_support::Executor, ");
    push_arg_pieces(out, model, syms, &f.fields, ArgPiece::Arg);
    push_code(out, ") -> _toasty::codegen_support::Result<()> { self.");
    push_gen(out, Gen::Text(method_ident(model, syms, &f.fields, "filter")));
    push_code(out, "(");
    push_arg_pieces(out, model, syms, &f.fields, ArgPiece::Ident);
    push_code(out, ").delete().exec(executor).await } ");
    assert(gens_view(out@) =~= start + filter_delete_out(model.view(), syms@, f.view()));
}

#[verifier::spinoff_prover]
fn push_filter_filter(out: &mut Vec<Gen>, model: &Model, syms: &Vec<String>, f: &Filter)
    requires
        forall|j: int| 0 <= j < f.fields@.len() ==> #[trigger] f.fields@[j] < model.fields@.len(),
    ensures
        gens_view(final(out)@) == gens_view(old(out)@) + filter_filter_out(model.view(), syms@, f.view()),
{
    let ghost start = gens_view(out@);
    push_code(out, "pub fn ");
    push_gen(out, Gen::Text(method_ident(model, syms, &f.fields, "filter")));
    push_code(out, "(self, ");
    push_arg_pieces(out, model, syms, &f.fields, ArgPiece::Arg);
    push_code(out, ") -> ");
    push_gen(out, Gen::Text(concat(sym_string(syms, model.ident).as_str(), "Query")));
    push_code(out, " { ");
    push_gen(out, Gen::Text(concat(sym_string(syms, model.ident).as_str(), "Query")));
    push_code(out, "::from_stmt({ use _toasty::codegen_support::IntoStatement; self.into_statement().into_query().unwrap() }).filter(");
    push_filter_expr(out, model, syms, &f.fields);
    push_code(out, ") } ");
    assert(gens_view(out@) =~= start + filter_filter_out(model.view(), syms@, f.view()));
}

fn push_relation_filter(out: &mut Vec<Gen>, model: &Model, syms: &Vec<String>, f: &Filter)
    requires
        forall|j: int| 0 <= j < f.fields@.len() ==> #[trigger] f.fields@[j] < model.fields@.len(),
    ensures
        gens_view(final(out)@) == gens_view(old(out)@) + relation_filter_out(model.view(), syms@, f.view()),
{
    let ghost start = gens_view(out@);
    let ghost m = model.view();
    push_filter_get(out, model, syms, f);
    push_filter_update(out, model, syms, f);
    push_filter_delete(out, model, syms, f);
    push_filter_filter(out, model, syms, f);
    assert(gens_view(out@) =~= start + relation_filter_out(m, syms@, f.view()));
}

fn push_relation_filters(out: &mut Vec<Gen>, model: &Model, syms: &Vec<String>, fs: &Vec<Filter>)
    requires
        filters_fit(model.view(), filters_view(fs@)),
    ensures
        gens_view(final(out)@) == gens_view(old(out)@) + relation_filters_out(model.view(), syms@, filters_view(fs@)),
{
    let ghost start = gens_view(out@);
    let ghost m = model.view();
    let ghost fv = filters_view(fs@);
    let mut i: usize = 0;
    while i < fs.len()
        invariant
            i <= fs@.len(),
            m == model.view(),
            fv == filters_view(fs@),
            fv.len() == fs@.len(),
            filters_fit(m, fv),
            gens_view(out@) == start + relation_filters_out(m, syms@, fv.subrange(0, i as int)),
        decreases fs.len() - i,
    {
        let f = &fs[i];
        assert(fv[i as int] == f.view());
        assert forall|j: int| 0 <= j < f.fields@.len() implies #[trigger] f.fields@[j] < model.fields@.len() by {
            assert(fv[i as int].fields[j] == f.fields@[j]);
        }
        push_relation_filter(out, model, syms, f);
        assert(fv.subrange(0, i + 1).drop_last() =~= fv.subrange(0, i as int));
        assert(fv.subrange(0, i + 1).last() == f.view());
        i = i + 1;
        assert(gens_view(out@) =~= start + relation_filters_out(m, syms@, fv.subrange(0, i as int)));
    }
    assert(fv.subrange(0, i as int) =~= fv);
}

fn push_relation_method(out: &mut Vec<Gen>, model: &Model, syms: &Vec<String>, k: usize, kind: ListRelation)
    ensures
        gens_view(final(out)@) == gens_view(old(out)@) + relation_method_out(model.view(), syms@, k, kind),
{
    match kind {
        ListRelation::One => push_relation_method_one(out, model, syms, k),
        ListRelation::Many => push_relation_method_many(out, model, syms, k),
        ListRelation::Via => push_relation_method_via(out, model, syms, k),
    }
}

#[verifier::spinoff_prover]
fn push_relation_method_one(out: &mut Vec<Gen>, model: &Model, syms: &Vec<String>, k: usize)
    ensures
        gens_view(final(out)@) == gens_view(old(out)@) + relation_method_out(model.view(), syms@, k, ListRelation::One),
{
    let ghost start = gens_view(out@);
    push_code(out, "pub fn ");
    push_gen(out, Gen::Text(field_ident_at_exec(model, syms, k)));
    push_code(out, "(self) -> _toasty::codegen_support::QueryMany<<");
    push_gen(out, Gen::FieldTy(k));
    push_code(out, " as _toasty::codegen_support::RelationOneField>::Target> { let assoc = _toasty::codegen_support::chain_or_build_many_via_one::<");
    push_gen(out, Gen::Sym(model.ident));
    push_code(out, ", <");
    push_gen(out, Gen::FieldTy(k));
    push_code(out, " as _toasty::codegen_support::RelationOneField>::Target>(self.stmt, ");
    push_gen(out, Gen::Int(field_id_at_exec(model, k)));
    push_code(out, ", ");
    push_gen(out, Gen::Sym(model.ident));
    push_code(out, "::fields().");
    push_gen(out, Gen::Text(field_ident_at_exec(model, syms, k)));
    push_code(out, "().into()); <_toasty::codegen_support::QueryMany<<");
    push_gen(out, Gen::FieldTy(k));
    push_code(out, " as _toasty::codegen_support::RelationOneField>::Target>>::from_assoc_many(assoc) } ");
    assert(gens_view(out@) =~= start + relation_method_out(model.view(), syms@, k, ListRelation::One));
}

#[verifier::spinoff_prover]
fn push_relation_method_many(out: &mut Vec<Gen>, model: &Model, syms: &Vec<String>, k: usize)
    ensures
        gens_view(final(out)@) == gens_view(old(out)@) + relation_method_out(model.view(), syms@, k, ListRelation::Many),
{
    let ghost start = gens_view(out@);
    push_code(out, "pub fn ");
    push_gen(out, Gen::Text(field_ident_at_exec(model, syms, k)));
    push_code(out, "(self) -> _toasty::codegen_support::QueryMany<<");
    push_gen(out, Gen::FieldTy(k));
    push_code(out, " as _toasty::codegen_support::RelationManyField>::Target> { let assoc = _toasty::codegen_support::chain_or_build_many::<");
    push_gen(out, Gen::Sym(model.ident));
    push_code(out, ", <");
    push_gen(out, Gen::FieldTy(k));
    push_code(out, " as _toasty::codegen_support::RelationManyField>::Target>(self.stmt, ");
    push_gen(out, Gen::Int(field_id_at_exec(model, k)));
    push_code(out, ", ");
    push_gen(out, Gen::Sym(model.ident));
    push_code(out, "::fields().");
    push_gen(out, Gen::Text(field_ident_at_exec(model, syms, k)));
    push_code(out, "().into()); <_toasty::codegen_support::QueryMany<<");
    push_gen(out, Gen::FieldTy(k));
    push_code(out, " as _toasty::codegen_support::RelationManyField>::Target>>::from_assoc_many(assoc) } ");
    assert(gens_view(out@) =~= start + relation_method_out(model.view(), syms@, k, ListRelation::Many));
}

#[verifier::spinoff_prover]
fn push_relation_method_via(out: &mut Vec<Gen>, model: &Model, syms: &Vec<String>, k: usize)
    ensures
        gens_view(final(out)@) == gens_view(old(out)@) + relation_method_out(model.view(), syms@, k, ListRelation::Via),
{
    let ghost start = gens_view(out@);
    push_code(out, "pub fn ");
    push_gen(out, Gen::Text(field_ident_at_exec(model, syms, k)));
    push_code(out, "(self) -> _toasty::codegen_support::ViaMany<");
    push_gen(out, Gen::FieldTy(k));
    push_code(out, "> { let __assoc = _toasty::codegen_support::stmt::Association::from_source_and_path(self.stmt, ");
    push_gen(out, Gen::Sym(model.ident));
    push_code(out, "::fields().");
    push_gen(out, Gen::Text(field_ident_at_exec(model, syms, k)));
    push_code(out, "().into()); <<");
    push_gen(out, Gen::FieldTy(k));
    push_code(out, " as _toasty::codegen_support::ViaManyField>::Target as _toasty::codegen_support::ViaTarget>::make_via_query(__assoc) } ");
    assert(gens_view(out@) =~= start + relation_method_out(model.view(), syms@, k, ListRelation::Via));
}


fn push_relation_methods(out: &mut Vec<Gen>, model: &Model, syms: &Vec<String>, ks: &Vec<(usize, ListRelation)>)
    ensures
        gens_view(final(out)@) == gens_view(old(out)@) + relation_methods_out(model.view(), syms@, ks@),
{
    let ghost start = gens_view(out@);
    let ghost m = model.view();
    let mut i: usize = 0;
    while i < ks.len()
        invariant
            i <= ks@.len(),
            m == model.view(),
            gens_view(out@) == start + relation_methods_out(m, syms@, ks@.subrange(0, i as int)),
        decreases ks.len() - i,
    {
        push_relation_method(out, model, syms, ks[i].0, ks[i].1);
        assert(ks@.subrange(0, i + 1).drop_last() =~= ks@.subrange(0, i as int));
        i = i + 1;
        assert(gens_view(out@) =~= start + relation_methods_out(m, syms@, ks@.subrange(0, i as int)));
    }
    assert(ks@.subrange(0, i as int) =~= ks@);
}

fn push_include(out: &mut Vec<Gen>, model: &Model)
    ensures
        gens_view(final(out)@) == gens_view(old(out)@) + include_out(model.view()),
{
    let ghost start = gens_view(out@);
    push_code(out, "pub fn include<__toasty_T>(self, include: impl _toasty::codegen_support::Into<_toasty::codegen_support::stmt::Include<");
    push_gen(out, Gen::Sym(model.ident));
    push_code(out, ", __toasty_T>>) -> Self { Self { stmt: self.stmt.include(include.into()) } } ");
    assert(gens_view(out@) =~= start + include_out(model.view()));
}

/// The query struct of a root model.
#[verifier::rlimit(100)]
#[verifier::spinoff_prover]
pub fn expand_query_struct(model: &Model, filters: &Vec<Filter>, syms: &Vec<String>) -> (r: Vec<Gen>)
    requires
        filters_fit(model.view(), filters_view(filters@)),
    ensures
        gens_view(r@) == query_struct_out(model.view(), filters_view(filters@), syms@),
{
    proof {
        reveal(query_struct_out);
    }
    let ghost m = model.view();
    let ghost fs = filters_view(filters@);
    let rels = list_relations(model, syms);
    let mut out: Vec<Gen> = Vec::new();
    proof {
        crate::gen::lemma_gens_empty(out@);
    }

    push_code(&mut out, "pub struct ");
    push_gen(&mut out, Gen::Text(concat(sym_string(syms, model.ident).as_str(), "Query")));
    push_code(&mut out, "<__T = _toasty::codegen_support::List<");
    push_gen(&mut out, Gen::Sym(model.ident));
    push_code(&mut out, ">> { stmt: _toasty::codegen_support::stmt::Query<__T>, } impl<__T> _toasty::codegen_support::Clone for ");
    push_gen(&mut out, Gen::Text(concat(sym_string(syms, model.ident).as_str(), "Query")));
    push_code(&mut out, "<__T> { fn clone(&self) -> Self { Self { stmt: self.stmt.clone(), } } } impl<__T> ");
    push_gen(&mut out, Gen::Text(concat(sym_string(syms, model.ident).as_str(), "Query")));
    push_code(&mut out, "<__T> { pub ");
    push_code(&mut out, "const");
    push_code(&mut out, " fn from_stmt(stmt: _toasty::codegen_support::stmt::Query<__T>) -> Self { Self { stmt } } ");
    push_include(&mut out, model);
    push_code(&mut out, "pub async fn exec(self, executor: &mut dyn _toasty::codegen_support::Executor) -> \
    _toasty::codegen_support::Result<__T::Output> where __T: _toasty::codegen_support::Load, \
    { use _toasty::codegen_support::IntoStatement; executor.exec(self.stmt.into_statement()).await } \
    } impl<__T> ");
    push_gen(&mut out, Gen::Text(concat(sym_string(syms, model.ident).as_str(), "Query")));
    push_code(&mut out, "<__T> where _toasty::codegen_support::stmt::Query<__T>: _toasty::codegen_support::stmt::IntoScope<");
    push_gen(&mut out, Gen::Sym(model.ident));
    push_code(&mut out, ">, { pub fn create(self) -> ");
    push_gen(&mut out, Gen::Text(concat(sym_string(syms, model.ident).as_str(), "Create")));
    push_code(&mut out, " { let mut builder = ");
    push_gen(&mut out, Gen::Text(concat(sym_string(syms, model.ident).as_str(), "Create")));
    push_code(&mut out, "::default(); builder.stmt.set_scope(self.stmt); builder } } impl ");
    push_gen(&mut out, Gen::Text(concat(sym_string(syms, model.ident).as_str(), "Query")));
    push_code(&mut out, "<_toasty::codegen_support::List<");
    push_gen(&mut out, Gen::Sym(model.ident));
    push_code(&mut out, ">> { #[doc = \" Construct a list query from a many-style association.\"] #[doc(hidden)] \
    pub fn from_assoc_many(assoc: _toasty::codegen_support::stmt::Association<_toasty::codegen_support::List<");
    push_gen(&mut out, Gen::Sym(model.ident));
    push_code(&mut out, ">>) -> Self { use _toasty::codegen_support::IntoStatement; let stmt = assoc.into_statement().into_query().unwrap(); Self { stmt } } ");
    push_relation_filters(&mut out, model, syms, filters);
    push_code(&mut out, "pub fn first(self) -> ");
    push_gen(&mut out, Gen::Text(concat(sym_string(syms, model.ident).as_str(), "Query")));
    push_code(&mut out, "<_toasty::codegen_support::Option<");
    push_gen(&mut out, Gen::Sym(model.ident));
    push_code(&mut out, ">> { ");
    push_gen(&mut out, Gen::Text(concat(sym_string(syms, model.ident).as_str(), "Query")));
    push_code(&mut out, " { stmt: self.stmt.first(), } } pub fn one(self) -> ");
    push_gen(&mut out, Gen::Text(concat(sym_string(syms, model.ident).as_str(), "Query")));
    push_code(&mut out, "<");
    push_gen(&mut out, Gen::Sym(model.ident));
    push_code(&mut out, "> { ");
    push_gen(&mut out, Gen::Text(concat(sym_string(syms, model.ident).as_str(), "Query")));
    push_code(&mut out, " { stmt: self.stmt.one(), } } pub async fn get(self, executor: &mut dyn _toasty::codegen_support::Executor) \
    -> _toasty::codegen_support::Result<");
    push_gen(&mut out, Gen::Sym(model.ident));
    push_code(&mut out, "> { self.one().exec(executor).await } pub fn update(self) -> ");
    push_gen(&mut out, Gen::Text(concat(sym_string(syms, model.ident).as_str(), "Update")));
    push_code(&mut out, " { ");
    push_gen(&mut out, Gen::Text(concat(sym_string(syms, model.ident).as_str(), "Update")));
    push_code(&mut out, "::from(self.stmt) } pub fn count(self) -> _toasty::codegen_support::stmt::Query<u64> \
    { self.stmt.count() } pub fn select<__E, __U>(self, projection: __E) -> _toasty::codegen_support::stmt::Query<_toasty::codegen_support::List<__U>> \
    where __E: _toasty::codegen_support::IntoExpr<__U>, __U: _toasty::codegen_support::Load, { self.stmt.select(projection) \
    } pub fn delete(self) -> _toasty::codegen_support::stmt::Delete<()> { self.stmt.delete() } pub fn \
    paginate(self, per_page: usize) -> _toasty::codegen_support::stmt::Paginate<");
    push_gen(&mut out, Gen::Sym(model.ident));
    push_code(&mut out, "> { _toasty::codegen_support::stmt::Paginate::new(self.stmt, per_page) } pub fn \
    filter(self, expr: _toasty::codegen_support::stmt::Expr<bool>) -> Self { Self { stmt: self.stmt.filter(expr), \
    } } pub fn order_by(self, order_by: impl Into<_toasty::codegen_support::stmt::OrderBy>) -> Self { \
    Self { stmt: self.stmt.order_by(order_by), } } pub fn latest_by<__toasty_T>(self, field: _toasty::codegen_support::stmt::Path<");
    push_gen(&mut out, Gen::Sym(model.ident));
    push_code(&mut out, ", __toasty_T>) -> Self { Self { stmt: self.stmt.latest_by(field), } } pub fn limit(self, \
    n: usize) -> Self { Self { stmt: self.stmt.limit(n), } } pub fn offset(self, n: usize) -> Self { \
    Self { stmt: self.stmt.offset(n), } } #[doc = \" Returns a builder that will add an item to the relation \
    this query was scoped\"] #[doc = \" from only on execution.\"] pub fn insert(self, item: impl _toasty::codegen_support::IntoExpr<");
    push_gen(&mut out, Gen::Sym(model.ident));
    push_code(&mut out, ">) -> _toasty::codegen_support::stmt::RelationInsert<");
    push_gen(&mut out, Gen::Sym(model.ident));
    push_code(&mut out, "> { self.stmt.insert(item) } #[doc = \" Returns a builder that will remove an item \
    from the relation this query was scoped\"] #[doc = \" from only on execution.\"] pub fn remove(self, \
    item: impl _toasty::codegen_support::IntoExpr<");
    push_gen(&mut out, Gen::Sym(model.ident));
    push_code(&mut out, ">) -> _toasty::codegen_support::stmt::RelationRemove<");
    push_gen(&mut out, Gen::Sym(model.ident));
    push_code(&mut out, "> { self.stmt.remove(item) } ");
    push_relation_methods(&mut out, model, syms, &rels);
    push_code(&mut out, "} impl<__T> _toasty::codegen_support::IntoStatement for ");
    push_gen(&mut out, Gen::Text(concat(sym_string(syms, model.ident).as_str(), "Query")));
    push_code(&mut out, "<__T> { type Returning = __T; fn into_statement(self) -> _toasty::codegen_support::Statement<__T> \
    { use _toasty::codegen_support::IntoStatement; self.stmt.into_statement() } } impl<__T> _toasty::codegen_support::IntoStatement \
    for &");
    push_gen(&mut out, Gen::Text(concat(sym_string(syms, model.ident).as_str(), "Query")));
    push_code(&mut out, "<__T> { type Returning = __T; fn into_statement(self) -> _toasty::codegen_support::Statement<__T> \
    { use _toasty::codegen_support::IntoStatement; self.stmt.clone().into_statement() } } impl _toasty::codegen_support::stmt::IntoScope<");
    push_gen(&mut out, Gen::Sym(model.ident));
    push_code(&mut out, "> for ");
    push_gen(&mut out, Gen::Text(concat(sym_string(syms, model.ident).as_str(), "Query")));
    push_code(&mut out, "<_toasty::codegen_support::List<");
    push_gen(&mut out, Gen::Sym(model.ident));
    push_code(&mut out, ">> { fn into_scope(self) -> _toasty::codegen_support::Statement<_toasty::codegen_support::List<");
    push_gen(&mut out, Gen::Sym(model.ident));
    push_code(&mut out, ">> { use _toasty::codegen_support::stmt::IntoScope; self.stmt.into_scope() } } impl _toasty::codegen_support::stmt::IntoScope<");
    push_gen(&mut out, Gen::Sym(model.ident));
    push_code(&mut out, "> for &");
    push_gen(&mut out, Gen::Text(concat(sym_string(syms, model.ident).as_str(), "Query")));
    push_code(&mut out, "<_toasty::codegen_support::List<");
    push_gen(&mut out, Gen::Sym(model.ident));
    push_code(&mut out, ">> { fn into_scope(self) -> _toasty::codegen_support::Statement<_toasty::codegen_support::List<");
    push_gen(&mut out, Gen::Sym(model.ident));
    push_code(&mut out, ">> { use _toasty::codegen_support::stmt::IntoScope; self.stmt.clone().into_scope() \
        } } impl _toasty::codegen_support::stmt::IntoScope<");
    push_gen(&mut out, Gen::Sym(model.ident));
    push_code(&mut out, "> for ");
    push_gen(&mut out, Gen::Text(concat(sym_string(syms, model.ident).as_str(), "Query")));
    push_code(&mut out, "<");
    push_gen(&mut out, Gen::Sym(model.ident));
    push_code(&mut out, "> { fn into_scope(self) -> _toasty::codegen_support::Statement<_toasty::codegen_support::List<");
    push_gen(&mut out, Gen::Sym(model.ident));
    push_code(&mut out, ">> { use _toasty::codegen_support::stmt::IntoScope; self.stmt.into_scope() } } impl _toasty::codegen_support::stmt::IntoScope<");
    push_gen(&mut out, Gen::Sym(model.ident));
    push_code(&mut out, "> for ");
    push_gen(&mut out, Gen::Text(concat(sym_string(syms, model.ident).as_str(), "Query")));
    push_code(&mut out, "<_toasty::codegen_support::Option<");
    push_gen(&mut out, Gen::Sym(model.ident));
    push_code(&mut out, ">> { fn into_scope(self) -> _toasty::codegen_support::Statement<_toasty::codegen_support::List<");
    push_gen(&mut out, Gen::Sym(model.ident));
    push_code(&mut out, ">> { use _toasty::codegen_support::stmt::IntoScope; self.stmt.into_scope() } } impl _toasty::codegen_support::Default for ");
    push_gen(&mut out, Gen::Text(concat(sym_string(syms, model.ident).as_str(), "Query")));
    push_code(&mut out, "<_toasty::codegen_support::List<");
    push_gen(&mut out, Gen::Sym(model.ident));
    push_code(&mut out, ">> { fn default() -> Self { Self { stmt: _toasty::codegen_support::stmt::Query::all(), \
    } } } #[diagnostic::do_not_recommend] impl _toasty::codegen_support::Scope for ");
    push_gen(&mut out, Gen::Text(concat(sym_string(syms, model.ident).as_str(), "Query")));
    push_code(&mut out, "<_toasty::codegen_support::List<");
    push_gen(&mut out, Gen::Sym(model.ident));
    push_code(&mut out, ">> { type Item = _toasty::codegen_support::List<");
    push_gen(&mut out, Gen::Sym(model.ident));
    push_code(&mut out, ">; type Path<__Origin> = ");
    push_gen(&mut out, Gen::Text(concat(sym_string(syms, model.ident).as_str(), "ListFields")));
    push_code(&mut out, "<__Origin>; type Create = ");
    push_gen(&mut out, Gen::Text(concat(sym_string(syms, model.ident).as_str(), "Create")));
    push_code(&mut out, "; fn new_path<__Origin>(path: _toasty::codegen_support::Path<__Origin, Self::Item>) -> Self::Path<__Origin> { ");
    push_gen(&mut out, Gen::Text(concat(sym_string(syms, model.ident).as_str(), "ListFields")));
    push_code(&mut out, "::from_path(path) } fn new_create() -> Self::Create { ");
    push_gen(&mut out, Gen::Text(concat(sym_string(syms, model.ident).as_str(), "Create")));
    push_code(&mut out, "::default() } fn new_path_root() -> Self::Path<Self::Item> { ");
    push_gen(&mut out, Gen::Text(concat(sym_string(syms, model.ident).as_str(), "ListFields")));
    push_code(&mut out, "::from_path(<");
    push_gen(&mut out, Gen::Sym(model.ident));
    push_code(&mut out, " as _toasty::codegen_support::Model>::path_model_list()) } fn create_in_scope(self) \
    -> Self::Create { Self::create(self) } } #[diagnostic::do_not_recommend] impl _toasty::codegen_support::Scope \
    for ");
    push_gen(&mut out, Gen::Text(concat(sym_string(syms, model.ident).as_str(), "Query")));
    push_code(&mut out, "<");
    push_gen(&mut out, Gen::Sym(model.ident));
    push_code(&mut out, "> { type Item = ");
    push_gen(&mut out, Gen::Sym(model.ident));
    push_code(&mut out, "; type Path<__Origin> = ");
    push_gen(&mut out, Gen::Text(concat(sym_string(syms, model.ident).as_str(), "Fields")));
    push_code(&mut out, "<__Origin>; type Create = ");
    push_gen(&mut out, Gen::Text(concat(sym_string(syms, model.ident).as_str(), "Create")));
    push_code(&mut out, "; fn new_path<__Origin>(path: _toasty::codegen_support::Path<__Origin, Self::Item>) -> Self::Path<__Origin> { ");
    push_gen(&mut out, Gen::Text(concat(sym_string(syms, model.ident).as_str(), "Fields")));
    push_code(&mut out, "::from_path(path) } fn new_create() -> Self::Create { ");
    push_gen(&mut out, Gen::Text(concat(sym_string(syms, model.ident).as_str(), "Create")));
    push_code(&mut out, "::default() } fn new_path_root() -> Self::Path<Self::Item> { ");
    push_gen(&mut out, Gen::Text(concat(sym_string(syms, model.ident).as_str(), "Fields")));
    push_code(&mut out, "::from_path(<");
    push_gen(&mut out, Gen::Sym(model.ident));
    push_code(&mut out, " as _toasty::codegen_support::Model>::path_root()) } fn create_in_scope(self) -> \
    Self::Create { Self::create(self) } } #[diagnostic::do_not_recommend] impl _toasty::codegen_support::Scope \
    for ");
    push_gen(&mut out, Gen::Text(concat(sym_string(syms, model.ident).as_str(), "Query")));
    push_code(&mut out, "<_toasty::codegen_support::Option<");
    push_gen(&mut out, Gen::Sym(model.ident));
    push_code(&mut out, ">> { type Item = ");
    push_gen(&mut out, Gen::Sym(model.ident));
    push_code(&mut out, "; type Path<__Origin> = ");
    push_gen(&mut out, Gen::Text(concat(sym_string(syms, model.ident).as_str(), "Fields")));
    push_code(&mut out, "<__Origin>; type Create = ");
    push_gen(&mut out, Gen::Text(concat(sym_string(syms, model.ident).as_str(), "Create")));
    push_code(&mut out, "; fn new_path<__Origin>(path: _toasty::codegen_support::Path<__Origin, Self::Item>) -> Self::Path<__Origin> { ");
    push_gen(&mut out, Gen::Text(concat(sym_string(syms, model.ident).as_str(), "Fields")));
    push_code(&mut out, "::from_path(path) } fn new_create() -> Self::Create { ");
    push_gen(&mut out, Gen::Text(concat(sym_string(syms, model.ident).as_str(), "Create")));
    push_code(&mut out, "::default() } fn new_path_root() -> Self::Path<Self::Item> { ");
    push_gen(&mut out, Gen::Text(concat(sym_string(syms, model.ident).as_str(), "Fields")));
    push_code(&mut out, "::from_path(<");
    push_gen(&mut out, Gen::Sym(model.ident));
    push_code(&mut out, " as _toasty::codegen_support::Model>::path_root()) } fn create_in_scope(self) -> Self::Create { Self::create(self) } } ");
    assert(gens_view(out@) =~= query_struct_out(m, fs, syms@));
    out
}

} // verus!
