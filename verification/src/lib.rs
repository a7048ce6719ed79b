//! Verified front end of the Toasty derive and function-like macros.
//!
//! The macros receive Rust token streams. This library works on a plain
//! model of those streams (`tokens`): a flat sequence of tokens whose
//! identifiers and literals refer to a symbol table of strings. On that
//! model it parses and validates model definitions (`schema`), the
//! `query!`, `create!` and `update!` languages, and decides what the code
//! generated for a valid model is built from: its names, filter methods,
//! upsert builders, schema registration entries, compile-time checks,
//! creation metadata and relation accessors.

pub mod case;
pub mod checks_gen;
pub mod create;
pub mod create_meta;
pub mod diag;
pub mod docs;
pub mod embed_gen;
pub mod emit;
pub mod field_list;
pub mod field_struct;
pub mod filters;
pub mod gen;
pub mod model_gen;
pub mod model_methods;
pub mod model_traits;
pub mod messages;
pub mod migrations;
pub mod model_core;
pub mod model_expand;
pub mod query;
pub mod query_methods;
pub mod query_struct;
pub mod registration;
pub mod schema;
pub mod text;
pub mod tokens;
pub mod update;
pub mod upsert;
pub mod variant_literal;

use vstd::prelude::*;

use create::expand::item_out;
use create::parse::{create_spec, CreateItem};
use diag::Diag;
use emit::OutTok;
use gen::{gens_view, Gen};
use model_expand::{check_core_expandable, check_embedded_expandable, core_expandable, embedded_expandable, embedded_out, expand_embedded, expand_model, model_out};
use query::expand::query_out;
use query::parse::{query_spec, QueryInput};
use schema::enum_model::{enum_model_spec, EnumDef};
use schema::model::{model_spec, Model, ModelV, StructDef};
use tokens::{sym_text, Tok};
use update::expand::update_out;
use update::parse::{update_spec, UpdateItem};

verus! {

/// `query!`: the builder calls that the query in `toks` stands for, or the
/// error that stops its parsing (`scope` is the span to blame at the end of
/// the input).
pub fn query(toks: &Vec<Tok>, syms: &Vec<String>, scope: usize) -> (r: Result<Vec<OutTok>, Diag>)
    ensures
        r matches Ok(out) ==> query_spec(toks@, syms@, scope) matches Ok(q) && out@ == query_out(q),
        r matches Err(e) ==> query_spec(toks@, syms@, scope) == Err::<QueryInput, Diag>(e),
{
    match QueryInput::parse(toks, syms, scope) {
        Err(e) => Err(e),
        Ok(q) => Ok(query::expand::expand(&q)),
    }
}

/// `create!`: the create-builder calls that the input stands for, or the
/// error that stops its parsing.
pub fn create(toks: &Vec<Tok>, syms: &Vec<String>, scope: usize) -> (r: Result<Vec<OutTok>, Diag>)
    ensures
        r matches Ok(out) ==> create_spec(toks@, syms@, scope) matches Ok(x) && out@ == item_out(x),
        r matches Err(e) ==> create_spec(toks@, syms@, scope) == Err::<CreateItem, Diag>(e),
{
    match CreateItem::parse(toks, syms, scope) {
        Err(e) => Err(e),
        Ok(x) => Ok(create::expand::expand(&x)),
    }
}

/// `update!`: the update-builder calls that the input stands for, or the
/// error that stops its parsing.
pub fn update(toks: &Vec<Tok>, syms: &Vec<String>, scope: usize) -> (r: Result<Vec<OutTok>, Diag>)
    ensures
        r matches Ok(out) ==> update_spec(toks@, syms@, scope) matches Ok(x) && out@ == update_out(x),
        r matches Err(e) ==> update_spec(toks@, syms@, scope) == Err::<UpdateItem, Diag>(e),
{
    match UpdateItem::parse(toks, syms, scope) {
        Err(e) => Err(e),
        Ok(x) => Ok(update::expand::expand(&x)),
    }
}

/// `#[derive(Model)]`: the validated root model, or every error found.
pub fn derive_model(def: &StructDef, syms: &Vec<String>) -> (r: Result<Model, Vec<Diag>>)
    requires
        def.wf(syms@),
    ensures
        r matches Ok(m) ==> model_spec(*def, syms@, false) == Ok::<ModelV, Seq<Diag>>(m.view()) && m.wf() && m.name.derived_from(sym_text(syms@, def.ident as int))
            && forall|i: int| 0 <= i < m.fields@.len() ==> (#[trigger] m.fields@[i]).singular_ok(syms@),
        r matches Err(es) ==> model_spec(*def, syms@, false) == Err::<ModelV, Seq<Diag>>(es@),
{
    Model::from_ast(def, syms, false)
}

/// `#[derive(Model)]` as a whole: the validated model with the code
/// generated for it, or every error found. The code is `None` exactly when
/// the model's core impls cannot be generated (see `core_expandable`).
pub fn derive_model_expanded(def: &StructDef, syms: &Vec<String>) -> (r: Result<(Model, Option<Vec<Gen>>), Vec<Diag>>)
    requires
        def.wf(syms@),
    ensures
        r matches Ok((m, g)) ==> model_spec(*def, syms@, false) == Ok::<ModelV, Seq<Diag>>(m.view()) && m.wf()
            && m.name.derived_from(sym_text(syms@, def.ident as int))
            && (forall|i: int| 0 <= i < m.fields@.len() ==> (#[trigger] m.fields@[i]).singular_ok(syms@))
            && (g is Some <==> core_expandable(m))
            && (g matches Some(g) ==> gens_view(g@) == model_out(m, syms@)),
        r matches Err(es) ==> model_spec(*def, syms@, false) == Err::<ModelV, Seq<Diag>>(es@),
{
    match derive_model(def, syms) {
        Ok(m) => {
            if check_core_expandable(&m) {
                let g = expand_model(&m, syms);
                Ok((m, Some(g)))
            } else {
                Ok((m, None))
            }
        },
        Err(es) => Err(es),
    }
}

/// What `#[derive(Embed)]` is applied to.
pub enum EmbedItem {
    Struct(StructDef),
    Enum(EnumDef),
}

/// `#[derive(Embed)]`: the validated embedded struct or enum, or every
/// error found.
pub fn derive_embed(item: &EmbedItem, syms: &Vec<String>) -> (r: Result<Model, Vec<Diag>>)
    requires
        *item matches EmbedItem::Struct(d) ==> d.wf(syms@),
        *item matches EmbedItem::Enum(d) ==> d.wf(syms@),
    ensures
        *item matches EmbedItem::Struct(d) ==> (r matches Ok(m) ==> model_spec(d, syms@, true) == Ok::<ModelV, Seq<Diag>>(m.view()) && m.wf()
            && m.name.derived_from(sym_text(syms@, d.ident as int))),
        *item matches EmbedItem::Struct(d) ==> (r matches Err(es) ==> model_spec(d, syms@, true) == Err::<ModelV, Seq<Diag>>(es@)),
        *item matches EmbedItem::Enum(d) ==> (r matches Ok(m) ==> enum_model_spec(d, syms@) == Ok::<ModelV, Seq<Diag>>(m.view()) && m.wf()
            && m.name.derived_from(sym_text(syms@, d.ident as int))),
        r matches Ok(m) ==> forall|i: int| 0 <= i < m.fields@.len() ==> (#[trigger] m.fields@[i]).singular_ok(syms@),
        *item matches EmbedItem::Enum(d) ==> (r matches Err(es) ==> enum_model_spec(d, syms@) == Err::<ModelV, Seq<Diag>>(es@)),
{
    match item {
        EmbedItem::Struct(d) => Model::from_ast(d, syms, true),
        EmbedItem::Enum(d) => Model::from_enum_ast(d, syms),
    }
}

/// `#[derive(Embed)]` as a whole: the validated embedded struct or enum
/// with the code generated for it, or every error found. The code is
/// `None` exactly when it cannot be generated (see `embedded_expandable`).
pub fn derive_embed_expanded(item: &EmbedItem, syms: &Vec<String>) -> (r: Result<(Model, Option<Vec<Gen>>), Vec<Diag>>)
    requires
        *item matches EmbedItem::Struct(d) ==> d.wf(syms@),
        *item matches EmbedItem::Enum(d) ==> d.wf(syms@),
    ensures
        *item matches EmbedItem::Struct(d) ==> (r matches Ok((m, _)) ==> model_spec(d, syms@, true) == Ok::<ModelV, Seq<Diag>>(m.view())
            && m.name.derived_from(sym_text(syms@, d.ident as int))),
        *item matches EmbedItem::Struct(d) ==> (r matches Err(es) ==> model_spec(d, syms@, true) == Err::<ModelV, Seq<Diag>>(es@)),
        *item matches EmbedItem::Enum(d) ==> (r matches Ok((m, _)) ==> enum_model_spec(d, syms@) == Ok::<ModelV, Seq<Diag>>(m.view())
            && m.name.derived_from(sym_text(syms@, d.ident as int))),
        *item matches EmbedItem::Enum(d) ==> (r matches Err(es) ==> enum_model_spec(d, syms@) == Err::<ModelV, Seq<Diag>>(es@)),
        r matches Ok((m, g)) ==> m.wf() && (forall|i: int| 0 <= i < m.fields@.len() ==> (#[trigger] m.fields@[i]).singular_ok(syms@))
            && (g is Some <==> embedded_expandable(m))
            && (g matches Some(g) ==> gens_view(g@) == embedded_out(m, syms@)),
{
    match derive_embed(item, syms) {
        Ok(m) => {
            if check_embedded_expandable(&m) {
                let g = expand_embedded(&m, syms);
                Ok((m, Some(g)))
            } else {
                Ok((m, None))
            }
        },
        Err(es) => Err(es),
    }
}

} // verus!
