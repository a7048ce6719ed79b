//! The trait impls of a root model that rest on its primary key: a record
//! is an expression (its key), an assignment, and a statement that reloads
//! it; the model is a target of `via` relations.
use vstd::prelude::*;

use crate::filters::{method_ident, method_ident_text};
use crate::gen::{c, field_ident_at, field_ident_at_exec, gens_view, push_code, push_gen, Gen, GenV};
use crate::schema::model::{Model, ModelKind, ModelKindV, ModelV};
use crate::text::concat;
use crate::tokens::{sym_string, sym_text};

verus! {

/// The primary key of a root model (none for other models).
pub open spec fn pk_of(m: ModelV) -> Seq<usize> {
    match m.kind {
        ModelKindV::Root { primary_key, .. } => primary_key,
        _ => Seq::empty(),
    }
}

/// A per-field piece of the key expressions.
#[derive(Clone, Copy, PartialEq, Eq, Debug, Structural)]
pub enum PkPiece {
    /// `&self.name`
    Ref,
    /// `self.name`
    Val,
    /// The field's type.
    Ty,
    /// `Model::fields().name()`
    FieldsCall,
    /// The field's id in the schema being built.
    FieldId,
}

pub open spec fn pk_piece_out(m: ModelV, syms: Seq<String>, k: usize, kind: PkPiece) -> Seq<GenV> {
    match kind {
        PkPiece::Ref => c("& self."@) + seq![GenV::Text(field_ident_at(syms, m.fields, k as int))],
        PkPiece::Val => c("self."@) + seq![GenV::Text(field_ident_at(syms, m.fields, k as int))],
        PkPiece::Ty => seq![GenV::FieldTy(k)],
        PkPiece::FieldsCall => seq![GenV::Sym(m.ident)] + c("::fields()."@)
            + seq![GenV::Text(field_ident_at(syms, m.fields, k as int))] + c("()"@),
        PkPiece::FieldId => c("_toasty::codegen_support::core::schema::app::FieldId { model: id, index: "@)
            + seq![GenV::Int(k)] + c(", }"@),
    }
}

/// The pieces of the first `n` key fields, separated by commas.
pub open spec fn pk_pieces_out(m: ModelV, syms: Seq<String>, pk: Seq<usize>, kind: PkPiece, n: int) -> Seq<GenV>
    decreases n,
{
    if n <= 0 {
        Seq::empty()
    } else {
        pk_pieces_out(m, syms, pk, kind, n - 1) + (if n > 1 { c(", "@) } else { Seq::empty() }) + pk_piece_out(m, syms, pk[n - 1], kind)
    }
}

/// The expression of a record: its key, as the model's expression type.
pub open spec fn into_expr_body_out(m: ModelV, syms: Seq<String>, by_ref: bool) -> Seq<GenV> {
    let pk = pk_of(m);
    if pk.len() == 1 {
        c("let expr: _toasty::codegen_support::stmt::Expr<"@) + seq![GenV::FieldTy(pk[0])] + c("> = _toasty::codegen_support::IntoExpr::into_expr("@)
            + (if by_ref { c("(&self."@) + seq![GenV::Text(field_ident_at(syms, m.fields, pk[0] as int))] + c(")"@) }
               else { c("self."@) + seq![GenV::Text(field_ident_at(syms, m.fields, pk[0] as int))] })
            + c("); expr.cast()"@)
    } else {
        c("let expr: _toasty::codegen_support::stmt::Expr<( "@) + pk_pieces_out(m, syms, pk, PkPiece::Ty, pk.len() as int)
            + c(" )> = _toasty::codegen_support::IntoExpr::into_expr(( "@)
            + pk_pieces_out(m, syms, pk, if by_ref { PkPiece::Ref } else { PkPiece::Val }, pk.len() as int)
            + c(" )); expr.cast()"@)
    }
}

/// The trait impls of a root model that rest on its key: the `via`
/// target, the record as an expression and an assignment, and the record
/// as a statement that reloads it.
#[verifier::opaque]
pub open spec fn model_trait_impls_out(m: ModelV, syms: Seq<String>) -> Seq<GenV> {
    c("impl _toasty::codegen_support::ViaTarget for "@)
        + seq![GenV::Sym(m.ident)]
        + c(" { type Query = "@)
        + seq![GenV::Text(sym_text(syms, m.ident as int) + "Query"@)]
        + c("<_toasty::codegen_support::List<"@)
        + seq![GenV::Sym(m.ident)]
        + c(">>; type Path<__Origin> = <"@)
        + seq![GenV::Sym(m.ident)]
        + c(" as _toasty::codegen_support::Model>::ManyField<__Origin>; fn new_path<__Origin>(path: _toasty::codegen_support::Path<__Origin, \
            _toasty::codegen_support::List<"@)
        + seq![GenV::Sym(m.ident)]
        + c(">>,) -> Self::Path<__Origin> { <"@)
        + seq![GenV::Sym(m.ident)]
        + c(" as _toasty::codegen_support::Model>::new_many_field(path) } fn via_field_ty(singular: _toasty::codegen_support::core::schema::Name, \
            path: _toasty::codegen_support::core::stmt::Path,) -> _toasty::codegen_support::core::schema::app::FieldTy \
            { _toasty::codegen_support::via::model_via_field_ty::<"@)
        + seq![GenV::Sym(m.ident)]
        + c(">(singular, path) } fn make_via_query(assoc: _toasty::codegen_support::stmt::Association<_toasty::codegen_support::List<"@)
        + seq![GenV::Sym(m.ident)]
        + c(">>,) -> Self::Query { <"@)
        + seq![GenV::Text(sym_text(syms, m.ident as int) + "Query"@)]
        + c("<_toasty::codegen_support::List<"@)
        + seq![GenV::Sym(m.ident)]
        + c(">>>::from_assoc_many(assoc) } } impl _toasty::codegen_support::stmt::IntoExpr<"@)
        + seq![GenV::Sym(m.ident)]
        + c("> for "@)
        + seq![GenV::Sym(m.ident)]
        + c(" { fn into_expr(self) -> _toasty::codegen_support::stmt::Expr<"@)
        + seq![GenV::Sym(m.ident)]
        + c("> { "@)
        + into_expr_body_out(m, syms, false)
        + c(" } fn by_ref(&self) -> _toasty::codegen_support::stmt::Expr<"@)
        + seq![GenV::Sym(m.ident)]
        + c("> { "@)
        + into_expr_body_out(m, syms, true)
        + c(" } } impl _toasty::codegen_support::Assign<"@)
        + seq![GenV::Sym(m.ident)]
        + c("> for "@)
        + seq![GenV::Sym(m.ident)]
        + c(" { fn into_assignment(self) -> _toasty::codegen_support::stmt::Assignment<"@)
        + seq![GenV::Sym(m.ident)]
        + c("> { _toasty::codegen_support::stmt::set(<Self as _toasty::codegen_support::IntoExpr<"@)
        + seq![GenV::Sym(m.ident)]
        + c(">>::into_expr(self)) } } impl _toasty::codegen_support::IntoStatement for &"@)
        + seq![GenV::Sym(m.ident)]
        + c(" { type Returning = "@)
        + seq![GenV::Sym(m.ident)]
        + c("; fn into_statement(self) -> _toasty::codegen_support::Statement<"@)
        + seq![GenV::Sym(m.ident)]
        + c("> { use _toasty::codegen_support::IntoStatement; _toasty::codegen_support::IntoStatement::into_statement("@)
        + seq![GenV::Text(sym_text(syms, m.ident as int) + "Query"@)]
        + c("::default()."@)
        + seq![GenV::Text(method_ident_text(syms, m.fields, pk_of(m), "filter"@))]
        + c("("@)
        + pk_pieces_out(m, syms, pk_of(m), PkPiece::Ref, pk_of(m).len() as int)
        + c(").one()) } } impl _toasty::codegen_support::IntoStatement for &mut "@)
        + seq![GenV::Sym(m.ident)]
        + c(" { type Returning = "@)
        + seq![GenV::Sym(m.ident)]
        + c("; fn into_statement(self) -> _toasty::codegen_support::Statement<"@)
        + seq![GenV::Sym(m.ident)]
        + c("> { (&*self).into_statement() } } impl _toasty::codegen_support::IntoStatement for "@)
        + seq![GenV::Sym(m.ident)]
        + c(" { type Returning = "@)
        + seq![GenV::Sym(m.ident)]
        + c("; fn into_statement(self) -> _toasty::codegen_support::Statement<"@)
        + seq![GenV::Sym(m.ident)]
        + c("> { (&self).into_statement() } } "@)
}

fn push_pk_piece(out: &mut Vec<Gen>, model: &Model, syms: &Vec<String>, k: usize, kind: PkPiece)
    ensures
        gens_view(final(out)@) == gens_view(old(out)@) + pk_piece_out(model.view(), syms@, k, kind),
{
    let ghost start = gens_view(out@);
    match kind {
        PkPiece::Ref => {
            push_code(out, "& self.");
            push_gen(out, Gen::Text(field_ident_at_exec(model, syms, k)));
        },
        PkPiece::Val => {
            push_code(out, "self.");
            push_gen(out, Gen::Text(field_ident_at_exec(model, syms, k)));
        },
        PkPiece::Ty => push_gen(out, Gen::FieldTy(k)),
        PkPiece::FieldsCall => {
            push_gen(out, Gen::Sym(model.ident));
            push_code(out, "::fields().");
            push_gen(out, Gen::Text(field_ident_at_exec(model, syms, k)));
            push_code(out, "()");
        },
        PkPiece::FieldId => {
            push_code(out, "_toasty::codegen_support::core::schema::app::FieldId { model: id, index: ");
            push_gen(out, Gen::Int(k));
            push_code(out, ", }");
        },
    }
    assert(gens_view(out@) =~= start + pk_piece_out(model.view(), syms@, k, kind));
}

pub(crate) fn push_pk_pieces(out: &mut Vec<Gen>, model: &Model, syms: &Vec<String>, pk: &Vec<usize>, kind: PkPiece)
    ensures
        gens_view(final(out)@) == gens_view(old(out)@) + pk_pieces_out(model.view(), syms@, pk@, kind, pk@.len() as int),
{
    let ghost start = gens_view(out@);
    let ghost m = model.view();
    let mut i: usize = 0;
    while i < pk.len()
        invariant
            i <= pk@.len(),
            m == model.view(),
            gens_view(out@) == start + pk_pieces_out(m, syms@, pk@, kind, i as int),
        decreases pk.len() - i,
    {
        if i > 0 {
            push_code(out, ", ");
        }
        push_pk_piece(out, model, syms, pk[i], kind);
        i = i + 1;
        assert(gens_view(out@) =~= start + pk_pieces_out(m, syms@, pk@, kind, i as int));
    }
}

pub(crate) fn pk_exec(model: &Model) -> (r: Vec<usize>)
    ensures
        r@ == pk_of(model.view()),
{
    match &model.kind {
        ModelKind::Root(root) => root.primary_key.clone(),
        _ => Vec::new(),
    }
}

fn push_into_expr_body(out: &mut Vec<Gen>, model: &Model, syms: &Vec<String>, by_ref: bool)
    ensures
        gens_view(final(out)@) == gens_view(old(out)@) + into_expr_body_out(model.view(), syms@, by_ref),
{
    let ghost start = gens_view(out@);
    let pk = pk_exec(model);
    if pk.len() == 1 {
        push_code(out, "let expr: _toasty::codegen_support::stmt::Expr<");
        push_gen(out, Gen::FieldTy(pk[0]));
        push_code(out, "> = _toasty::codegen_support::IntoExpr::into_expr(");
        if by_ref {
            push_code(out, "(&self.");
            push_gen(out, Gen::Text(field_ident_at_exec(model, syms, pk[0])));
            push_code(out, ")");
        } else {
            push_code(out, "self.");
            push_gen(out, Gen::Text(field_ident_at_exec(model, syms, pk[0])));
        }
        push_code(out, "); expr.cast()");
    } else {
        push_code(out, "let expr: _toasty::codegen_support::stmt::Expr<( ");
        push_pk_pieces(out, model, syms, &pk, PkPiece::Ty);
        push_code(out, " )> = _toasty::codegen_support::IntoExpr::into_expr(( ");
        push_pk_pieces(out, model, syms, &pk, if by_ref { PkPiece::Ref } else { PkPiece::Val });
        push_code(out, " )); expr.cast()");
    }
    assert(gens_view(out@) =~= start + into_expr_body_out(model.view(), syms@, by_ref));
}

/// The key-based trait impls of a root model.
#[verifier::rlimit(100)]
#[verifier::spinoff_prover]
pub fn expand_model_trait_impls(model: &Model, syms: &Vec<String>) -> (r: Vec<Gen>)
    requires
        model.wf(),
    ensures
        gens_view(r@) == model_trait_impls_out(model.view(), syms@),
{
    proof {
        reveal(model_trait_impls_out);
    }
    let ghost m = model.view();
    let pk = pk_exec(model);
    let mut out: Vec<Gen> = Vec::new();
    proof {
        crate::gen::lemma_gens_empty(out@);
    }

    push_code(&mut out, "impl _toasty::codegen_support::ViaTarget for ");
    push_gen(&mut out, Gen::Sym(model.ident));
    push_code(&mut out, " { type Query = ");
    push_gen(&mut out, Gen::Text(concat(sym_string(syms, model.ident).as_str(), "Query")));
    push_code(&mut out, "<_toasty::codegen_support::List<");
    push_gen(&mut out, Gen::Sym(model.ident));
    push_code(&mut out, ">>; type Path<__Origin> = <");
    push_gen(&mut out, Gen::Sym(model.ident));
    push_code(&mut out, " as _toasty::codegen_support::Model>::ManyField<__Origin>; fn new_path<__Origin>(path: \
    _toasty::codegen_support::Path<__Origin, _toasty::codegen_support::List<");
    push_gen(&mut out, Gen::Sym(model.ident));
    push_code(&mut out, ">>,) -> Self::Path<__Origin> { <");
    push_gen(&mut out, Gen::Sym(model.ident));
    push_code(&mut out, " as _toasty::codegen_support::Model>::new_many_field(path) } fn via_field_ty(singular: \
    _toasty::codegen_support::core::schema::Name, path: _toasty::codegen_support::core::stmt::Path,) \
    -> _toasty::codegen_support::core::schema::app::FieldTy { _toasty::codegen_support::via::model_via_field_ty::<");
    push_gen(&mut out, Gen::Sym(model.ident));
    push_code(&mut out, ">(singular, path) } fn make_via_query(assoc: _toasty::codegen_support::stmt::Association<_toasty::codegen_support::List<");
    push_gen(&mut out, Gen::Sym(model.ident));
    push_code(&mut out, ">>,) -> Self::Query { <");
    push_gen(&mut out, Gen::Text(concat(sym_string(syms, model.ident).as_str(), "Query")));
    push_code(&mut out, "<_toasty::codegen_support::List<");
    push_gen(&mut out, Gen::Sym(model.ident));
    push_code(&mut out, ">>>::from_assoc_many(assoc) } } impl _toasty::codegen_support::stmt::IntoExpr<");
    push_gen(&mut out, Gen::Sym(model.ident));
    push_code(&mut out, "> for ");
    push_gen(&mut out, Gen::Sym(model.ident));
    push_code(&mut out, " { fn into_expr(self) -> _toasty::codegen_support::stmt::Expr<");
    push_gen(&mut out, Gen::Sym(model.ident));
    push_code(&mut out, "> { ");
    push_into_expr_body(&mut out, model, syms, false);
    push_code(&mut out, " } fn by_ref(&self) -> _toasty::codegen_support::stmt::Expr<");
    push_gen(&mut out, Gen::Sym(model.ident));
    push_code(&mut out, "> { ");
    push_into_expr_body(&mut out, model, syms, true);
    push_code(&mut out, " } } impl _toasty::codegen_support::Assign<");
    push_gen(&mut out, Gen::Sym(model.ident));
    push_code(&mut out, "> for ");
    push_gen(&mut out, Gen::Sym(model.ident));
    push_code(&mut out, " { fn into_assignment(self) -> _toasty::codegen_support::stmt::Assignment<");
    push_gen(&mut out, Gen::Sym(model.ident));
    push_code(&mut out, "> { _toasty::codegen_support::stmt::set(<Self as _toasty::codegen_support::IntoExpr<");
    push_gen(&mut out, Gen::Sym(model.ident));
    push_code(&mut out, ">>::into_expr(self)) } } impl _toasty::codegen_support::IntoStatement for &");
    push_gen(&mut out, Gen::Sym(model.ident));
    push_code(&mut out, " { type Returning = ");
    push_gen(&mut out, Gen::Sym(model.ident));
    push_code(&mut out, "; fn into_statement(self) -> _toasty::codegen_support::Statement<");
    push_gen(&mut out, Gen::Sym(model.ident));
    push_code(&mut out, "> { use _toasty::codegen_support::IntoStatement; _toasty::codegen_support::IntoStatement::into_statement(");
    push_gen(&mut out, Gen::Text(concat(sym_string(syms, model.ident).as_str(), "Query")));
    push_code(&mut out, "::default().");
    push_gen(&mut out, Gen::Text(method_ident(model, syms, &pk, "filter")));
    push_code(&mut out, "(");
    push_pk_pieces(&mut out, model, syms, &pk, PkPiece::Ref);
    push_code(&mut out, ").one()) } } impl _toasty::codegen_support::IntoStatement for &mut ");
    push_gen(&mut out, Gen::Sym(model.ident));
    push_code(&mut out, " { type Returning = ");
    push_gen(&mut out, Gen::Sym(model.ident));
    push_code(&mut out, "; fn into_statement(self) -> _toasty::codegen_support::Statement<");
    push_gen(&mut out, Gen::Sym(model.ident));
    push_code(&mut out, "> { (&*self).into_statement() } } impl _toasty::codegen_support::IntoStatement for ");
    push_gen(&mut out, Gen::Sym(model.ident));
    push_code(&mut out, " { type Returning = ");
    push_gen(&mut out, Gen::Sym(model.ident));
    push_code(&mut out, "; fn into_statement(self) -> _toasty::codegen_support::Statement<");
    push_gen(&mut out, Gen::Sym(model.ident));
    push_code(&mut out, "> { (&self).into_statement() } } ");
    assert(gens_view(out@) =~= model_trait_impls_out(m, syms@));
    out
}

} // verus!
