//! The fields struct of a model: a path to one of the model's records, with
//! one accessor per field whose name is free on it.
use vstd::prelude::*;

use crate::case::strip_raw;
use crate::field_list::{has_filter_field, has_filter_field_exec, list_field_kind, push_schema_trait, schema_trait_out, ListField};
use crate::gen::{c, field_ident_at, field_ident_at_exec, gens_view, push_code, push_gen, Gen, GenV};
use crate::schema::field::{field_name_src, field_name_string, FieldTy, FieldV};
use crate::schema::model::{Model, ModelV};
use crate::schema::name::ident_is_reserved;
use crate::text::concat;
use crate::tokens::{sym_string, sym_text};

verus! {

/// The names of the methods that the fields struct has built in.
pub open spec fn field_struct_reserved() -> Seq<Seq<char>> {
    seq!["from_path"@, "path"@, "eq"@, "in_query"@, "into_root"@, "create"@]
}

/// The accessors of the first `n` fields, in field order, without those
/// whose name a built-in method takes.
pub open spec fn struct_fields_from(syms: Seq<String>, fields: Seq<FieldV>, n: int) -> Seq<(usize, ListField)>
    decreases n,
{
    if n <= 0 {
        Seq::empty()
    } else {
        let rest = struct_fields_from(syms, fields, n - 1);
        if field_struct_reserved().contains(strip_raw(field_name_src(syms, fields[n - 1].name))) {
            rest
        } else {
            rest.push(((n - 1) as usize, list_field_kind(fields[n - 1])))
        }
    }
}

fn reserved_names() -> (r: Vec<String>)
    ensures
        r@.map_values(|s: String| s@) == field_struct_reserved(),
{
    let mut out: Vec<String> = Vec::new();
    out.push(crate::text::string_of("from_path"));
    out.push(crate::text::string_of("path"));
    out.push(crate::text::string_of("eq"));
    out.push(crate::text::string_of("in_query"));
    out.push(crate::text::string_of("into_root"));
    out.push(crate::text::string_of("create"));
    assert(out@.map_values(|s: String| s@) =~= field_struct_reserved());
    out
}

/// The accessors of a model's fields struct, in field order.
pub fn struct_fields(model: &Model, syms: &Vec<String>) -> (r: Vec<(usize, ListField)>)
    ensures
        r@ == struct_fields_from(syms@, model.view().fields, model.fields@.len() as int),
{
    let reserved = reserved_names();
    let ghost rv = reserved@.map_values(|s: String| s@);
    let ghost fv = model.view().fields;
    let mut out: Vec<(usize, ListField)> = Vec::new();
    let mut k: usize = 0;
    while k < model.fields.len()
        invariant
            k <= model.fields@.len(),
            fv == model.view().fields,
            fv.len() == model.fields@.len(),
            rv == reserved@.map_values(|s: String| s@),
            rv == field_struct_reserved(),
            out@ == struct_fields_from(syms@, fv, k as int),
        decreases model.fields.len() - k,
    {
        let f = &model.fields[k];
        assert(fv[k as int] == f.view());
        let name = field_name_string(syms, f.name);
        let taken = ident_is_reserved(name.as_str(), &reserved);
        proof {
            let t = strip_raw(field_name_src(syms@, f.name));
            if taken {
                let i = choose|i: int| 0 <= i < reserved@.len() && #[trigger] reserved@[i]@ == t;
                assert(rv[i] == t);
            } else if rv.contains(t) {
                let i = choose|i: int| 0 <= i < rv.len() && rv[i] == t;
                assert(reserved@[i]@ == t);
            }
        }
        if !taken {
            let kind = match &f.ty {
                FieldTy::Primitive => ListField::Primitive,
                FieldTy::BelongsTo(_) => ListField::One,
                FieldTy::HasMany(h) => if h.rel.via.is_some() { ListField::Via } else { ListField::Many },
                FieldTy::HasOne(_) => ListField::One,
            };
            out.push((k, kind));
        }
        k = k + 1;
    }
    out
}

/// The accessor of the field at `k` on the fields struct.
pub open spec fn struct_method_out(m: ModelV, syms: Seq<String>, k: usize, kind: ListField) -> Seq<GenV> {
    match kind {
        ListField::Primitive => c("pub fn "@)
            + seq![GenV::Text(field_ident_at(syms, m.fields, k as int))]
            + c("(&self) -> <"@)
            + seq![GenV::FieldTy(k)]
            + c(" as _toasty::codegen_support::Field>::Path<__Origin> { <"@)
            + seq![GenV::FieldTy(k)]
            + c(" as _toasty::codegen_support::Field>::new_path(self.path().chain(<"@)
            + seq![GenV::Sym(m.ident)]
            + c(" as "@)
            + schema_trait_out(m.kind is Root)
            + c(">::path_field::<<"@)
            + seq![GenV::FieldTy(k)]
            + c(" as _toasty::codegen_support::Field>::ExprTarget>("@)
            + seq![GenV::Int(k)]
            + c("))) } "@),
        ListField::One => c("pub fn "@)
            + seq![GenV::Text(field_ident_at(syms, m.fields, k as int))]
            + c("(&self) -> <<"@)
            + seq![GenV::FieldTy(k)]
            + c(" as _toasty::codegen_support::RelationOneField>::Target as _toasty::codegen_support::Model>::OneField<__Origin> { <<<"@)
            + seq![GenV::FieldTy(k)]
            + c(" as _toasty::codegen_support::RelationOneField>::Target as _toasty::codegen_support::Model>::OneField<__Origin>>::from_path(self.path().chain(<"@)
            + seq![GenV::Sym(m.ident)]
            + c(" as "@)
            + schema_trait_out(m.kind is Root)
            + c(">::path_field("@)
            + seq![GenV::Int(k)]
            + c("))) } "@),
        ListField::Many => c("pub fn "@)
            + seq![GenV::Text(field_ident_at(syms, m.fields, k as int))]
            + c("(&self) -> <<"@)
            + seq![GenV::FieldTy(k)]
            + c(" as _toasty::codegen_support::RelationManyField>::Target as _toasty::codegen_support::Model>::ManyField<__Origin> { <<<"@)
            + seq![GenV::FieldTy(k)]
            + c(" as _toasty::codegen_support::RelationManyField>::Target as _toasty::codegen_support::Model>::ManyField<__Origin>>::from_path(self.path().chain(<"@)
            + seq![GenV::Sym(m.ident)]
            + c(" as "@)
            + schema_trait_out(m.kind is Root)
            + c(">::path_field("@)
            + seq![GenV::Int(k)]
            + c("))) } "@),
        ListField::Via => c("pub fn "@)
            + seq![GenV::Text(field_ident_at(syms, m.fields, k as int))]
            + c("(&self) -> _toasty::codegen_support::ViaPath<"@)
            + seq![GenV::FieldTy(k)]
            + c(", __Origin> { <<"@)
            + seq![GenV::FieldTy(k)]
            + c(" as _toasty::codegen_support::ViaManyField>::Target as _toasty::codegen_support::ViaTarget>::new_path(self.path().chain(<"@)
            + seq![GenV::Sym(m.ident)]
            + c(" as "@)
            + schema_trait_out(m.kind is Root)
            + c(">::path_field("@)
            + seq![GenV::Int(k)]
            + c("))) } "@),
    }
}

pub open spec fn struct_methods_out(m: ModelV, syms: Seq<String>, ks: Seq<(usize, ListField)>) -> Seq<GenV>
    decreases ks.len(),
{
    if ks.len() == 0 { Seq::empty() } else { struct_methods_out(m, syms, ks.drop_last()) + struct_method_out(m, syms, ks.last().0, ks.last().1) }
}

/// The include filter of a root model's record.
pub open spec fn struct_include_filter_out(m: ModelV) -> Seq<GenV> {
    c("#[doc = \" Restricts the related rows loaded by `.include(...)`.\"] pub fn filter(self, predicate: \
        _toasty::codegen_support::stmt::Expr<bool>) -> _toasty::codegen_support::stmt::Include<__Origin, "@)
        + seq![GenV::Sym(m.ident)]
        + c("> { _toasty::codegen_support::stmt::Include::from_path_and_query(self.path, _toasty::codegen_support::stmt::Query::<_toasty::codegen_support::stmt::List<"@)
        + seq![GenV::Sym(m.ident)]
        + c(">>::all().filter(predicate)) } "@)
}

/// `create` on a root model's record path.
pub open spec fn struct_create_out(m: ModelV, syms: Seq<String>) -> Seq<GenV> {
    c("pub fn create(&self) -> "@)
        + seq![GenV::Text(sym_text(syms, m.ident as int) + "Create"@)]
        + c(" { "@)
        + seq![GenV::Text(sym_text(syms, m.ident as int) + "Create"@)]
        + c("::default() } "@)
}

/// The fields struct of a model: the path to one of the model's records,
/// with one accessor per field whose name is free on it.
#[verifier::opaque]
pub open spec fn field_struct_out(m: ModelV, syms: Seq<String>) -> Seq<GenV> {
    c("pub struct "@)
        + seq![GenV::Text(sym_text(syms, m.ident as int) + "Fields"@)]
        + c("<__Origin> { path: _toasty::codegen_support::Path<__Origin, "@)
        + seq![GenV::Sym(m.ident)]
        + c(">, } impl<__Origin> "@)
        + seq![GenV::Text(sym_text(syms, m.ident as int) + "Fields"@)]
        + c("<__Origin> { pub "@)
        + c("const"@)
        + c(" fn from_path(path: _toasty::codegen_support::Path<__Origin, "@)
        + seq![GenV::Sym(m.ident)]
        + c(">) -> "@)
        + seq![GenV::Text(sym_text(syms, m.ident as int) + "Fields"@)]
        + c("<__Origin> { "@)
        + seq![GenV::Text(sym_text(syms, m.ident as int) + "Fields"@)]
        + c(" { path } } fn path(&self) -> _toasty::codegen_support::Path<__Origin, "@)
        + seq![GenV::Sym(m.ident)]
        + c("> { self.path.clone() } pub fn eq(self, rhs: impl _toasty::codegen_support::IntoExpr<"@)
        + seq![GenV::Sym(m.ident)]
        + c(">) -> _toasty::codegen_support::stmt::Expr<bool> { use _toasty::codegen_support::IntoExpr; \
            self.path.eq(rhs.into_expr()) } pub fn in_query(self, rhs: impl _toasty::codegen_support::IntoStatement<Returning \
            = _toasty::codegen_support::List<"@)
        + seq![GenV::Sym(m.ident)]
        + c(">>) -> _toasty::codegen_support::stmt::Expr<bool> { self.path.in_query(rhs) } #[doc = \" \
            Discard `self`'s origin parameter and return a fresh\"] #[doc = \" fields struct typed against \
            this model. Used by\"] #[doc = \" `update!` to build `stmt::patch` paths for embedded\"] \
            #[doc = \" partial updates.\"] #[doc(hidden)] pub fn into_root(self) -> "@)
        + seq![GenV::Text(sym_text(syms, m.ident as int) + "Fields"@)]
        + c("<"@)
        + seq![GenV::Sym(m.ident)]
        + c("> { let _ = self; "@)
        + seq![GenV::Text(sym_text(syms, m.ident as int) + "Fields"@)]
        + c("::from_path(<"@)
        + seq![GenV::Sym(m.ident)]
        + c(" as "@)
        + schema_trait_out(m.kind is Root)
        + c(">::path_root()) } "@)
        + (if m.kind is Root && !has_filter_field(syms, m.fields) { struct_include_filter_out(m) } else { Seq::empty() })
        + (if m.kind is Root { struct_create_out(m, syms) } else { Seq::empty() })
        + struct_methods_out(m, syms, struct_fields_from(syms, m.fields, m.fields.len() as int))
        + c("} impl<__Origin> Into<_toasty::codegen_support::Path<__Origin, "@)
        + seq![GenV::Sym(m.ident)]
        + c(">> for "@)
        + seq![GenV::Text(sym_text(syms, m.ident as int) + "Fields"@)]
        + c("<__Origin> { fn into(self) -> _toasty::codegen_support::Path<__Origin, "@)
        + seq![GenV::Sym(m.ident)]
        + c("> { self.path } } impl<__Origin> _toasty::codegen_support::IntoExpr<"@)
        + seq![GenV::Sym(m.ident)]
        + c("> for "@)
        + seq![GenV::Text(sym_text(syms, m.ident as int) + "Fields"@)]
        + c("<__Origin> { fn into_expr(self) -> _toasty::codegen_support::stmt::Expr<"@)
        + seq![GenV::Sym(m.ident)]
        + c("> { self.path.into_expr() } fn by_ref(&self) -> _toasty::codegen_support::stmt::Expr<"@)
        + seq![GenV::Sym(m.ident)]
        + c("> { self.path.by_ref() } } impl<__Origin> Into<_toasty::codegen_support::stmt::Include<__Origin, "@)
        + seq![GenV::Sym(m.ident)]
        + c(">> for "@)
        + seq![GenV::Text(sym_text(syms, m.ident as int) + "Fields"@)]
        + c("<__Origin> { fn into(self) -> _toasty::codegen_support::stmt::Include<__Origin, "@)
        + seq![GenV::Sym(m.ident)]
        + c("> { self.path.into() } } "@)
}

fn push_struct_method(out: &mut Vec<Gen>, model: &Model, syms: &Vec<String>, k: usize, kind: ListField)
    ensures
        gens_view(final(out)@) == gens_view(old(out)@) + struct_method_out(model.view(), syms@, k, kind),
{
    match kind {
        ListField::Primitive => push_struct_method_primitive(out, model, syms, k),
        ListField::One => push_struct_method_one(out, model, syms, k),
        ListField::Many => push_struct_method_many(out, model, syms, k),
        ListField::Via => push_struct_method_via(out, model, syms, k),
    }
}

#[verifier::spinoff_prover]
fn push_struct_method_primitive(out: &mut Vec<Gen>, model: &Model, syms: &Vec<String>, k: usize)
    ensures
        gens_view(final(out)@) == gens_view(old(out)@) + struct_method_out(model.view(), syms@, k, ListField::Primitive),
{
    let ghost start = gens_view(out@);
    push_code(out, "pub fn ");
    push_gen(out, Gen::Text(field_ident_at_exec(model, syms, k)));
    push_code(out, "(&self) -> <");
    push_gen(out, Gen::FieldTy(k));
    push_code(out, " as _toasty::codegen_support::Field>::Path<__Origin> { <");
    push_gen(out, Gen::FieldTy(k));
    push_code(out, " as _toasty::codegen_support::Field>::new_path(self.path().chain(<");
    push_gen(out, Gen::Sym(model.ident));
    push_code(out, " as ");
    push_schema_trait(out, model.kind.as_root().is_some());
    push_code(out, ">::path_field::<<");
    push_gen(out, Gen::FieldTy(k));
    push_code(out, " as _toasty::codegen_support::Field>::ExprTarget>(");
    push_gen(out, Gen::Int(k));
    push_code(out, "))) } ");
    assert(gens_view(out@) =~= start + struct_method_out(model.view(), syms@, k, ListField::Primitive));
}

#[verifier::spinoff_prover]
fn push_struct_method_one(out: &mut Vec<Gen>, model: &Model, syms: &Vec<String>, k: usize)
    ensures
        gens_view(final(out)@) == gens_view(old(out)@) + struct_method_out(model.view(), syms@, k, ListField::One),
{
    let ghost start = gens_view(out@);
    push_code(out, "pub fn ");
    push_gen(out, Gen::Text(field_ident_at_exec(model, syms, k)));
    push_code(out, "(&self) -> <<");
    push_gen(out, Gen::FieldTy(k));
    push_code(out, " as _toasty::codegen_support::RelationOneField>::Target as _toasty::codegen_support::Model>::OneField<__Origin> { <<<");
    push_gen(out, Gen::FieldTy(k));
    push_code(out, " as _toasty::codegen_support::RelationOneField>::Target as _toasty::codegen_support::Model>::OneField<__Origin>>::from_path(self.path().chain(<");
    push_gen(out, Gen::Sym(model.ident));
    push_code(out, " as ");
    push_schema_trait(out, model.kind.as_root().is_some());
    push_code(out, ">::path_field(");
    push_gen(out, Gen::Int(k));
    push_code(out, "))) } ");
    assert(gens_view(out@) =~= start + struct_method_out(model.view(), syms@, k, ListField::One));
}

#[verifier::spinoff_prover]
fn push_struct_method_many(out: &mut Vec<Gen>, model: &Model, syms: &Vec<String>, k: usize)
    ensures
        gens_view(final(out)@) == gens_view(old(out)@) + struct_method_out(model.view(), syms@, k, ListField::Many),
{
    let ghost start = gens_view(out@);
    push_code(out, "pub fn ");
    push_gen(out, Gen::Text(field_ident_at_exec(model, syms, k)));
    push_code(out, "(&self) -> <<");
    push_gen(out, Gen::FieldTy(k));
    push_code(out, " as _toasty::codegen_support::RelationManyField>::Target as _toasty::codegen_support::Model>::ManyField<__Origin> { <<<");
    push_gen(out, Gen::FieldTy(k));
    push_code(out, " as _toasty::codegen_support::RelationManyField>::Target as _toasty::codegen_support::Model>::ManyField<__Origin>>::from_path(self.path().chain(<");
    push_gen(out, Gen::Sym(model.ident));
    push_code(out, " as ");
    push_schema_trait(out, model.kind.as_root().is_some());
    push_code(out, ">::path_field(");
    push_gen(out, Gen::Int(k));
    push_code(out, "))) } ");
    assert(gens_view(out@) =~= start + struct_method_out(model.view(), syms@, k, ListField::Many));
}

#[verifier::spinoff_prover]
fn push_struct_method_via(out: &mut Vec<Gen>, model: &Model, syms: &Vec<String>, k: usize)
    ensures
        gens_view(final(out)@) == gens_view(old(out)@) + struct_method_out(model.view(), syms@, k, ListField::Via),
{
    let ghost start = gens_view(out@);
    push_code(out, "pub fn ");
    push_gen(out, Gen::Text(field_ident_at_exec(model, syms, k)));
    push_code(out, "(&self) -> _toasty::codegen_support::ViaPath<");
    push_gen(out, Gen::FieldTy(k));
    push_code(out, ", __Origin> { <<");
    push_gen(out, Gen::FieldTy(k));
    push_code(out, " as _toasty::codegen_support::ViaManyField>::Target as _toasty::codegen_support::ViaTarget>::new_path(self.path().chain(<");
    push_gen(out, Gen::Sym(model.ident));
    push_code(out, " as ");
    push_schema_trait(out, model.kind.as_root().is_some());
    push_code(out, ">::path_field(");
    push_gen(out, Gen::Int(k));
    push_code(out, "))) } ");
    assert(gens_view(out@) =~= start + struct_method_out(model.view(), syms@, k, ListField::Via));
}

fn push_struct_methods(out: &mut Vec<Gen>, model: &Model, syms: &Vec<String>, ks: &Vec<(usize, ListField)>)
    ensures
        gens_view(final(out)@) == gens_view(old(out)@) + struct_methods_out(model.view(), syms@, ks@),
{
    let ghost start = gens_view(out@);
    let ghost m = model.view();
    let mut i: usize = 0;
    while i < ks.len()
        invariant
            i <= ks@.len(),
            m == model.view(),
            gens_view(out@) == start + struct_methods_out(m, syms@, ks@.subrange(0, i as int)),
        decreases ks.len() - i,
    {
        push_struct_method(out, model, syms, ks[i].0, ks[i].1);
        assert(ks@.subrange(0, i + 1).drop_last() =~= ks@.subrange(0, i as int));
        i = i + 1;
        assert(gens_view(out@) =~= start + struct_methods_out(m, syms@, ks@.subrange(0, i as int)));
    }
    assert(ks@.subrange(0, i as int) =~= ks@);
}

fn push_struct_include_filter(out: &mut Vec<Gen>, model: &Model)
    ensures
        gens_view(final(out)@) == gens_view(old(out)@) + struct_include_filter_out(model.view()),
{
    let ghost start = gens_view(out@);
    push_code(out, "#[doc = \" Restricts the related rows loaded by `.include(...)`.\"] pub fn filter(self, \
        predicate: _toasty::codegen_support::stmt::Expr<bool>) -> _toasty::codegen_support::stmt::Include<__Origin, ");
    push_gen(out, Gen::Sym(model.ident));
    push_code(out, "> { _toasty::codegen_support::stmt::Include::from_path_and_query(self.path, _toasty::codegen_support::stmt::Query::<_toasty::codegen_support::stmt::List<");
    push_gen(out, Gen::Sym(model.ident));
    push_code(out, ">>::all().filter(predicate)) } ");
    assert(gens_view(out@) =~= start + struct_include_filter_out(model.view()));
}

fn push_struct_create(out: &mut Vec<Gen>, model: &Model, syms: &Vec<String>)
    ensures
        gens_view(final(out)@) == gens_view(old(out)@) + struct_create_out(model.view(), syms@),
{
    let ghost start = gens_view(out@);
    push_code(out, "pub fn create(&self) -> ");
    push_gen(out, Gen::Text(concat(sym_string(syms, model.ident).as_str(), "Create")));
    push_code(out, " { ");
    push_gen(out, Gen::Text(concat(sym_string(syms, model.ident).as_str(), "Create")));
    push_code(out, "::default() } ");
    assert(gens_view(out@) =~= start + struct_create_out(model.view(), syms@));
}

/// The fields struct of a model.
pub fn expand_field_struct(model: &Model, syms: &Vec<String>) -> (r: Vec<Gen>)
    ensures
        gens_view(r@) == field_struct_out(model.view(), syms@),
{
    proof {
        reveal(field_struct_out);
    }
    let ghost m = model.view();
    let kept = struct_fields(model, syms);
    let has_filter = has_filter_field_exec(model, syms);
    let mut out: Vec<Gen> = Vec::new();
    proof {
        crate::gen::lemma_gens_empty(out@);
    }

    push_code(&mut out, "pub struct ");
    push_gen(&mut out, Gen::Text(concat(sym_string(syms, model.ident).as_str(), "Fields")));
    push_code(&mut out, "<__Origin> { path: _toasty::codegen_support::Path<__Origin, ");
    push_gen(&mut out, Gen::Sym(model.ident));
    push_code(&mut out, ">, } impl<__Origin> ");
    push_gen(&mut out, Gen::Text(concat(sym_string(syms, model.ident).as_str(), "Fields")));
    push_code(&mut out, "<__Origin> { pub ");
    push_code(&mut out, "const");
    push_code(&mut out, " fn from_path(path: _toasty::codegen_support::Path<__Origin, ");
    push_gen(&mut out, Gen::Sym(model.ident));
    push_code(&mut out, ">) -> ");
    push_gen(&mut out, Gen::Text(concat(sym_string(syms, model.ident).as_str(), "Fields")));
    push_code(&mut out, "<__Origin> { ");
    push_gen(&mut out, Gen::Text(concat(sym_string(syms, model.ident).as_str(), "Fields")));
    push_code(&mut out, " { path } } fn path(&self) -> _toasty::codegen_support::Path<__Origin, ");
    push_gen(&mut out, Gen::Sym(model.ident));
    push_code(&mut out, "> { self.path.clone() } pub fn eq(self, rhs: impl _toasty::codegen_support::IntoExpr<");
    push_gen(&mut out, Gen::Sym(model.ident));
    push_code(&mut out, ">) -> _toasty::codegen_support::stmt::Expr<bool> { use _toasty::codegen_support::IntoExpr; \
    self.path.eq(rhs.into_expr()) } pub fn in_query(self, rhs: impl _toasty::codegen_support::IntoStatement<Returning \
    = _toasty::codegen_support::List<");
    push_gen(&mut out, Gen::Sym(model.ident));
    push_code(&mut out, ">>) -> _toasty::codegen_support::stmt::Expr<bool> { self.path.in_query(rhs) } #[doc \
    = \" Discard `self`'s origin parameter and return a fresh\"] #[doc = \" fields struct typed against \
    this model. Used by\"] #[doc = \" `update!` to build `stmt::patch` paths for embedded\"] #[doc = \
    \" partial updates.\"] #[doc(hidden)] pub fn into_root(self) -> ");
    push_gen(&mut out, Gen::Text(concat(sym_string(syms, model.ident).as_str(), "Fields")));
    push_code(&mut out, "<");
    push_gen(&mut out, Gen::Sym(model.ident));
    push_code(&mut out, "> { let _ = self; ");
    push_gen(&mut out, Gen::Text(concat(sym_string(syms, model.ident).as_str(), "Fields")));
    push_code(&mut out, "::from_path(<");
    push_gen(&mut out, Gen::Sym(model.ident));
    push_code(&mut out, " as ");
    push_schema_trait(&mut out, model.kind.as_root().is_some());
    push_code(&mut out, ">::path_root()) } ");
    if model.kind.as_root().is_some() && !has_filter { push_struct_include_filter(&mut out, model); }
    if model.kind.as_root().is_some() { push_struct_create(&mut out, model, syms); }
    push_struct_methods(&mut out, model, syms, &kept);
    push_code(&mut out, "} impl<__Origin> Into<_toasty::codegen_support::Path<__Origin, ");
    push_gen(&mut out, Gen::Sym(model.ident));
    push_code(&mut out, ">> for ");
    push_gen(&mut out, Gen::Text(concat(sym_string(syms, model.ident).as_str(), "Fields")));
    push_code(&mut out, "<__Origin> { fn into(self) -> _toasty::codegen_support::Path<__Origin, ");
    push_gen(&mut out, Gen::Sym(model.ident));
    push_code(&mut out, "> { self.path } } impl<__Origin> _toasty::codegen_support::IntoExpr<");
    push_gen(&mut out, Gen::Sym(model.ident));
    push_code(&mut out, "> for ");
    push_gen(&mut out, Gen::Text(concat(sym_string(syms, model.ident).as_str(), "Fields")));
    push_code(&mut out, "<__Origin> { fn into_expr(self) -> _toasty::codegen_support::stmt::Expr<");
    push_gen(&mut out, Gen::Sym(model.ident));
    push_code(&mut out, "> { self.path.into_expr() } fn by_ref(&self) -> _toasty::codegen_support::stmt::Expr<");
    push_gen(&mut out, Gen::Sym(model.ident));
    push_code(&mut out, "> { self.path.by_ref() } } impl<__Origin> Into<_toasty::codegen_support::stmt::Include<__Origin, ");
    push_gen(&mut out, Gen::Sym(model.ident));
    push_code(&mut out, ">> for ");
    push_gen(&mut out, Gen::Text(concat(sym_string(syms, model.ident).as_str(), "Fields")));
    push_code(&mut out, "<__Origin> { fn into(self) -> _toasty::codegen_support::stmt::Include<__Origin, ");
    push_gen(&mut out, Gen::Sym(model.ident));
    push_code(&mut out, "> { self.path.into() } } ");
    assert(gens_view(out@) =~= field_struct_out(m, syms@));
    out
}

} // verus!
