//! The list fields struct of a model: a path to a list of the model's
//! records, with one accessor per field whose name is free on it.
use vstd::prelude::*;

use crate::case::strip_raw;
use crate::gen::{c, field_ident_at, field_ident_at_exec, gens_view, push_code, push_gen, Gen, GenV};
use crate::schema::field::{field_name, field_name_src, field_name_string, FieldTy, FieldTyV, FieldV};
use crate::schema::model::{Model, ModelV};
use crate::schema::name::{ident_is_reserved, snake_name};
use crate::text::{concat, str_eq};
use crate::tokens::{sym_string, sym_text};

verus! {

/// How the list accessor of a field reaches it.
#[derive(Clone, Copy, PartialEq, Eq, Debug, Structural)]
pub enum ListField {
    /// A plain field: the list path of the field's type.
    Primitive,
    /// `#[belongs_to]` or `#[has_one]`: the target's list.
    One,
    /// `#[has_many]`: the target's list.
    Many,
    /// `#[has_many(via = ..)]`: the path of the via target.
    Via,
}

/// The names of the methods that the list fields struct has built in.
pub open spec fn field_list_reserved() -> Seq<Seq<char>> {
    seq!["from_path"@, "path"@, "any"@, "all"@, "create"@]
}

pub open spec fn list_field_kind(f: FieldV) -> ListField {
    match f.ty {
        FieldTyV::Primitive => ListField::Primitive,
        FieldTyV::BelongsTo(_) => ListField::One,
        FieldTyV::HasMany(pv) => if pv.via is Some { ListField::Via } else { ListField::Many },
        FieldTyV::HasOne(_) => ListField::One,
    }
}

/// The snake-case name of the field at `k`.
pub open spec fn field_snake_at(syms: Seq<String>, fields: Seq<FieldV>, k: int) -> Seq<char> {
    snake_name(field_name_src(syms, fields[k].name))
}

/// The field at `k` gets an accessor: no earlier field has its name (the
/// fields of an enum's variants may share one) and the name is not one of
/// the built-in methods.
pub open spec fn list_field_kept(syms: Seq<String>, fields: Seq<FieldV>, k: int) -> bool {
    &&& forall|j: int| 0 <= j < k ==> field_snake_at(syms, fields, j) != field_snake_at(syms, fields, k)
    &&& !field_list_reserved().contains(strip_raw(field_name_src(syms, fields[k].name)))
}

/// The accessors of the first `n` fields, in field order.
pub open spec fn list_fields_from(syms: Seq<String>, fields: Seq<FieldV>, n: int) -> Seq<(usize, ListField)>
    decreases n,
{
    if n <= 0 {
        Seq::empty()
    } else {
        let rest = list_fields_from(syms, fields, n - 1);
        if list_field_kept(syms, fields, n - 1) {
            rest.push(((n - 1) as usize, list_field_kind(fields[n - 1])))
        } else {
            rest
        }
    }
}

/// Some field is named `filter`; the include filter then gives way to its
/// accessor.
pub open spec fn has_filter_field(syms: Seq<String>, fields: Seq<FieldV>) -> bool {
    exists|k: int| 0 <= k < fields.len() && strip_raw(field_name_src(syms, #[trigger] fields[k].name)) == "filter"@
}

fn reserved_names() -> (r: Vec<String>)
    ensures
        r@.map_values(|s: String| s@) == field_list_reserved(),
{
    let mut out: Vec<String> = Vec::new();
    out.push(crate::text::string_of("from_path"));
    out.push(crate::text::string_of("path"));
    out.push(crate::text::string_of("any"));
    out.push(crate::text::string_of("all"));
    out.push(crate::text::string_of("create"));
    assert(out@.map_values(|s: String| s@) =~= field_list_reserved());
    out
}

/// Whether some field of the model is named `filter`.
pub fn has_filter_field_exec(model: &Model, syms: &Vec<String>) -> (r: bool)
    ensures
        r == has_filter_field(syms@, model.view().fields),
{
    let ghost fv = model.view().fields;
    let mut k: usize = 0;
    while k < model.fields.len()
        invariant
            k <= model.fields@.len(),
            fv == model.view().fields,
            fv.len() == model.fields@.len(),
            forall|j: int| 0 <= j < k ==> strip_raw(field_name_src(syms@, #[trigger] fv[j].name)) != "filter"@,
        decreases model.fields.len() - k,
    {
        assert(fv[k as int] == model.fields@[k as int].view());
        let name = field_name_string(syms, model.fields[k].name);
        let bare = crate::schema::name::bare_ident_name(name.as_str());
        if str_eq(bare.as_str(), "filter") {
            proof {
                reveal_strlit("filter");
                assert(strip_raw(field_name_src(syms@, fv[k as int].name)) == "filter"@);
            }
            return true;
        }
        k = k + 1;
    }
    false
}

/// The accessors of a model's list fields struct, in field order.
pub fn list_fields(model: &Model, syms: &Vec<String>) -> (r: Vec<(usize, ListField)>)
    ensures
        r@ == list_fields_from(syms@, model.view().fields, model.fields@.len() as int),
{
    let reserved = reserved_names();
    let ghost rv = reserved@.map_values(|s: String| s@);
    let ghost fv = model.view().fields;
    let mut names: Vec<String> = Vec::new();
    let mut out: Vec<(usize, ListField)> = Vec::new();
    let mut k: usize = 0;
    while k < model.fields.len()
        invariant
            k <= model.fields@.len(),
            fv == model.view().fields,
            fv.len() == model.fields@.len(),
            rv == reserved@.map_values(|s: String| s@),
            rv == field_list_reserved(),
            names@.len() == k,
            forall|j: int| 0 <= j < k ==> #[trigger] names@[j]@ == field_snake_at(syms@, fv, j),
            out@ == list_fields_from(syms@, fv, k as int),
        decreases model.fields.len() - k,
    {
        let f = &model.fields[k];
        assert(fv[k as int] == f.view());
        let src = field_name_string(syms, f.name);
        let taken = ident_is_reserved(src.as_str(), &reserved);
        let n = field_name(syms, f.name);
        let snake = crate::text::string_of(n.as_str());
        let mut seen = false;
        let mut j: usize = 0;
        while j < k
            invariant
                j <= k,
                k < fv.len(),
                names@.len() == k,
                snake@ == field_snake_at(syms@, fv, k as int),
                forall|i: int| 0 <= i < k ==> #[trigger] names@[i]@ == field_snake_at(syms@, fv, i),
                seen <==> exists|i: int| 0 <= i < j && field_snake_at(syms@, fv, i) == field_snake_at(syms@, fv, k as int),
            decreases k - j,
        {
            if str_eq(names[j].as_str(), snake.as_str()) {
                seen = true;
            }
            j = j + 1;
        }
        proof {
            let t = strip_raw(field_name_src(syms@, f.name));
            if taken {
                let i = choose|i: int| 0 <= i < reserved@.len() && #[trigger] reserved@[i]@ == t;
                assert(rv[i] == t);
            } else if rv.contains(t) {
                let i = choose|i: int| 0 <= i < rv.len() && rv[i] == t;
                assert(reserved@[i]@ == t);
            }
            if seen {
                let i = choose|i: int| 0 <= i < k && field_snake_at(syms@, fv, i) == field_snake_at(syms@, fv, k as int);
                assert(!list_field_kept(syms@, fv, k as int));
            }
        }
        if !seen && !taken {
            let kind = match &f.ty {
                FieldTy::Primitive => ListField::Primitive,
                FieldTy::BelongsTo(_) => ListField::One,
                FieldTy::HasMany(h) => if h.rel.via.is_some() { ListField::Via } else { ListField::Many },
                FieldTy::HasOne(_) => ListField::One,
            };
            out.push((k, kind));
        }
        names.push(snake);
        k = k + 1;
    }
    out
}

pub open spec fn schema_trait_out(root: bool) -> Seq<GenV> {
    if root { c("_toasty::codegen_support::Model"@) } else { c("_toasty::codegen_support::Embed"@) }
}

pub(crate) fn push_schema_trait(out: &mut Vec<Gen>, root: bool)
    ensures
        gens_view(final(out)@) == gens_view(old(out)@) + schema_trait_out(root),
{
    if root { push_code(out, "_toasty::codegen_support::Model") } else { push_code(out, "_toasty::codegen_support::Embed") }
}

/// The accessor of the field at `k` on the list fields struct.
pub open spec fn list_method_out(m: ModelV, syms: Seq<String>, k: usize, kind: ListField) -> Seq<GenV> {
    match kind {
        ListField::Primitive => c("pub fn "@)
            + seq![GenV::Text(field_ident_at(syms, m.fields, k as int))]
            + c("(&self) -> <"@)
            + seq![GenV::FieldTy(k)]
            + c(" as _toasty::codegen_support::Field>::ListPath<__Origin> { <"@)
            + seq![GenV::FieldTy(k)]
            + c(" as _toasty::codegen_support::Field>::new_list_path(self.path().chain(<"@)
            + seq![GenV::Sym(m.ident)]
            + c(" as "@)
            + schema_trait_out(m.kind is Root)
            + c(">::path_field("@)
            + seq![GenV::Int(k)]
            + c("))) } "@),
        ListField::One => c("pub fn "@)
            + seq![GenV::Text(field_ident_at(syms, m.fields, k as int))]
            + c("(&self) -> <<"@)
            + seq![GenV::FieldTy(k)]
            + c(" as _toasty::codegen_support::RelationOneField>::Target as _toasty::codegen_support::Model>::ManyField<__Origin> { <<<"@)
            + seq![GenV::FieldTy(k)]
            + c(" as _toasty::codegen_support::RelationOneField>::Target as _toasty::codegen_support::Model>::ManyField<__Origin>>::from_path(self.path().chain(<"@)
            + seq![GenV::Sym(m.ident)]
            + c(" as "@)
            + schema_trait_out(m.kind is Root)
            + c(">::path_field("@)
            + seq![GenV::Int(k)]
            + c("))) } "@),
        ListField::Many => c("pub fn "@)
            + seq![GenV::Text(field_ident_at(syms, m.fields, k as int))]
            + c("(&self) -> <<"@)
            + seq![GenV::FieldTy(k)]
            + c(" as _toasty::codegen_support::RelationManyField>::Target as _toasty::codegen_support::Model>::ManyField<__Origin> { <<<"@)
            + seq![GenV::FieldTy(k)]
            + c(" as _toasty::codegen_support::RelationManyField>::Target as _toasty::codegen_support::Model>::ManyField<__Origin>>::from_path(self.path().chain(<"@)
            + seq![GenV::Sym(m.ident)]
            + c(" as "@)
            + schema_trait_out(m.kind is Root)
            + c(">::path_field("@)
            + seq![GenV::Int(k)]
            + c("))) } "@),
        ListField::Via => c("pub fn "@)
            + seq![GenV::Text(field_ident_at(syms, m.fields, k as int))]
            + c("(&self) -> _toasty::codegen_support::ViaPath<"@)
            + seq![GenV::FieldTy(k)]
            + c(", __Origin> { <<"@)
            + seq![GenV::FieldTy(k)]
            + c(" as _toasty::codegen_support::ViaManyField>::Target as _toasty::codegen_support::ViaTarget>::new_path(self.path().chain(<"@)
            + seq![GenV::Sym(m.ident)]
            + c(" as "@)
            + schema_trait_out(m.kind is Root)
            + c(">::path_field("@)
            + seq![GenV::Int(k)]
            + c("))) } "@),
    }
}

pub open spec fn list_methods_out(m: ModelV, syms: Seq<String>, ks: Seq<(usize, ListField)>) -> Seq<GenV>
    decreases ks.len(),
{
    if ks.len() == 0 { Seq::empty() } else { list_methods_out(m, syms, ks.drop_last()) + list_method_out(m, syms, ks.last().0, ks.last().1) }
}

/// `any` and `all` on the list of a root model.
pub open spec fn any_all_out() -> Seq<GenV> {
    c("#[doc = \" Filter the parent model by a condition on the associated\"] #[doc = \" (child) model. \
        Returns `true` when **any** associated record\"] #[doc = \" satisfies `filter`.\"] pub fn any(self, \
        filter: _toasty::codegen_support::stmt::Expr<bool>) -> _toasty::codegen_support::stmt::Expr<bool> \
        { self.path.any(filter) } #[doc = \" Filter the parent model by a condition on the associated\"] \
        #[doc = \" (child) model. Returns `true` when **all** associated records\"] #[doc = \" satisfy \
        `filter` (vacuously true when there are no\"] #[doc = \" associated records).\"] pub fn all(self, \
        filter: _toasty::codegen_support::stmt::Expr<bool>) -> _toasty::codegen_support::stmt::Expr<bool> \
        { self.path.all(filter) } "@)
}

/// The include filter of a root model's list.
pub open spec fn include_filter_out(m: ModelV) -> Seq<GenV> {
    c("#[doc = \" Restricts the related rows loaded by `.include(...)`.\"] pub fn filter(self, predicate: \
        _toasty::codegen_support::stmt::Expr<bool>) -> _toasty::codegen_support::stmt::Include<__Origin, \
        _toasty::codegen_support::List<"@)
        + seq![GenV::Sym(m.ident)]
        + c(">> { _toasty::codegen_support::stmt::Include::from_path_and_query(self.path, _toasty::codegen_support::stmt::Query::<_toasty::codegen_support::stmt::List<"@)
        + seq![GenV::Sym(m.ident)]
        + c(">>::all().filter(predicate)) } "@)
}

/// `create` on the list of a root model.
pub open spec fn list_create_out(m: ModelV, syms: Seq<String>) -> Seq<GenV> {
    c("pub fn create(&self) -> "@)
        + seq![GenV::Text(sym_text(syms, m.ident as int) + "Create"@)]
        + c(" { "@)
        + seq![GenV::Text(sym_text(syms, m.ident as int) + "Create"@)]
        + c("::default() } "@)
}

/// The list fields struct of a model: the path to a list of the model's
/// records, with one accessor per kept field.
#[verifier::opaque]
pub open spec fn field_list_struct_out(m: ModelV, syms: Seq<String>) -> Seq<GenV> {
    c("pub struct "@)
        + seq![GenV::Text(sym_text(syms, m.ident as int) + "ListFields"@)]
        + c("<__Origin> { path: _toasty::codegen_support::Path<__Origin, _toasty::codegen_support::List<"@)
        + seq![GenV::Sym(m.ident)]
        + c(">>, } impl<__Origin> "@)
        + seq![GenV::Text(sym_text(syms, m.ident as int) + "ListFields"@)]
        + c("<__Origin> { pub "@)
        + c("const"@)
        + c(" fn from_path(path: _toasty::codegen_support::Path<__Origin, _toasty::codegen_support::List<"@)
        + seq![GenV::Sym(m.ident)]
        + c(">>) -> "@)
        + seq![GenV::Text(sym_text(syms, m.ident as int) + "ListFields"@)]
        + c("<__Origin> { "@)
        + seq![GenV::Text(sym_text(syms, m.ident as int) + "ListFields"@)]
        + c(" { path } } fn path(&self) -> _toasty::codegen_support::Path<__Origin, _toasty::codegen_support::List<"@)
        + seq![GenV::Sym(m.ident)]
        + c(">> { self.path.clone() } "@)
        + (if m.kind is Root { any_all_out() } else { Seq::empty() })
        + (if m.kind is Root && !has_filter_field(syms, m.fields) { include_filter_out(m) } else { Seq::empty() })
        + (if m.kind is Root { list_create_out(m, syms) } else { Seq::empty() })
        + list_methods_out(m, syms, list_fields_from(syms, m.fields, m.fields.len() as int))
        + c("} impl<__Origin> Into<_toasty::codegen_support::Path<__Origin, _toasty::codegen_support::List<"@)
        + seq![GenV::Sym(m.ident)]
        + c(">>> for "@)
        + seq![GenV::Text(sym_text(syms, m.ident as int) + "ListFields"@)]
        + c("<__Origin> { fn into(self) -> _toasty::codegen_support::Path<__Origin, _toasty::codegen_support::List<"@)
        + seq![GenV::Sym(m.ident)]
        + c(">> { self.path } } impl<__Origin> _toasty::codegen_support::IntoExpr<_toasty::codegen_support::List<"@)
        + seq![GenV::Sym(m.ident)]
        + c(">> for "@)
        + seq![GenV::Text(sym_text(syms, m.ident as int) + "ListFields"@)]
        + c("<__Origin> { fn into_expr(self) -> _toasty::codegen_support::stmt::Expr<_toasty::codegen_support::List<"@)
        + seq![GenV::Sym(m.ident)]
        + c(">> { self.path.into_expr() } fn by_ref(&self) -> _toasty::codegen_support::stmt::Expr<_toasty::codegen_support::List<"@)
        + seq![GenV::Sym(m.ident)]
        + c(">> { self.path.by_ref() } } impl<__Origin> Into<_toasty::codegen_support::stmt::Include<__Origin, _toasty::codegen_support::List<"@)
        + seq![GenV::Sym(m.ident)]
        + c(">>> for "@)
        + seq![GenV::Text(sym_text(syms, m.ident as int) + "ListFields"@)]
        + c("<__Origin> { fn into(self) -> _toasty::codegen_support::stmt::Include<__Origin, _toasty::codegen_support::List<"@)
        + seq![GenV::Sym(m.ident)]
        + c(">> { self.path.into() } } "@)
}

fn push_list_method(out: &mut Vec<Gen>, model: &Model, syms: &Vec<String>, k: usize, kind: ListField)
    ensures
        gens_view(final(out)@) == gens_view(old(out)@) + list_method_out(model.view(), syms@, k, kind),
{
    match kind {
        ListField::Primitive => push_list_method_primitive(out, model, syms, k),
        ListField::One => push_list_method_one(out, model, syms, k),
        ListField::Many => push_list_method_many(out, model, syms, k),
        ListField::Via => push_list_method_via(out, model, syms, k),
    }
}

#[verifier::spinoff_prover]
fn push_list_method_primitive(out: &mut Vec<Gen>, model: &Model, syms: &Vec<String>, k: usize)
    ensures
        gens_view(final(out)@) == gens_view(old(out)@) + list_method_out(model.view(), syms@, k, ListField::Primitive),
{
    let ghost start = gens_view(out@);
    push_code(out, "pub fn ");
    push_gen(out, Gen::Text(field_ident_at_exec(model, syms, k)));
    push_code(out, "(&self) -> <");
    push_gen(out, Gen::FieldTy(k));
    push_code(out, " as _toasty::codegen_support::Field>::ListPath<__Origin> { <");
    push_gen(out, Gen::FieldTy(k));
    push_code(out, " as _toasty::codegen_support::Field>::new_list_path(self.path().chain(<");
    push_gen(out, Gen::Sym(model.ident));
    push_code(out, " as ");
    push_schema_trait(out, model.kind.as_root().is_some());
    push_code(out, ">::path_field(");
    push_gen(out, Gen::Int(k));
    push_code(out, "))) } ");
    assert(gens_view(out@) =~= start + list_method_out(model.view(), syms@, k, ListField::Primitive));
}

#[verifier::spinoff_prover]
fn push_list_method_one(out: &mut Vec<Gen>, model: &Model, syms: &Vec<String>, k: usize)
    ensures
        gens_view(final(out)@) == gens_view(old(out)@) + list_method_out(model.view(), syms@, k, ListField::One),
{
    let ghost start = gens_view(out@);
    push_code(out, "pub fn ");
    push_gen(out, Gen::Text(field_ident_at_exec(model, syms, k)));
    push_code(out, "(&self) -> <<");
    push_gen(out, Gen::FieldTy(k));
    push_code(out, " as _toasty::codegen_support::RelationOneField>::Target as _toasty::codegen_support::Model>::ManyField<__Origin> { <<<");
    push_gen(out, Gen::FieldTy(k));
    push_code(out, " as _toasty::codegen_support::RelationOneField>::Target as _toasty::codegen_support::Model>::ManyField<__Origin>>::from_path(self.path().chain(<");
    push_gen(out, Gen::Sym(model.ident));
    push_code(out, " as ");
    push_schema_trait(out, model.kind.as_root().is_some());
    push_code(out, ">::path_field(");
    push_gen(out, Gen::Int(k));
    push_code(out, "))) } ");
    assert(gens_view(out@) =~= start + list_method_out(model.view(), syms@, k, ListField::One));
}

#[verifier::spinoff_prover]
fn push_list_method_many(out: &mut Vec<Gen>, model: &Model, syms: &Vec<String>, k: usize)
    ensures
        gens_view(final(out)@) == gens_view(old(out)@) + list_method_out(model.view(), syms@, k, ListField::Many),
{
    let ghost start = gens_view(out@);
    push_code(out, "pub fn ");
    push_gen(out, Gen::Text(field_ident_at_exec(model, syms, k)));
    push_code(out, "(&self) -> <<");
    push_gen(out, Gen::FieldTy(k));
    push_code(out, " as _toasty::codegen_support::RelationManyField>::Target as _toasty::codegen_support::Model>::ManyField<__Origin> { <<<");
    push_gen(out, Gen::FieldTy(k));
    push_code(out, " as _toasty::codegen_support::RelationManyField>::Target as _toasty::codegen_support::Model>::ManyField<__Origin>>::from_path(self.path().chain(<");
    push_gen(out, Gen::Sym(model.ident));
    push_code(out, " as ");
    push_schema_trait(out, model.kind.as_root().is_some());
    push_code(out, ">::path_field(");
    push_gen(out, Gen::Int(k));
    push_code(out, "))) } ");
    assert(gens_view(out@) =~= start + list_method_out(model.view(), syms@, k, ListField::Many));
}

#[verifier::spinoff_prover]
fn push_list_method_via(out: &mut Vec<Gen>, model: &Model, syms: &Vec<String>, k: usize)
    ensures
        gens_view(final(out)@) == gens_view(old(out)@) + list_method_out(model.view(), syms@, k, ListField::Via),
{
    let ghost start = gens_view(out@);
    push_code(out, "pub fn ");
    push_gen(out, Gen::Text(field_ident_at_exec(model, syms, k)));
    push_code(out, "(&self) -> _toasty::codegen_support::ViaPath<");
    push_gen(out, Gen::FieldTy(k));
    push_code(out, ", __Origin> { <<");
    push_gen(out, Gen::FieldTy(k));
    push_code(out, " as _toasty::codegen_support::ViaManyField>::Target as _toasty::codegen_support::ViaTarget>::new_path(self.path().chain(<");
    push_gen(out, Gen::Sym(model.ident));
    push_code(out, " as ");
    push_schema_trait(out, model.kind.as_root().is_some());
    push_code(out, ">::path_field(");
    push_gen(out, Gen::Int(k));
    push_code(out, "))) } ");
    assert(gens_view(out@) =~= start + list_method_out(model.view(), syms@, k, ListField::Via));
}

fn push_list_methods(out: &mut Vec<Gen>, model: &Model, syms: &Vec<String>, ks: &Vec<(usize, ListField)>)
    ensures
        gens_view(final(out)@) == gens_view(old(out)@) + list_methods_out(model.view(), syms@, ks@),
{
    let ghost start = gens_view(out@);
    let ghost m = model.view();
    let mut i: usize = 0;
    while i < ks.len()
        invariant
            i <= ks@.len(),
            m == model.view(),
            gens_view(out@) == start + list_methods_out(m, syms@, ks@.subrange(0, i as int)),
        decreases ks.len() - i,
    {
        push_list_method(out, model, syms, ks[i].0, ks[i].1);
        assert(ks@.subrange(0, i + 1).drop_last() =~= ks@.subrange(0, i as int));
        i = i + 1;
        assert(gens_view(out@) =~= start + list_methods_out(m, syms@, ks@.subrange(0, i as int)));
    }
    assert(ks@.subrange(0, i as int) =~= ks@);
}

fn push_any_all(out: &mut Vec<Gen>)
    ensures
        gens_view(final(out)@) == gens_view(old(out)@) + any_all_out(),
{
    let ghost start = gens_view(out@);
    push_code(out, "#[doc = \" Filter the parent model by a condition on the associated\"] #[doc = \" \
        (child) model. Returns `true` when **any** associated record\"] #[doc = \" satisfies `filter`.\"] \
        pub fn any(self, filter: _toasty::codegen_support::stmt::Expr<bool>) -> _toasty::codegen_support::stmt::Expr<bool> \
        { self.path.any(filter) } #[doc = \" Filter the parent model by a condition on the associated\"] \
        #[doc = \" (child) model. Returns `true` when **all** associated records\"] #[doc = \" satisfy \
        `filter` (vacuously true when there are no\"] #[doc = \" associated records).\"] pub fn all(self, \
        filter: _toasty::codegen_support::stmt::Expr<bool>) -> _toasty::codegen_support::stmt::Expr<bool> \
        { self.path.all(filter) } ");
    assert(gens_view(out@) =~= start + any_all_out());
}

fn push_include_filter(out: &mut Vec<Gen>, model: &Model)
    ensures
        gens_view(final(out)@) == gens_view(old(out)@) + include_filter_out(model.view()),
{
    let ghost start = gens_view(out@);
    push_code(out, "#[doc = \" Restricts the related rows loaded by `.include(...)`.\"] pub fn filter(self, \
        predicate: _toasty::codegen_support::stmt::Expr<bool>) -> _toasty::codegen_support::stmt::Include<__Origin, \
        _toasty::codegen_support::List<");
    push_gen(out, Gen::Sym(model.ident));
    push_code(out, ">> { _toasty::codegen_support::stmt::Include::from_path_and_query(self.path, _toasty::codegen_support::stmt::Query::<_toasty::codegen_support::stmt::List<");
    push_gen(out, Gen::Sym(model.ident));
    push_code(out, ">>::all().filter(predicate)) } ");
    assert(gens_view(out@) =~= start + include_filter_out(model.view()));
}

fn push_list_create(out: &mut Vec<Gen>, model: &Model, syms: &Vec<String>)
    ensures
        gens_view(final(out)@) == gens_view(old(out)@) + list_create_out(model.view(), syms@),
{
    let ghost start = gens_view(out@);
    push_code(out, "pub fn create(&self) -> ");
    push_gen(out, Gen::Text(concat(sym_string(syms, model.ident).as_str(), "Create")));
    push_code(out, " { ");
    push_gen(out, Gen::Text(concat(sym_string(syms, model.ident).as_str(), "Create")));
    push_code(out, "::default() } ");
    assert(gens_view(out@) =~= start + list_create_out(model.view(), syms@));
}

/// The list fields struct of a model.
pub fn expand_field_list_struct(model: &Model, syms: &Vec<String>) -> (r: Vec<Gen>)
    ensures
        gens_view(r@) == field_list_struct_out(model.view(), syms@),
{
    proof {
        reveal(field_list_struct_out);
    }
    let ghost m = model.view();
    let kept = list_fields(model, syms);
    let has_filter = has_filter_field_exec(model, syms);
    let mut out: Vec<Gen> = Vec::new();
    proof {
        crate::gen::lemma_gens_empty(out@);
    }

    push_code(&mut out, "pub struct ");
    push_gen(&mut out, Gen::Text(concat(sym_string(syms, model.ident).as_str(), "ListFields")));
    push_code(&mut out, "<__Origin> { path: _toasty::codegen_support::Path<__Origin, _toasty::codegen_support::List<");
    push_gen(&mut out, Gen::Sym(model.ident));
    push_code(&mut out, ">>, } impl<__Origin> ");
    push_gen(&mut out, Gen::Text(concat(sym_string(syms, model.ident).as_str(), "ListFields")));
    push_code(&mut out, "<__Origin> { pub ");
    push_code(&mut out, "const");
    push_code(&mut out, " fn from_path(path: _toasty::codegen_support::Path<__Origin, _toasty::codegen_support::List<");
    push_gen(&mut out, Gen::Sym(model.ident));
    push_code(&mut out, ">>) -> ");
    push_gen(&mut out, Gen::Text(concat(sym_string(syms, model.ident).as_str(), "ListFields")));
    push_code(&mut out, "<__Origin> { ");
    push_gen(&mut out, Gen::Text(concat(sym_string(syms, model.ident).as_str(), "ListFields")));
    push_code(&mut out, " { path } } fn path(&self) -> _toasty::codegen_support::Path<__Origin, _toasty::codegen_support::List<");
    push_gen(&mut out, Gen::Sym(model.ident));
    push_code(&mut out, ">> { self.path.clone() } ");
    if model.kind.as_root().is_some() { push_any_all(&mut out); }
    if model.kind.as_root().is_some() && !has_filter { push_include_filter(&mut out, model); }
    if model.kind.as_root().is_some() { push_list_create(&mut out, model, syms); }
    push_list_methods(&mut out, model, syms, &kept);
    push_code(&mut out, "} impl<__Origin> Into<_toasty::codegen_support::Path<__Origin, _toasty::codegen_support::List<");
    push_gen(&mut out, Gen::Sym(model.ident));
    push_code(&mut out, ">>> for ");
    push_gen(&mut out, Gen::Text(concat(sym_string(syms, model.ident).as_str(), "ListFields")));
    push_code(&mut out, "<__Origin> { fn into(self) -> _toasty::codegen_support::Path<__Origin, _toasty::codegen_support::List<");
    push_gen(&mut out, Gen::Sym(model.ident));
    push_code(&mut out, ">> { self.path } } impl<__Origin> _toasty::codegen_support::IntoExpr<_toasty::codegen_support::List<");
    push_gen(&mut out, Gen::Sym(model.ident));
    push_code(&mut out, ">> for ");
    push_gen(&mut out, Gen::Text(concat(sym_string(syms, model.ident).as_str(), "ListFields")));
    push_code(&mut out, "<__Origin> { fn into_expr(self) -> _toasty::codegen_support::stmt::Expr<_toasty::codegen_support::List<");
    push_gen(&mut out, Gen::Sym(model.ident));
    push_code(&mut out, ">> { self.path.into_expr() } fn by_ref(&self) -> _toasty::codegen_support::stmt::Expr<_toasty::codegen_support::List<");
    push_gen(&mut out, Gen::Sym(model.ident));
    push_code(&mut out, ">> { self.path.by_ref() } } impl<__Origin> Into<_toasty::codegen_support::stmt::Include<__Origin, _toasty::codegen_support::List<");
    push_gen(&mut out, Gen::Sym(model.ident));
    push_code(&mut out, ">>> for ");
    push_gen(&mut out, Gen::Text(concat(sym_string(syms, model.ident).as_str(), "ListFields")));
    push_code(&mut out, "<__Origin> { fn into(self) -> _toasty::codegen_support::stmt::Include<__Origin, _toasty::codegen_support::List<");
    push_gen(&mut out, Gen::Sym(model.ident));
    push_code(&mut out, ">> { self.path.into() } } ");
    assert(gens_view(out@) =~= field_list_struct_out(m, syms@));
    out
}

} // verus!
