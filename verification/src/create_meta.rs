//! What a model tells `create!` about itself: the fields a creation sets,
//! the foreign keys of its `#[belongs_to]` relations, and the relations
//! through which related records are created along with it.
use vstd::prelude::*;

use crate::case::{join_strings, join_with, lowercase_of, to_lowercase};
use crate::schema::field::{FieldTy, FieldTyV, FieldV};
use crate::gen::{c, field_ident_at, field_ident_at_exec, gens_view, push_code, push_gen, Gen, GenV};
use crate::schema::model::{Model, ModelV};
use crate::schema::name::ident_text_of;
use crate::schema::relation::ForeignKeyField;
use crate::schema::types::{first_top_comma, first_top_comma_exec, path_walk, path_walk_exec, SegArgs};
use crate::tokens::{is_punct2, is_punct2_exec, sym_string, sym_text, Tok};

verus! {

/// The plan of a model's creation metadata.
pub struct CreateMetaPlan {
    /// The plain fields a creation sets: those without `#[auto]`,
    /// `#[default]` or `#[update]` that no `#[belongs_to]` uses as a
    /// foreign key.
    pub fields: Vec<usize>,
    /// Each `#[belongs_to]` field, with the foreign-key source fields.
    pub belongs_to: Vec<(usize, Vec<usize>)>,
    /// Each `#[has_many]` or `#[has_one]` field whose target is another
    /// model, with the name of the field on the target that pairs with it.
    pub nested: Vec<(usize, String)>,
}

/// The foreign key of a `#[belongs_to]` field (empty for other fields).
pub open spec fn fk_of(f: FieldV) -> Seq<ForeignKeyField> {
    match f.ty {
        FieldTyV::BelongsTo(fk) => fk,
        _ => Seq::empty(),
    }
}

/// Field `k` is the source of some `#[belongs_to]` foreign key.
pub open spec fn is_fk_source(fields: Seq<FieldV>, k: int) -> bool {
    exists|i: int, j: int| 0 <= i < fields.len() && 0 <= j < fk_of(fields[i]).len() && #[trigger] fk_of(fields[i])[j].source == k
}

/// Field `k` is set by a creation.
pub open spec fn is_create_field(fields: Seq<FieldV>, k: int) -> bool {
    let f = fields[k];
    &&& f.ty is Primitive
    &&& f.attrs.auto is None
    &&& f.attrs.default_expr is None
    &&& f.attrs.update_expr is None
    &&& !is_fk_source(fields, k)
}

pub open spec fn create_fields_from(fields: Seq<FieldV>, n: int) -> Seq<usize>
    decreases n,
{
    if n <= 0 {
        Seq::empty()
    } else {
        let rest = create_fields_from(fields, n - 1);
        if is_create_field(fields, n - 1) { rest.push((n - 1) as usize) } else { rest }
    }
}

pub open spec fn belongs_to_from(fields: Seq<FieldV>, n: int) -> Seq<(usize, Seq<usize>)>
    decreases n,
{
    if n <= 0 {
        Seq::empty()
    } else {
        let rest = belongs_to_from(fields, n - 1);
        match fields[n - 1].ty {
            FieldTyV::BelongsTo(fk) => rest.push(((n - 1) as usize, fk.map_values(|f: ForeignKeyField| f.source))),
            _ => rest,
        }
    }
}

/// A generic argument `s..t` is a type path whose last segment is named
/// `model`.
pub open spec fn arg_names(toks: Seq<Tok>, syms: Seq<String>, s: int, t: int, model: Seq<char>) -> bool {
    let q = if is_punct2(toks, s, t, ':', ':') { s + 2 } else { s };
    match path_walk(toks, q, t) {
        Some((l, _)) => sym_text(syms, toks[l]->sym as int) == model,
        None => false,
    }
}

/// One of the generic arguments in `a..g` names `model`.
pub open spec fn args_name(toks: Seq<Tok>, syms: Seq<String>, a: int, g: int, model: Seq<char>) -> bool
    decreases g - a,
{
    if a >= g || a < 0 {
        false
    } else {
        let e = first_top_comma(toks, a, g, 0);
        arg_names(toks, syms, a, e, model) || (a <= e < g && args_name(toks, syms, e + 1, g, model))
    }
}

/// The relation type (the whole of `toks`) is a path whose last segment has
/// a generic argument naming `model`: the relation targets its own model.
pub open spec fn self_referential(toks: Seq<Tok>, syms: Seq<String>, model: Seq<char>) -> bool {
    let n = toks.len() as int;
    let p = if is_punct2(toks, 0, n, ':', ':') { 2int } else { 0int };
    match path_walk(toks, p, n) {
        Some((_, SegArgs::Angle { start, end })) => args_name(toks, syms, start as int, end as int, model),
        _ => false,
    }
}

/// The name a relation's pair is known by: the `pair` path, or else the
/// model's name in lowercase.
pub open spec fn pair_text(syms: Seq<String>, f: FieldV, default: Seq<char>) -> Seq<char> {
    match f.ty {
        FieldTyV::HasMany(pv) => match pv.pair {
            Some(segs) => join_with(segs.map_values(|s: usize| sym_text(syms, s as int)), "."@),
            None => default,
        },
        _ => default,
    }
}

pub open spec fn nested_from(syms: Seq<String>, fields: Seq<FieldV>, model: Seq<char>, default: Seq<char>, n: int) -> Seq<(usize, Seq<char>)>
    decreases n,
{
    if n <= 0 {
        Seq::empty()
    } else {
        let rest = nested_from(syms, fields, model, default, n - 1);
        let f = fields[n - 1];
        if (f.ty is HasMany || f.ty is HasOne) && !self_referential(f.ty_toks, syms, model) {
            rest.push(((n - 1) as usize, pair_text(syms, f, default)))
        } else {
            rest
        }
    }
}

fn fk_source_exec(model: &Model, k: usize) -> (r: bool)
    ensures
        r == is_fk_source(model.view().fields, k as int),
{
    let ghost fv = model.view().fields;
    let mut i: usize = 0;
    while i < model.fields.len()
        invariant
            i <= model.fields@.len(),
            fv == model.view().fields,
            fv.len() == model.fields@.len(),
            forall|a: int, j: int| 0 <= a < i && 0 <= j < fk_of(fv[a]).len() ==> #[trigger] fk_of(fv[a])[j].source != k,
        decreases model.fields.len() - i,
    {
        assert(fv[i as int] == model.fields@[i as int].view());
        match &model.fields[i].ty {
            FieldTy::BelongsTo(b) => {
                assert(fk_of(fv[i as int]) == b.foreign_key@);
                let mut j: usize = 0;
                while j < b.foreign_key.len()
                    invariant
                        j <= b.foreign_key@.len(),
                        fv == model.view().fields,
                        i < fv.len(),
                        fk_of(fv[i as int]) == b.foreign_key@,
                        forall|t: int| 0 <= t < j ==> #[trigger] b.foreign_key@[t].source != k,
                    decreases b.foreign_key.len() - j,
                {
                    if b.foreign_key[j].source == k {
                        assert(fk_of(fv[i as int])[j as int].source == k);
                        assert(0 <= i < fv.len() && 0 <= j < fk_of(fv[i as int]).len());
                        return true;
                    }
                    j = j + 1;
                }
                assert(fk_of(fv[i as int]) == b.foreign_key@);
            },
            _ => {
                assert(fk_of(fv[i as int]) == Seq::<ForeignKeyField>::empty());
            },
        }
        i = i + 1;
    }
    false
}

fn arg_names_exec(toks: &Vec<Tok>, syms: &Vec<String>, s: usize, t: usize, model: &str) -> (r: bool)
    requires
        s <= t <= toks@.len(),
    ensures
        r == arg_names(toks@, syms@, s as int, t as int, model@),
{
    let q = if is_punct2_exec(toks, s, t, ':', ':') { s + 2 } else { s };
    match path_walk_exec(toks, q, t) {
        Some((l, _)) => match toks[l] {
            Tok::Ident { sym, .. } => {
                let text = sym_string(syms, sym);
                crate::text::str_eq(text.as_str(), model)
            },
            _ => {
                proof {
                    crate::schema::types::lemma_path_walk_ident(toks@, q as int, t as int);
                }
                false
            },
        },
        None => false,
    }
}

/// Whether a relation type targets the model named `model`.
pub fn self_referential_exec(toks: &Vec<Tok>, syms: &Vec<String>, model: &str) -> (r: bool)
    ensures
        r == self_referential(toks@, syms@, model@),
{
    let n = toks.len();
    let p = if is_punct2_exec(toks, 0, n, ':', ':') { 2 } else { 0 };
    match path_walk_exec(toks, p, n) {
        Some((_, SegArgs::Angle { start, end })) => {
            proof {
                crate::schema::types::lemma_path_walk_args(toks@, p as int, n as int);
            }
            let mut a = start;
            while a < end
                invariant
                    start <= a,
                    end <= toks@.len(),
                    self_referential(toks@, syms@, model@) == args_name(toks@, syms@, start as int, end as int, model@),
                    args_name(toks@, syms@, start as int, end as int, model@) == args_name(toks@, syms@, a as int, end as int, model@),
                decreases end - a,
            {
                let e = first_top_comma_exec(toks, a, end);
                if arg_names_exec(toks, syms, a, e, model) {
                    return true;
                }
                if e >= end {
                    return false;
                }
                a = e + 1;
            }
            false
        },
        _ => false,
    }
}

/// The nested entries with their names as text.
pub open spec fn nested_view(v: Seq<(usize, String)>) -> Seq<(usize, Seq<char>)> {
    v.map_values(|p: (usize, String)| (p.0, p.1@))
}

/// The belongs-to entries with their foreign keys as sequences.
pub open spec fn belongs_to_view(v: Seq<(usize, Vec<usize>)>) -> Seq<(usize, Seq<usize>)> {
    v.map_values(|p: (usize, Vec<usize>)| (p.0, p.1@))
}

/// The name a relation's pair takes by default: the model's name, as an
/// identifier, in lowercase.
pub open spec fn default_pair(model: &Model) -> Seq<char> {
    lowercase_of(ident_text_of(model.name.snake_case@, model.name.raw))
}

/// The foreign-key sources of a `#[belongs_to]`, in order.
fn fk_sources(b: &crate::schema::relation::BelongsTo) -> (r: Vec<usize>)
    ensures
        r@ == b.foreign_key@.map_values(|x: ForeignKeyField| x.source),
{
    let mut sources: Vec<usize> = Vec::new();
    let mut j: usize = 0;
    while j < b.foreign_key.len()
        invariant
            j <= b.foreign_key@.len(),
            sources@ == b.foreign_key@.subrange(0, j as int).map_values(|x: ForeignKeyField| x.source),
        decreases b.foreign_key.len() - j,
    {
        sources.push(b.foreign_key[j].source);
        proof {
            assert(b.foreign_key@.subrange(0, j + 1).map_values(|x: ForeignKeyField| x.source)
                =~= b.foreign_key@.subrange(0, j as int).map_values(|x: ForeignKeyField| x.source).push(b.foreign_key@[j as int].source));
        }
        j = j + 1;
    }
    assert(b.foreign_key@.subrange(0, j as int) =~= b.foreign_key@);
    sources
}

/// The `pair` path of a `#[has_many]`, joined with `.`.
fn pair_path(syms: &Vec<String>, segs: &Vec<usize>) -> (r: String)
    ensures
        r@ == join_with(segs@.map_values(|s: usize| sym_text(syms@, s as int)), "."@),
{
    let mut parts: Vec<String> = Vec::new();
    let mut j: usize = 0;
    while j < segs.len()
        invariant
            j <= segs@.len(),
            parts@.len() == j,
            forall|t: int| 0 <= t < j ==> #[trigger] parts@[t]@ == sym_text(syms@, segs@[t] as int),
        decreases segs.len() - j,
    {
        parts.push(sym_string(syms, segs[j]));
        j = j + 1;
    }
    assert(parts@.map_values(|p: String| p@) =~= segs@.map_values(|s: usize| sym_text(syms@, s as int)));
    join_strings(&parts, ".")
}

impl CreateMetaPlan {
    /// The creation metadata of a root model.
    pub fn of_model(model: &Model, syms: &Vec<String>) -> (r: CreateMetaPlan)
        ensures
            r.fields@ == create_fields_from(model.view().fields, model.fields@.len() as int),
            belongs_to_view(r.belongs_to@) == belongs_to_from(model.view().fields, model.fields@.len() as int),
            nested_view(r.nested@) == nested_from(syms@, model.view().fields, sym_text(syms@, model.ident as int), default_pair(model), model.fields@.len() as int),
    {
        let ghost fv = model.view().fields;
        let model_text = sym_string(syms, model.ident);
        let ident = model.name.ident_text();
        let default = to_lowercase(ident.as_str());
        let ghost mt = model_text@;
        let ghost dt = default@;
        let mut fields: Vec<usize> = Vec::new();
        let mut belongs_to: Vec<(usize, Vec<usize>)> = Vec::new();
        let mut nested: Vec<(usize, String)> = Vec::new();
        let mut k: usize = 0;
        while k < model.fields.len()
            invariant
                k <= model.fields@.len(),
                fv == model.view().fields,
                fv.len() == model.fields@.len(),
                mt == model_text@,
                dt == default@,
                fields@ == create_fields_from(fv, k as int),
                belongs_to_view(belongs_to@) == belongs_to_from(fv, k as int),
                nested_view(nested@) == nested_from(syms@, fv, mt, dt, k as int),
            decreases model.fields.len() - k,
        {
            let f = &model.fields[k];
            assert(fv[k as int] == f.view());
            let ghost b0 = belongs_to@;
            let ghost n0 = nested@;
            match &f.ty {
                FieldTy::Primitive => {
                    if f.attrs.auto.is_none() && f.attrs.default_expr.is_none() && f.attrs.update_expr.is_none()
                        && !fk_source_exec(model, k) {
                        fields.push(k);
                    }
                },
                FieldTy::BelongsTo(b) => {
                    let sources = fk_sources(b);
                    belongs_to.push((k, sources));
                    assert(belongs_to_view(belongs_to@) =~= belongs_to_view(b0).push((k, b.foreign_key@.map_values(|x: ForeignKeyField| x.source))));
                },
                FieldTy::HasMany(h) => {
                    if !self_referential_exec(&f.ty_toks, syms, model_text.as_str()) {
                        let pair = match &h.rel.pair {
                            Some(segs) => pair_path(syms, segs),
                            None => crate::text::string_of(default.as_str()),
                        };
                        assert(pair@ == pair_text(syms@, fv[k as int], dt));
                        nested.push((k, pair));
                        assert(nested_view(nested@) =~= nested_view(n0).push((k, pair_text(syms@, fv[k as int], dt))));
                    }
                },
                FieldTy::HasOne(_) => {
                    if !self_referential_exec(&f.ty_toks, syms, model_text.as_str()) {
                        nested.push((k, crate::text::string_of(default.as_str())));
                        assert(nested_view(nested@) =~= nested_view(n0).push((k, dt)));
                    }
                },
            }
            k = k + 1;
        }
        CreateMetaPlan { fields, belongs_to, nested }
    }
}

/// One `CreateField` entry.
pub open spec fn meta_field_item(syms: Seq<String>, fields: Seq<FieldV>, k: usize) -> Seq<GenV> {
    c("_toasty::codegen_support::CreateField { name: "@) + seq![GenV::Str(field_ident_at(syms, fields, k as int))]
        + c(", required: !<"@) + seq![GenV::FieldTy(k)] + c(" as _toasty::codegen_support::Field>::NULLABLE }, "@)
}

pub open spec fn meta_field_items(syms: Seq<String>, fields: Seq<FieldV>, ks: Seq<usize>) -> Seq<GenV>
    decreases ks.len(),
{
    if ks.len() == 0 { Seq::empty() } else { meta_field_items(syms, fields, ks.drop_last()) + meta_field_item(syms, fields, ks.last()) }
}

/// One `CreateNested` entry.
pub open spec fn meta_nested_item(syms: Seq<String>, fields: Seq<FieldV>, e: (usize, Seq<char>)) -> Seq<GenV> {
    c("_toasty::codegen_support::CreateNested { name: "@) + seq![GenV::Str(field_ident_at(syms, fields, e.0 as int))]
        + c(", meta: &<"@) + seq![GenV::FieldTy(e.0)] + c(" as _toasty::codegen_support::Relation>::Model::CREATE_META, pair: "@)
        + seq![GenV::Str(e.1)] + c(" }, "@)
}

pub open spec fn meta_nested_items(syms: Seq<String>, fields: Seq<FieldV>, es: Seq<(usize, Seq<char>)>) -> Seq<GenV>
    decreases es.len(),
{
    if es.len() == 0 { Seq::empty() } else { meta_nested_items(syms, fields, es.drop_last()) + meta_nested_item(syms, fields, es.last()) }
}

/// The foreign-key field names of a `CreateBelongsTo` entry.
pub open spec fn fk_name_items(syms: Seq<String>, fields: Seq<FieldV>, ks: Seq<usize>) -> Seq<GenV>
    decreases ks.len(),
{
    if ks.len() == 0 { Seq::empty() } else { fk_name_items(syms, fields, ks.drop_last()) + seq![GenV::Str(field_ident_at(syms, fields, ks.last() as int))] + c(", "@) }
}

/// One `CreateBelongsTo` entry.
pub open spec fn meta_belongs_item(syms: Seq<String>, fields: Seq<FieldV>, e: (usize, Seq<usize>)) -> Seq<GenV> {
    c("_toasty::codegen_support::CreateBelongsTo { name: "@) + seq![GenV::Str(field_ident_at(syms, fields, e.0 as int))]
        + c(", fk_fields: &["@) + fk_name_items(syms, fields, e.1) + c("] }, "@)
}

pub open spec fn meta_belongs_items(syms: Seq<String>, fields: Seq<FieldV>, es: Seq<(usize, Seq<usize>)>) -> Seq<GenV>
    decreases es.len(),
{
    if es.len() == 0 { Seq::empty() } else { meta_belongs_items(syms, fields, es.drop_last()) + meta_belongs_item(syms, fields, es.last()) }
}

/// The `CreateMeta` constant of a root model: every creation field is
/// required unless its type is nullable.
pub open spec fn create_meta_out(m: ModelV, syms: Seq<String>, default: Seq<char>) -> Seq<GenV> {
    let n = m.fields.len() as int;
    let model = sym_text(syms, m.ident as int);
    c("_toasty::codegen_support::CreateMeta { fields: &["@) + meta_field_items(syms, m.fields, create_fields_from(m.fields, n))
        + c("], nested: &["@) + meta_nested_items(syms, m.fields, nested_from(syms, m.fields, model, default, n))
        + c("], belongs_to: &["@) + meta_belongs_items(syms, m.fields, belongs_to_from(m.fields, n))
        + c("], model_name: "@) + seq![GenV::Str(model)] + c(" }"@)
}

/// The `CreateMeta` constant of a root model.
pub fn expand_create_meta(model: &Model, syms: &Vec<String>) -> (r: Vec<Gen>)
    ensures
        gens_view(r@) == create_meta_out(model.view(), syms@, default_pair(model)),
{
    let ghost m = model.view();
    let ghost fv = m.fields;
    let plan = CreateMetaPlan::of_model(model, syms);
    let mut out: Vec<Gen> = Vec::new();
    proof {
        crate::gen::lemma_gens_empty(out@);
    }
    push_code(&mut out, "_toasty::codegen_support::CreateMeta { fields: &[");
    let ghost s0 = gens_view(out@);
    let mut i: usize = 0;
    while i < plan.fields.len()
        invariant
            i <= plan.fields@.len(),
            fv == model.view().fields,
            gens_view(out@) == s0 + meta_field_items(syms@, fv, plan.fields@.subrange(0, i as int)),
        decreases plan.fields.len() - i,
    {
        let k = plan.fields[i];
        push_code(&mut out, "_toasty::codegen_support::CreateField { name: ");
        push_gen(&mut out, Gen::Str(field_ident_at_exec(model, syms, k)));
        push_code(&mut out, ", required: !<");
        push_gen(&mut out, Gen::FieldTy(k));
        push_code(&mut out, " as _toasty::codegen_support::Field>::NULLABLE }, ");
        assert(plan.fields@.subrange(0, i + 1).drop_last() =~= plan.fields@.subrange(0, i as int));
        i = i + 1;
        assert(gens_view(out@) =~= s0 + meta_field_items(syms@, fv, plan.fields@.subrange(0, i as int)));
    }
    assert(plan.fields@.subrange(0, i as int) =~= plan.fields@);
    push_code(&mut out, "], nested: &[");
    let ghost s1 = gens_view(out@);
    let ghost nv = nested_view(plan.nested@);
    let mut i: usize = 0;
    while i < plan.nested.len()
        invariant
            i <= plan.nested@.len(),
            fv == model.view().fields,
            nv == nested_view(plan.nested@),
            gens_view(out@) == s1 + meta_nested_items(syms@, fv, nv.subrange(0, i as int)),
        decreases plan.nested.len() - i,
    {
        let (k, pair) = (plan.nested[i].0, crate::text::string_of(plan.nested[i].1.as_str()));
        assert(nv[i as int] == (k, pair@));
        push_code(&mut out, "_toasty::codegen_support::CreateNested { name: ");
        push_gen(&mut out, Gen::Str(field_ident_at_exec(model, syms, k)));
        push_code(&mut out, ", meta: &<");
        push_gen(&mut out, Gen::FieldTy(k));
        push_code(&mut out, " as _toasty::codegen_support::Relation>::Model::CREATE_META, pair: ");
        push_gen(&mut out, Gen::Str(pair));
        push_code(&mut out, " }, ");
        assert(nv.subrange(0, i + 1).drop_last() =~= nv.subrange(0, i as int));
        i = i + 1;
        assert(gens_view(out@) =~= s1 + meta_nested_items(syms@, fv, nv.subrange(0, i as int)));
    }
    assert(nv.subrange(0, i as int) =~= nv);
    push_code(&mut out, "], belongs_to: &[");
    let ghost s2 = gens_view(out@);
    let ghost bv = belongs_to_view(plan.belongs_to@);
    let mut i: usize = 0;
    while i < plan.belongs_to.len()
        invariant
            i <= plan.belongs_to@.len(),
            fv == model.view().fields,
            bv == belongs_to_view(plan.belongs_to@),
            gens_view(out@) == s2 + meta_belongs_items(syms@, fv, bv.subrange(0, i as int)),
        decreases plan.belongs_to.len() - i,
    {
        let k = plan.belongs_to[i].0;
        let srcs = &plan.belongs_to[i].1;
        assert(bv[i as int] == (k, srcs@));
        let ghost t0 = gens_view(out@);
        push_code(&mut out, "_toasty::codegen_support::CreateBelongsTo { name: ");
        push_gen(&mut out, Gen::Str(field_ident_at_exec(model, syms, k)));
        push_code(&mut out, ", fk_fields: &[");
        let ghost t1 = gens_view(out@);
        let mut j: usize = 0;
        while j < srcs.len()
            invariant
                j <= srcs@.len(),
                fv == model.view().fields,
                gens_view(out@) == t1 + fk_name_items(syms@, fv, srcs@.subrange(0, j as int)),
            decreases srcs.len() - j,
        {
            push_gen(&mut out, Gen::Str(field_ident_at_exec(model, syms, srcs[j])));
            push_code(&mut out, ", ");
            assert(srcs@.subrange(0, j + 1).drop_last() =~= srcs@.subrange(0, j as int));
            j = j + 1;
            assert(gens_view(out@) =~= t1 + fk_name_items(syms@, fv, srcs@.subrange(0, j as int)));
        }
        assert(srcs@.subrange(0, j as int) =~= srcs@);
        push_code(&mut out, "] }, ");
        assert(gens_view(out@) =~= t0 + meta_belongs_item(syms@, fv, bv[i as int]));
        assert(bv.subrange(0, i + 1).drop_last() =~= bv.subrange(0, i as int));
        i = i + 1;
        assert(gens_view(out@) =~= s2 + meta_belongs_items(syms@, fv, bv.subrange(0, i as int)));
    }
    assert(bv.subrange(0, i as int) =~= bv);
    push_code(&mut out, "], model_name: ");
    push_gen(&mut out, Gen::Str(sym_string(syms, model.ident)));
    push_code(&mut out, " }");
    assert(gens_view(out@) =~= create_meta_out(m, syms@, default_pair(model)));
    out
}

} // verus!
