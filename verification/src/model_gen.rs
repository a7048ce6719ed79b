//! The schema registration of a model's fields: one
//! `core::schema::app::Field` value per field, naming the field, its
//! column, its type (through the field type's traits), its nullability, and
//! whether it is in the primary key, generated, versioned or deferred.
use vstd::prelude::*;

use crate::case::{join_strings, join_with};
use crate::gen::{c, gens_view, push_code, push_gen, Gen, GenV};
use crate::registration::{autos_registrable, fields_named, in_primary_key};
use crate::schema::auto::{AutoStrategy, UuidVersion};
use crate::schema::column::ColumnType;
use crate::schema::field::{field_name, field_name_src, Field, FieldTy};
use crate::schema::model::{Model, ModelKind};
use crate::schema::name::snake_name;
use crate::schema::relation::ForeignKeyField;
use crate::tokens::{sym_string, sym_text};

verus! {

pub open spec fn bool_out(b: bool) -> Seq<GenV> {
    if b { c("true"@) } else { c("false"@) }
}

pub(crate) fn push_bool(out: &mut Vec<Gen>, b: bool)
    ensures
        gens_view(final(out)@) == gens_view(old(out)@) + bool_out(b),
{
    if b { push_code(out, "true") } else { push_code(out, "false") }
}

/// A database type, as a `core::schema::db::Type` value. Native enum
/// types are registered at the enum, not through a field.
pub open spec fn column_ty_out(syms: Seq<String>, t: ColumnType) -> Seq<GenV> {
    match t {
        ColumnType::Boolean => c("_toasty::codegen_support::core::schema::db::Type::Boolean"@),
        ColumnType::Integer(n) => c("_toasty::codegen_support::core::schema::db::Type::Integer("@) + seq![GenV::Num(n as u64)] + c("u8)"@),
        ColumnType::UnsignedInteger(n) => c("_toasty::codegen_support::core::schema::db::Type::UnsignedInteger("@) + seq![GenV::Num(n as u64)] + c("u8)"@),
        ColumnType::Float(n) => c("_toasty::codegen_support::core::schema::db::Type::Float("@) + seq![GenV::Num(n as u64)] + c("u8)"@),
        ColumnType::Text => c("_toasty::codegen_support::core::schema::db::Type::Text"@),
        ColumnType::VarChar(n) => c("_toasty::codegen_support::core::schema::db::Type::VarChar("@) + seq![GenV::Num(n)] + c("u64)"@),
        ColumnType::Json => c("_toasty::codegen_support::core::schema::db::Type::Json"@),
        ColumnType::Jsonb => c("_toasty::codegen_support::core::schema::db::Type::Jsonb"@),
        ColumnType::Numeric(None) => c("_toasty::codegen_support::core::schema::db::Type::Numeric(None)"@),
        ColumnType::Numeric(Some(p)) => c("_toasty::codegen_support::core::schema::db::Type::Numeric(Some(("@) + seq![GenV::Num(p.precision as u64)]
            + c("u32, "@) + seq![GenV::Num(p.scale as u64)] + c("u32)))"@),
        ColumnType::Binary(n) => c("_toasty::codegen_support::core::schema::db::Type::Binary("@) + seq![GenV::Num(n)] + c("u64)"@),
        ColumnType::Blob => c("_toasty::codegen_support::core::schema::db::Type::Blob"@),
        ColumnType::Timestamp(n) => c("_toasty::codegen_support::core::schema::db::Type::Timestamp("@) + seq![GenV::Num(n as u64)] + c("u8)"@),
        ColumnType::Date => c("_toasty::codegen_support::core::schema::db::Type::Date"@),
        ColumnType::Time(n) => c("_toasty::codegen_support::core::schema::db::Type::Time("@) + seq![GenV::Num(n as u64)] + c("u8)"@),
        ColumnType::DateTime(n) => c("_toasty::codegen_support::core::schema::db::Type::DateTime("@) + seq![GenV::Num(n as u64)] + c("u8)"@),
        ColumnType::Enum(_) => Seq::empty(),
        ColumnType::Custom(s) => c("_toasty::codegen_support::core::schema::db::Type::Custom("@)
            + seq![GenV::Str(sym_text(syms, s as int))]
            + c(".to_string())"@),
    }
}

fn push_column_ty(out: &mut Vec<Gen>, syms: &Vec<String>, t: ColumnType)
    ensures
        gens_view(final(out)@) == gens_view(old(out)@) + column_ty_out(syms@, t),
{
    let ghost start = gens_view(out@);
    match t {
        ColumnType::Boolean => push_code(out, "_toasty::codegen_support::core::schema::db::Type::Boolean"),
        ColumnType::Integer(n) => {
            push_code(out, "_toasty::codegen_support::core::schema::db::Type::Integer(");
            push_gen(out, Gen::Num(n as u64));
            push_code(out, "u8)");
        },
        ColumnType::UnsignedInteger(n) => {
            push_code(out, "_toasty::codegen_support::core::schema::db::Type::UnsignedInteger(");
            push_gen(out, Gen::Num(n as u64));
            push_code(out, "u8)");
        },
        ColumnType::Float(n) => {
            push_code(out, "_toasty::codegen_support::core::schema::db::Type::Float(");
            push_gen(out, Gen::Num(n as u64));
            push_code(out, "u8)");
        },
        ColumnType::Text => push_code(out, "_toasty::codegen_support::core::schema::db::Type::Text"),
        ColumnType::VarChar(n) => {
            push_code(out, "_toasty::codegen_support::core::schema::db::Type::VarChar(");
            push_gen(out, Gen::Num(n));
            push_code(out, "u64)");
        },
        ColumnType::Json => push_code(out, "_toasty::codegen_support::core::schema::db::Type::Json"),
        ColumnType::Jsonb => push_code(out, "_toasty::codegen_support::core::schema::db::Type::Jsonb"),
        ColumnType::Numeric(None) => push_code(out, "_toasty::codegen_support::core::schema::db::Type::Numeric(None)"),
        ColumnType::Numeric(Some(p)) => {
            push_code(out, "_toasty::codegen_support::core::schema::db::Type::Numeric(Some((");
            push_gen(out, Gen::Num(p.precision as u64));
            push_code(out, "u32, ");
            push_gen(out, Gen::Num(p.scale as u64));
            push_code(out, "u32)))");
        },
        ColumnType::Binary(n) => {
            push_code(out, "_toasty::codegen_support::core::schema::db::Type::Binary(");
            push_gen(out, Gen::Num(n));
            push_code(out, "u64)");
        },
        ColumnType::Blob => push_code(out, "_toasty::codegen_support::core::schema::db::Type::Blob"),
        ColumnType::Timestamp(n) => {
            push_code(out, "_toasty::codegen_support::core::schema::db::Type::Timestamp(");
            push_gen(out, Gen::Num(n as u64));
            push_code(out, "u8)");
        },
        ColumnType::Date => push_code(out, "_toasty::codegen_support::core::schema::db::Type::Date"),
        ColumnType::Time(n) => {
            push_code(out, "_toasty::codegen_support::core::schema::db::Type::Time(");
            push_gen(out, Gen::Num(n as u64));
            push_code(out, "u8)");
        },
        ColumnType::DateTime(n) => {
            push_code(out, "_toasty::codegen_support::core::schema::db::Type::DateTime(");
            push_gen(out, Gen::Num(n as u64));
            push_code(out, "u8)");
        },
        ColumnType::Enum(_) => {
            assert(column_ty_out(syms@, t) =~= Seq::<GenV>::empty());
        },
        ColumnType::Custom(s) => {
            push_code(out, "_toasty::codegen_support::core::schema::db::Type::Custom(");
            push_gen(out, Gen::Str(sym_string(syms, s)));
            push_code(out, ".to_string())");
        },
    }
    assert(gens_view(out@) =~= start + column_ty_out(syms@, t));
}

/// A `core::schema::Name` with these parts.
pub open spec fn name_parts_out(parts: Seq<Seq<char>>) -> Seq<GenV>
    decreases parts.len(),
{
    if parts.len() == 0 {
        Seq::empty()
    } else {
        name_parts_out(parts.drop_last()) + seq![GenV::Str(parts.last())] + c(".to_string(), "@)
    }
}

pub open spec fn name_out(parts: Seq<Seq<char>>) -> Seq<GenV> {
    c("_toasty::codegen_support::core::schema::Name { parts: vec!["@) + name_parts_out(parts) + c("], }"@)
}

pub(crate) fn push_name(out: &mut Vec<Gen>, parts: &Vec<String>)
    ensures
        gens_view(final(out)@) == gens_view(old(out)@) + name_out(parts@.map_values(|p: String| p@)),
{
    let ghost pv = parts@.map_values(|p: String| p@);
    let ghost start = gens_view(out@);
    push_code(out, "_toasty::codegen_support::core::schema::Name { parts: vec![");
    let ghost s1 = gens_view(out@);
    let mut i: usize = 0;
    while i < parts.len()
        invariant
            i <= parts@.len(),
            pv == parts@.map_values(|p: String| p@),
            gens_view(out@) == s1 + name_parts_out(pv.subrange(0, i as int)),
        decreases parts.len() - i,
    {
        push_gen(out, Gen::Str(crate::text::string_of(parts[i].as_str())));
        push_code(out, ".to_string(), ");
        assert(pv.subrange(0, i + 1).drop_last() =~= pv.subrange(0, i as int));
        i = i + 1;
        assert(gens_view(out@) =~= s1 + name_parts_out(pv.subrange(0, i as int)));
    }
    assert(pv.subrange(0, i as int) =~= pv);
    push_code(out, "], }");
    assert(gens_view(out@) =~= start + name_out(pv));
}

/// The text a foreign key's target field is named by.
pub open spec fn fk_target_text(syms: Seq<String>, t: Option<usize>) -> Seq<char> {
    match t {
        Some(s) => sym_text(syms, s as int),
        None => "id"@,
    }
}

/// The fields of a foreign key of the relation field `k`.
pub open spec fn fk_items_out(syms: Seq<String>, model: usize, k: usize, fk: Seq<ForeignKeyField>) -> Seq<GenV>
    decreases fk.len(),
{
    if fk.len() == 0 {
        Seq::empty()
    } else {
        fk_items_out(syms, model, k, fk.drop_last())
            + c("_toasty::codegen_support::core::schema::app::ForeignKeyField { source: _toasty::codegen_support::core::schema::app::FieldId { model: "@)
            + seq![GenV::Sym(model)] + c("::id(), index: "@) + seq![GenV::Int(fk.last().source)]
            + c(", }, target: { type __RelationTarget = <"@) + seq![GenV::FieldTy(k)]
            + c(" as _toasty::codegen_support::RelationOneField>::Target; <__RelationTarget as _toasty::codegen_support::Model>::field_name_to_id("@)
            + seq![GenV::Str(fk_target_text(syms, fk.last().target))] + c(") }, }, "@)
    }
}

fn push_fk_items(out: &mut Vec<Gen>, syms: &Vec<String>, model: usize, k: usize, fk: &Vec<ForeignKeyField>)
    ensures
        gens_view(final(out)@) == gens_view(old(out)@) + fk_items_out(syms@, model, k, fk@),
{
    let ghost start = gens_view(out@);
    let mut i: usize = 0;
    while i < fk.len()
        invariant
            i <= fk@.len(),
            gens_view(out@) == start + fk_items_out(syms@, model, k, fk@.subrange(0, i as int)),
        decreases fk.len() - i,
    {
        let f = fk[i];
        push_code(out, "_toasty::codegen_support::core::schema::app::ForeignKeyField { source: _toasty::codegen_support::core::schema::app::FieldId { model: ");
        push_gen(out, Gen::Sym(model));
        push_code(out, "::id(), index: ");
        push_gen(out, Gen::Int(f.source));
        push_code(out, ", }, target: { type __RelationTarget = <");
        push_gen(out, Gen::FieldTy(k));
        push_code(out, " as _toasty::codegen_support::RelationOneField>::Target; <__RelationTarget as _toasty::codegen_support::Model>::field_name_to_id(");
        let t = match f.target {
            Some(s) => sym_string(syms, s),
            None => crate::text::string_of("id"),
        };
        push_gen(out, Gen::Str(t));
        push_code(out, ") }, }, ");
        assert(fk@.subrange(0, i + 1).drop_last() =~= fk@.subrange(0, i as int));
        i = i + 1;
        assert(gens_view(out@) =~= start + fk_items_out(syms@, model, k, fk@.subrange(0, i as int)));
    }
    assert(fk@.subrange(0, i as int) =~= fk@);
}

/// The relation trait a `pair` is resolved through.
pub open spec fn relation_trait_text(many: bool) -> Seq<char> {
    if many { "_toasty::codegen_support::RelationManyField"@ } else { "_toasty::codegen_support::RelationOneField"@ }
}

/// The pair of a relation field `k`: the target field named by the `pair`
/// path (its segments joined with `.`), or none.
pub open spec fn pair_out(syms: Seq<String>, k: usize, many: bool, pair: Option<Seq<usize>>) -> Seq<GenV> {
    match pair {
        None => c("None"@),
        Some(segs) => c("Some({ type __RelationTarget = <"@) + seq![GenV::FieldTy(k)] + c(" as "@) + c(relation_trait_text(many))
            + c(">::Target; <__RelationTarget as _toasty::codegen_support::Model>::field_name_to_id("@)
            + seq![GenV::Str(join_with(segs.map_values(|s: usize| sym_text(syms, s as int)), "."@))] + c(") })"@),
    }
}

fn push_pair(out: &mut Vec<Gen>, syms: &Vec<String>, k: usize, many: bool, pair: &Option<Vec<usize>>)
    ensures
        gens_view(final(out)@) == gens_view(old(out)@) + pair_out(syms@, k, many, match pair { Some(v) => Some(v@), None => None }),
{
    let ghost start = gens_view(out@);
    match pair {
        None => push_code(out, "None"),
        Some(segs) => {
            push_code(out, "Some({ type __RelationTarget = <");
            push_gen(out, Gen::FieldTy(k));
            push_code(out, " as ");
            if many {
                push_code(out, "_toasty::codegen_support::RelationManyField");
            } else {
                push_code(out, "_toasty::codegen_support::RelationOneField");
            }
            push_code(out, ">::Target; <__RelationTarget as _toasty::codegen_support::Model>::field_name_to_id(");
            let mut parts: Vec<String> = Vec::new();
            let mut j: usize = 0;
            while j < segs.len()
                invariant
                    j <= segs@.len(),
                    parts@.len() == j,
                    forall|t: int| 0 <= t < j ==> #[trigger] parts@[t]@ == sym_text(syms@, segs@[t] as int),
                decreases segs.len() - j,
            {
                parts.push(sym_string(syms, segs[j]));
                j = j + 1;
            }
            assert(parts@.map_values(|p: String| p@) =~= segs@.map_values(|s: usize| sym_text(syms@, s as int)));
            push_gen(out, Gen::Str(join_strings(&parts, ".")));
            push_code(out, ") })");
        },
    }
    assert(gens_view(out@) =~= start + pair_out(syms@, k, many, match pair { Some(v) => Some(v@), None => None }));
}

/// `.segment()` for each segment of a `via` path.
pub open spec fn via_chain_out(segs: Seq<usize>) -> Seq<GenV>
    decreases segs.len(),
{
    if segs.len() == 0 { Seq::empty() } else { via_chain_out(segs.drop_last()) + c("."@) + seq![GenV::Sym(segs.last())] + c("()"@) }
}

/// The resolved path of a `via` relation, typed with its terminal.
pub open spec fn via_path_out(model: usize, segs: Seq<usize>, terminal: Seq<GenV>) -> Seq<GenV> {
    c("{ let __via_chain = "@) + seq![GenV::Sym(model)] + c("::fields()"@) + via_chain_out(segs)
        + c("; #[allow(clippy::useless_conversion)] let __via_typed: _toasty::codegen_support::Path<"@) + seq![GenV::Sym(model)] + c(", "@) + terminal
        + c("> = __via_chain.into(); let __via_untyped: _toasty::codegen_support::core::stmt::Path = __via_typed.into(); __via_untyped }"@)
}

/// The terminal type of a has-many `via` field `k`.
pub open spec fn many_terminal(k: usize) -> Seq<GenV> {
    c("_toasty::codegen_support::List<<"@) + seq![GenV::FieldTy(k)] + c(" as _toasty::codegen_support::ViaManyField>::Target>"@)
}

/// The terminal type of a has-one field `k`.
pub open spec fn one_terminal(k: usize) -> Seq<GenV> {
    c("<"@) + seq![GenV::FieldTy(k)] + c(" as _toasty::codegen_support::RelationOneField>::Target"@)
}

fn push_terminal(out: &mut Vec<Gen>, k: usize, many: bool)
    ensures
        gens_view(final(out)@) == gens_view(old(out)@) + (if many { many_terminal(k) } else { one_terminal(k) }),
{
    let ghost start = gens_view(out@);
    if many {
        push_code(out, "_toasty::codegen_support::List<<");
        push_gen(out, Gen::FieldTy(k));
        push_code(out, " as _toasty::codegen_support::ViaManyField>::Target>");
        assert(gens_view(out@) =~= start + many_terminal(k));
    } else {
        push_code(out, "<");
        push_gen(out, Gen::FieldTy(k));
        push_code(out, " as _toasty::codegen_support::RelationOneField>::Target");
        assert(gens_view(out@) =~= start + one_terminal(k));
    }
}

fn push_via_path(out: &mut Vec<Gen>, model: usize, segs: &Vec<usize>, k: usize, many: bool)
    ensures
        gens_view(final(out)@) == gens_view(old(out)@) + via_path_out(model, segs@, if many { many_terminal(k) } else { one_terminal(k) }),
{
    let ghost start = gens_view(out@);
    push_code(out, "{ let __via_chain = ");
    push_gen(out, Gen::Sym(model));
    push_code(out, "::fields()");
    let ghost s1 = gens_view(out@);
    let mut i: usize = 0;
    while i < segs.len()
        invariant
            i <= segs@.len(),
            gens_view(out@) == s1 + via_chain_out(segs@.subrange(0, i as int)),
        decreases segs.len() - i,
    {
        push_code(out, ".");
        push_gen(out, Gen::Sym(segs[i]));
        push_code(out, "()");
        assert(segs@.subrange(0, i + 1).drop_last() =~= segs@.subrange(0, i as int));
        i = i + 1;
        assert(gens_view(out@) =~= s1 + via_chain_out(segs@.subrange(0, i as int)));
    }
    assert(segs@.subrange(0, i as int) =~= segs@);
    push_code(out, "; #[allow(clippy::useless_conversion)] let __via_typed: _toasty::codegen_support::Path<");
    push_gen(out, Gen::Sym(model));
    push_code(out, ", ");
    push_terminal(out, k, many);
    push_code(out, "> = __via_chain.into(); let __via_untyped: _toasty::codegen_support::core::stmt::Path = __via_typed.into(); __via_untyped }");
    assert(gens_view(out@) =~= start + via_path_out(model, segs@, if many { many_terminal(k) } else { one_terminal(k) }));
}

/// The `ty` of the registration entry of field `k`.
pub open spec fn field_ty_out(m: Model, syms: Seq<String>, k: usize) -> Seq<GenV> {
    let f = m.fields@[k as int];
    let ty = seq![GenV::FieldTy(k)];
    match f.ty {
        FieldTy::Primitive => c("<"@) + ty + c(" as _toasty::codegen_support::Field>::field_ty("@)


                    + (match f.attrs.column { Some(col) => match col.ty { Some(t) => c("Some("@) + column_ty_out(syms, t) + c(")"@), None => c("None"@) }, None => c("None"@) })
            + c(")"@),
        FieldTy::BelongsTo(b) => c("<"@) + ty

                + c(" as _toasty::codegen_support::RelationOneField>::belongs_to_relation_field_ty(_toasty::codegen_support::core::schema::app::ForeignKey \
                    { fields: vec!["@)
            + fk_items_out(syms, m.ident, k, b.foreign_key@) + c("], })"@),
        FieldTy::HasMany(h) => match h.rel.via {
            Some(segs) => c("<<"@) + ty + c(" as _toasty::codegen_support::ViaManyField>::Target as _toasty::codegen_support::ViaTarget>::via_field_ty("@)
                + name_out(h.singular.parts@.map_values(|p: String| p@)) + c(", "@) + via_path_out(m.ident, segs@, many_terminal(k)) + c(",)"@),
            None => c("<"@) + ty + c(" as _toasty::codegen_support::RelationManyField>::many_relation_field_ty("@)

                    + name_out(h.singular.parts@.map_values(|p: String| p@))
                    + c(", "@)
                    + pair_out(syms, k, true, match h.rel.pair { Some(v) => Some(v@), None => None })
                + c(", None)"@),
        },
        FieldTy::HasOne(r) => c("<"@) + ty + c(" as _toasty::codegen_support::RelationOneField>::has_one_relation_field_ty("@)
            + pair_out(syms, k, false, match r.pair { Some(v) => Some(v@), None => None }) + c(", "@)
            + (match r.via { Some(segs) => c("Some("@) + via_path_out(m.ident, segs@, one_terminal(k)) + c(")"@), None => c("None"@) })
            + c(")"@),
    }
}

/// Whether field `k`'s value may be null: decided by the field type's
/// traits for plain fields and single relations; a has-many collection is
/// never null.
pub open spec fn nullable_out(m: Model, k: usize) -> Seq<GenV> {
    match m.fields@[k as int].ty {
        FieldTy::Primitive => c("<"@) + seq![GenV::FieldTy(k)] + c(" as _toasty::codegen_support::Field>::NULLABLE"@),
        FieldTy::HasMany(_) => c("false"@),
        _ => c("<"@) + seq![GenV::FieldTy(k)] + c(" as _toasty::codegen_support::RelationOneField>::NULLABLE"@),
    }
}

/// Whether field `k` is loaded lazily, decided by the field type's traits.
pub open spec fn deferred_out(m: Model, k: usize) -> Seq<GenV> {
    let tr: Seq<char> = match m.fields@[k as int].ty {
        FieldTy::Primitive => "_toasty::codegen_support::Field"@,
        FieldTy::HasMany(h) => if h.rel.via is Some { "_toasty::codegen_support::ViaManyField"@ } else { "_toasty::codegen_support::RelationManyField"@ },
        _ => "_toasty::codegen_support::RelationOneField"@,
    };
    c("<"@) + seq![GenV::FieldTy(k)] + c(" as "@) + c(tr) + c(">::DEFERRED"@)
}

/// How field `k`'s value is generated.
pub open spec fn auto_out(k: usize, a: Option<AutoStrategy>) -> Seq<GenV> {
    match a {
        None => c("None"@),
        Some(AutoStrategy::Unspecified) => c("Some(<"@) + seq![GenV::FieldTy(k)] + c(" as _toasty::codegen_support::Auto>::STRATEGY)"@),
        Some(AutoStrategy::Uuid(UuidVersion::V4)) => c("Some(_toasty::codegen_support::core::schema::app::AutoStrategy::Uuid(_toasty::codegen_support::core::schema::app::UuidVersion::V4))"@),
        Some(AutoStrategy::Uuid(UuidVersion::V7)) => c("Some(_toasty::codegen_support::core::schema::app::AutoStrategy::Uuid(_toasty::codegen_support::core::schema::app::UuidVersion::V7))"@),
        Some(AutoStrategy::Increment) => c("Some(_toasty::codegen_support::core::schema::app::AutoStrategy::Increment)"@),
    }
}

/// The application name of field `k`: its snake-case name when fields are
/// named.
pub open spec fn app_name_out(m: Model, syms: Seq<String>, k: usize) -> Seq<GenV> {
    if fields_named(m.view()) {
        c("Some("@) + seq![GenV::Str(snake_name(field_name_src(syms, m.fields@[k as int].name)))] + c(".to_string())"@)
    } else {
        c("None"@)
    }
}

/// The column name of field `k`, when `#[column("..")]` sets it.
pub open spec fn storage_name_out(m: Model, syms: Seq<String>, k: usize) -> Seq<GenV> {
    match m.fields@[k as int].attrs.column {
        Some(col) => match col.name {
            Some(s) => c("Some("@) + seq![GenV::Str(sym_text(syms, s as int))] + c(".to_string())"@),
            None => c("None"@),
        },
        None => c("None"@),
    }
}

/// The registration entry of field `k`.
pub open spec fn field_entry_out(m: Model, syms: Seq<String>, k: usize) -> Seq<GenV> {
    let f = m.fields@[k as int];
    c("_toasty::codegen_support::core::schema::app::Field { id: _toasty::codegen_support::core::schema::app::FieldId { model: "@)
        + seq![GenV::Sym(m.ident)] + c("::id(), index: "@) + seq![GenV::Int(k)]
        + c(", }, name: _toasty::codegen_support::core::schema::app::FieldName { app: "@) + app_name_out(m, syms, k)
        + c(", storage: "@) + storage_name_out(m, syms, k) + c(", }, ty: "@) + field_ty_out(m, syms, k)
        + c(", nullable: "@) + nullable_out(m, k) + c(", primary_key: "@) + bool_out(in_primary_key(m.view(), k as int))
        + c(", auto: "@) + auto_out(k, f.attrs.auto) + c(", versionable: "@) + bool_out(f.attrs.versionable)
        + c(", deferred: "@) + deferred_out(m, k) + c(", constraints: vec![], variant: None, shared: None, }, "@)
}

pub open spec fn field_entries_out(m: Model, syms: Seq<String>, n: int) -> Seq<GenV>
    decreases n,
{
    if n <= 0 { Seq::empty() } else { field_entries_out(m, syms, n - 1) + field_entry_out(m, syms, (n - 1) as usize) }
}

/// The registration entries of all fields of `m`.
pub open spec fn model_fields_out(m: Model, syms: Seq<String>) -> Seq<GenV> {
    c("vec!["@) + field_entries_out(m, syms, m.fields@.len() as int) + c("]"@)
}

/// No plain field sets a native enum column type (enum types are
/// registered by the enum itself).
pub open spec fn column_types_registrable(m: Model) -> bool {
    forall|k: int| 0 <= k < m.fields@.len() && (#[trigger] m.fields@[k]).ty is Primitive ==>
        !(m.fields@[k].attrs.column matches Some(col) && col.ty matches Some(ColumnType::Enum(_)))
}

/// Whether `column_types_registrable` holds.
pub fn check_column_types(model: &Model) -> (r: bool)
    ensures
        r == column_types_registrable(*model),
{
    let mut k: usize = 0;
    while k < model.fields.len()
        invariant
            k <= model.fields@.len(),
            forall|t: int| 0 <= t < k && (#[trigger] model.fields@[t]).ty is Primitive ==>
                !(model.fields@[t].attrs.column matches Some(col) && col.ty matches Some(ColumnType::Enum(_))),
        decreases model.fields.len() - k,
    {
        let f = &model.fields[k];
        match f.ty {
            FieldTy::Primitive => match f.attrs.column {
                Some(col) => match col.ty {
                    Some(ColumnType::Enum(_)) => return false,
                    _ => {},
                },
                None => {},
            },
            _ => {},
        }
        k = k + 1;
    }
    true
}

fn push_auto(out: &mut Vec<Gen>, k: usize, a: Option<AutoStrategy>)
    ensures
        gens_view(final(out)@) == gens_view(old(out)@) + auto_out(k, a),
{
    let ghost start = gens_view(out@);
    match a {
        None => push_code(out, "None"),
        Some(AutoStrategy::Unspecified) => {
            push_code(out, "Some(<");
            push_gen(out, Gen::FieldTy(k));
            push_code(out, " as _toasty::codegen_support::Auto>::STRATEGY)");
        },
        Some(AutoStrategy::Uuid(UuidVersion::V4)) => push_code(out, "Some(_toasty::codegen_support::core::schema::app::AutoStrategy::Uuid(_toasty::codegen_support::core::schema::app::UuidVersion::V4))"),
        Some(AutoStrategy::Uuid(UuidVersion::V7)) => push_code(out, "Some(_toasty::codegen_support::core::schema::app::AutoStrategy::Uuid(_toasty::codegen_support::core::schema::app::UuidVersion::V7))"),
        Some(AutoStrategy::Increment) => push_code(out, "Some(_toasty::codegen_support::core::schema::app::AutoStrategy::Increment)"),
    }
    assert(gens_view(out@) =~= start + auto_out(k, a));
}

fn push_field_ty(out: &mut Vec<Gen>, model: &Model, syms: &Vec<String>, k: usize)
    requires
        k < model.fields@.len(),
    ensures
        gens_view(final(out)@) == gens_view(old(out)@) + field_ty_out(*model, syms@, k),
{
    let ghost start = gens_view(out@);
    let f = &model.fields[k];
    match &f.ty {
        FieldTy::Primitive => {
            push_code(out, "<");
            push_gen(out, Gen::FieldTy(k));
            push_code(out, " as _toasty::codegen_support::Field>::field_ty(");
            match f.attrs.column {
                Some(col) => match col.ty {
                    Some(t) => {
                        push_code(out, "Some(");
                        push_column_ty(out, syms, t);
                        push_code(out, ")");
                    },
                    None => push_code(out, "None"),
                },
                None => push_code(out, "None"),
            }
            push_code(out, ")");
        },
        FieldTy::BelongsTo(b) => {
            push_code(out, "<");
            push_gen(out, Gen::FieldTy(k));
            push_code(out, " as _toasty::codegen_support::RelationOneField>::belongs_to_relation_field_ty(_toasty::codegen_support::core::schema::app::ForeignKey \
                \
                { fields: vec![");
            push_fk_items(out, syms, model.ident, k, &b.foreign_key);
            push_code(out, "], })");
        },
        FieldTy::HasMany(h) => match &h.rel.via {
            Some(segs) => {
                push_code(out, "<<");
                push_gen(out, Gen::FieldTy(k));
                push_code(out, " as _toasty::codegen_support::ViaManyField>::Target as _toasty::codegen_support::ViaTarget>::via_field_ty(");
                push_name(out, &h.singular.parts);
                push_code(out, ", ");
                push_via_path(out, model.ident, segs, k, true);
                push_code(out, ",)");
            },
            None => {
                push_code(out, "<");
                push_gen(out, Gen::FieldTy(k));
                push_code(out, " as _toasty::codegen_support::RelationManyField>::many_relation_field_ty(");
                push_name(out, &h.singular.parts);
                push_code(out, ", ");
                push_pair(out, syms, k, true, &h.rel.pair);
                push_code(out, ", None)");
            },
        },
        FieldTy::HasOne(r) => {
            push_code(out, "<");
            push_gen(out, Gen::FieldTy(k));
            push_code(out, " as _toasty::codegen_support::RelationOneField>::has_one_relation_field_ty(");
            push_pair(out, syms, k, false, &r.pair);
            push_code(out, ", ");
            match &r.via {
                Some(segs) => {
                    push_code(out, "Some(");
                    push_via_path(out, model.ident, segs, k, false);
                    push_code(out, ")");
                },
                None => push_code(out, "None"),
            }
            push_code(out, ")");
        },
    }
    assert(gens_view(out@) =~= start + field_ty_out(*model, syms@, k));
}

fn push_nullable_deferred(out: &mut Vec<Gen>, model: &Model, k: usize, deferred: bool)
    requires
        k < model.fields@.len(),
    ensures
        gens_view(final(out)@) == gens_view(old(out)@) + (if deferred { deferred_out(*model, k) } else { nullable_out(*model, k) }),
{
    let ghost start = gens_view(out@);
    let f = &model.fields[k];
    if deferred {
        push_code(out, "<");
        push_gen(out, Gen::FieldTy(k));
        push_code(out, " as ");
        match &f.ty {
            FieldTy::Primitive => push_code(out, "_toasty::codegen_support::Field"),
            FieldTy::HasMany(h) => if h.rel.via.is_some() {
                push_code(out, "_toasty::codegen_support::ViaManyField")
            } else {
                push_code(out, "_toasty::codegen_support::RelationManyField")
            },
            _ => push_code(out, "_toasty::codegen_support::RelationOneField"),
        }
        push_code(out, ">::DEFERRED");
        assert(gens_view(out@) =~= start + deferred_out(*model, k));
    } else {
        match &f.ty {
            FieldTy::Primitive => {
                push_code(out, "<");
                push_gen(out, Gen::FieldTy(k));
                push_code(out, " as _toasty::codegen_support::Field>::NULLABLE");
            },
            FieldTy::HasMany(_) => push_code(out, "false"),
            _ => {
                push_code(out, "<");
                push_gen(out, Gen::FieldTy(k));
                push_code(out, " as _toasty::codegen_support::RelationOneField>::NULLABLE");
            },
        }
        assert(gens_view(out@) =~= start + nullable_out(*model, k));
    }
}

fn push_field_names(out: &mut Vec<Gen>, model: &Model, syms: &Vec<String>, named: bool, k: usize)
    requires
        k < model.fields@.len(),
        named == fields_named(model.view()),
    ensures
        gens_view(final(out)@) == gens_view(old(out)@) + app_name_out(*model, syms@, k) + c(", storage: "@) + storage_name_out(*model, syms@, k),
{
    let ghost start = gens_view(out@);
    let f = &model.fields[k];
    if named {
        push_code(out, "Some(");
        let n = field_name(syms, f.name);
        push_gen(out, Gen::Str(n.snake_case));
        push_code(out, ".to_string())");
    } else {
        push_code(out, "None");
    }
    push_code(out, ", storage: ");
    match f.attrs.column {
        Some(col) => match col.name {
            Some(s) => {
                push_code(out, "Some(");
                push_gen(out, Gen::Str(sym_string(syms, s)));
                push_code(out, ".to_string())");
            },
            None => push_code(out, "None"),
        },
        None => push_code(out, "None"),
    }
    assert(gens_view(out@) =~= start + app_name_out(*model, syms@, k) + c(", storage: "@) + storage_name_out(*model, syms@, k));
}

#[verifier::rlimit(60)]
fn push_field_entry(out: &mut Vec<Gen>, model: &Model, syms: &Vec<String>, named: bool, k: usize)
    requires
        k < model.fields@.len(),
        named == fields_named(model.view()),
    ensures
        gens_view(final(out)@) == gens_view(old(out)@) + field_entry_out(*model, syms@, k),
{
    let ghost start = gens_view(out@);
    let f = &model.fields[k];
    push_code(out, "_toasty::codegen_support::core::schema::app::Field { id: _toasty::codegen_support::core::schema::app::FieldId { model: ");
    push_gen(out, Gen::Sym(model.ident));
    push_code(out, "::id(), index: ");
    push_gen(out, Gen::Int(k));
    push_code(out, ", }, name: _toasty::codegen_support::core::schema::app::FieldName { app: ");
    push_field_names(out, model, syms, named, k);
    push_code(out, ", }, ty: ");
    push_field_ty(out, model, syms, k);
    push_code(out, ", nullable: ");
    push_nullable_deferred(out, model, k, false);
    push_code(out, ", primary_key: ");
    let pk = match &model.kind {
        ModelKind::Root(root) => crate::registration::holds_index(&root.primary_key, k),
        _ => false,
    };
    push_bool(out, pk);
    push_code(out, ", auto: ");
    push_auto(out, k, f.attrs.auto);
    push_code(out, ", versionable: ");
    push_bool(out, f.attrs.versionable);
    push_code(out, ", deferred: ");
    push_nullable_deferred(out, model, k, true);
    push_code(out, ", constraints: vec![], variant: None, shared: None, }, ");
    assert(gens_view(out@) =~= start + field_entry_out(*model, syms@, k));
}

/// The registration entries of a model's fields.
pub fn expand_model_fields(model: &Model, syms: &Vec<String>) -> (r: Vec<Gen>)
    requires
        autos_registrable(model.view()),
        column_types_registrable(*model),
    ensures
        gens_view(r@) == model_fields_out(*model, syms@),
{
    let named = match &model.kind {
        ModelKind::EmbeddedStruct(e) => e.fields_named,
        _ => true,
    };
    let mut out: Vec<Gen> = Vec::new();
    proof {
        crate::gen::lemma_gens_empty(out@);
    }
    push_code(&mut out, "vec![");
    let ghost s1 = gens_view(out@);
    let mut k: usize = 0;
    while k < model.fields.len()
        invariant
            k <= model.fields@.len(),
            named == fields_named(model.view()),
            gens_view(out@) == s1 + field_entries_out(*model, syms@, k as int),
        decreases model.fields.len() - k,
    {
        push_field_entry(&mut out, model, syms, named, k);
        k = k + 1;
        assert(gens_view(out@) =~= s1 + field_entries_out(*model, syms@, k as int));
    }
    push_code(&mut out, "]");
    assert(gens_view(out@) =~= model_fields_out(*model, syms@));
    out
}

} // verus!
