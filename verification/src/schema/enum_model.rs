//! Embedded enums: variants, discriminants and how they are stored.
use vstd::prelude::*;

use super::attr::{attr_is, attr_is_exec, Attr};
use super::column::{
    column_from_attr_spec, label_string, label_text, same_value, Column, ColumnType, Label,
    RenameRule, VariantValue,
};
use super::field::{
    ast_fields_check, collect_ast_fields, collect_idents, field_idents, field_spec, fields_agree,
    relations_named, Field, FieldDef, FieldV, FieldsKind,
};
use super::model::{
    collect_field_indices, field_indices, fields_view, index_below, indices_view, Index,
    lemma_field_indices_below, Model, ModelKind, ModelKindV, ModelV,
};
use super::name::Name;
use crate::diag::{Diag, ErrorKind};
use crate::text::chars_of;
use crate::tokens::{sym_string, sym_text};

verus! {

/// A validated enum variant.
#[derive(Clone, Copy, PartialEq, Eq, Debug, Structural)]
pub struct Variant {
    /// The variant's identifier (its symbol) and span.
    pub ident: usize,
    pub ident_span: usize,
    /// Its position among the enum's variants.
    pub index: usize,
    pub discriminant: VariantValue,
    /// Whether the variant carries (named) fields.
    pub has_fields: bool,
}

/// How the discriminant column of an enum is stored.
#[derive(Clone, Copy, PartialEq, Eq, Debug, Structural)]
pub enum EnumStorageStrategy {
    /// A native database enum type, with an optional custom type name (its
    /// symbol).
    NativeEnum(Option<usize>),
    /// A plain `text` / `varchar` column.
    PlainString(ColumnType),
    /// An integer column of the given type, for integer discriminants.
    Integer(ColumnType),
}

/// What only an embedded enum has.
#[derive(Clone, Debug)]
pub struct ModelEmbeddedEnum {
    pub variants: Vec<Variant>,
    /// `None` for integer discriminants stored in the default `i64` column.
    pub storage_strategy: Option<EnumStorageStrategy>,
}

pub struct ModelEmbeddedEnumV {
    pub variants: Seq<Variant>,
    pub storage_strategy: Option<EnumStorageStrategy>,
}

impl ModelEmbeddedEnum {
    pub open spec fn view(&self) -> ModelEmbeddedEnumV {
        ModelEmbeddedEnumV { variants: self.variants@, storage_strategy: self.storage_strategy }
    }

    /// Whether the variants use string labels (decided by the first).
    pub fn uses_string_discriminants(&self) -> (r: bool)
        ensures
            r == (self.variants@.len() > 0 && self.variants@[0].discriminant is String),
    {
        if self.variants.len() == 0 {
            false
        } else {
            self.variants[0].discriminant.is_string()
        }
    }
}

/// A variant as written in the source.
#[derive(Clone, Debug)]
pub struct VariantDef {
    /// The variant's identifier (its symbol) and span.
    pub ident: usize,
    pub ident_span: usize,
    /// Span of the whole variant.
    pub span: usize,
    pub attrs: Vec<Attr>,
    pub fields_kind: FieldsKind,
    pub fields_span: usize,
    pub fields: Vec<FieldDef>,
}

/// An enum as written in the source.
#[derive(Clone, Debug)]
pub struct EnumDef {
    pub ident: usize,
    pub ident_span: usize,
    pub span: usize,
    /// Span of the generic parameters, when there are any.
    pub generics: Option<usize>,
    pub attrs: Vec<Attr>,
    pub variants: Vec<VariantDef>,
}

impl EnumDef {
    /// Each variant's fields agree with their kind, and fields that carry
    /// `#[has_many]` or `#[belongs_to]` are named.
    pub open spec fn wf(&self, syms: Seq<String>) -> bool {
        forall|i: int| 0 <= i < self.variants@.len() ==> {
            &&& fields_agree((#[trigger] self.variants@[i]).fields_kind, self.variants@[i].fields@)
            &&& forall|j: int| 0 <= j < self.variants@[i].fields@.len() ==> relations_named(#[trigger] self.variants@[i].fields@[j], syms)
        }
    }
    /// Whether the definition is well formed (see `wf`).
    pub fn check_wf(&self, syms: &Vec<String>) -> (r: bool)
        ensures
            r == self.wf(syms@),
    {
        let mut i: usize = 0;
        while i < self.variants.len()
            invariant
                i <= self.variants@.len(),
                forall|k: int| 0 <= k < i ==> {
                    &&& fields_agree((#[trigger] self.variants@[k]).fields_kind, self.variants@[k].fields@)
                    &&& forall|j: int| 0 <= j < self.variants@[k].fields@.len() ==> relations_named(#[trigger] self.variants@[k].fields@[j], syms@)
                },
            decreases self.variants.len() - i,
        {
            let v = &self.variants[i];
            if !super::field::fields_wf_exec(v.fields_kind, &v.fields, syms) {
                return false;
            }
            i = i + 1;
        }
        true
    }

}

/// The enum-level `#[column(..)]` settings: the storage type and the
/// rename rule, read from `attrs[k..]`; a second setting of either is an
/// error.
pub open spec fn enum_column_fold(attrs: Seq<Attr>, syms: Seq<String>, k: int, ty: Option<ColumnType>, rule: Option<RenameRule>) -> Result<(Option<ColumnType>, Option<RenameRule>), Diag>
    decreases attrs.len() - k,
{
    if k >= attrs.len() || k < 0 {
        Ok((ty, rule))
    } else if attr_is(attrs[k], syms, "column"@) {
        match column_from_attr_spec(attrs[k], syms) {
            Err(e) => Err(e),
            Ok(col) => if col.ty is Some && ty is Some {
                Err(Diag::at(attrs[k].span, ErrorKind::DuplicateEnumColumnType))
            } else if col.rename_all is Some && rule is Some {
                Err(Diag::at(attrs[k].span, ErrorKind::DuplicateRenameAll))
            } else {
                enum_column_fold(attrs, syms, k + 1, if col.ty is Some { col.ty } else { ty }, if col.rename_all is Some { col.rename_all } else { rule })
            },
        }
    } else {
        enum_column_fold(attrs, syms, k + 1, ty, rule)
    }
}

/// The discriminant set on a variant with `#[column(variant = ..)]`, read
/// from `attrs[k..]`.
pub open spec fn variant_attr_fold(attrs: Seq<Attr>, syms: Seq<String>, k: int, acc: Option<VariantValue>) -> Result<Option<VariantValue>, Diag>
    decreases attrs.len() - k,
{
    if k >= attrs.len() || k < 0 {
        Ok(acc)
    } else if attr_is(attrs[k], syms, "column"@) {
        match column_from_attr_spec(attrs[k], syms) {
            Err(e) => Err(e),
            Ok(col) => match col.variant {
                None => variant_attr_fold(attrs, syms, k + 1, acc),
                Some(v) => if acc is Some {
                    Err(Diag::at(attrs[k].span, ErrorKind::DuplicateVariant))
                } else {
                    variant_attr_fold(attrs, syms, k + 1, Some(v))
                },
            },
        }
    } else {
        variant_attr_fold(attrs, syms, k + 1, acc)
    }
}

/// The fields `v.fields[k..]` of variant `vi`, added to `acc` (the fields
/// of the enum so far, whose count is the next field's id); the first
/// field that fails stops the enum with its errors.
pub open spec fn variant_fields_fold(def: EnumDef, syms: Seq<String>, v: VariantDef, vi: int, names: Seq<usize>, k: int, acc: Seq<FieldV>) -> Result<Seq<FieldV>, Seq<Diag>>
    decreases v.fields@.len() - k,
{
    if k >= v.fields@.len() || k < 0 {
        Ok(acc)
    } else {
        match field_spec(v.fields@[k], syms, def.ident, def.ident_span, acc.len() as usize, k as usize, names) {
            Err(es) => Err(es),
            Ok(f) => variant_fields_fold(def, syms, v, vi, names, k + 1, acc.push(FieldV { variant: Some(vi as usize), ..f })),
        }
    }
}

/// The variants, fields and errors gathered so far.
pub struct EnumScan {
    pub variants: Seq<Variant>,
    pub fields: Seq<FieldV>,
    pub errs: Seq<Diag>,
}

/// Variant `vi` read into `st`. A variant attribute error is recorded and
/// the variant skipped; a malformed field list or field stops the enum.
/// Without an explicit discriminant a variant's label is its identifier
/// under the rename rule (snake case by default). Tuple variants are
/// refused.
#[verifier::opaque]
pub open spec fn variant_step(def: EnumDef, syms: Seq<String>, rule: RenameRule, vi: int, st: EnumScan) -> Result<EnumScan, Seq<Diag>> {
    let v = def.variants@[vi];
    match variant_attr_fold(v.attrs@, syms, 0, None) {
        Err(e) => Ok(EnumScan { errs: st.errs.push(e), ..st }),
        Ok(explicit) => {
            let disc = match explicit {
                Some(d) => d,
                None => VariantValue::String(Label::Derived(rule, v.ident)),
            };
            match ast_fields_check(v.fields_kind, v.fields@.len() as int, v.fields_span) {
                Err(e) => Err(seq![e]),
                Ok(_) => match variant_fields_fold(def, syms, v, vi, field_idents(v.fields_kind, v.fields@), 0, st.fields) {
                    Err(es) => Err(es),
                    Ok(fields) => {
                        let has_fields = v.fields@.len() > 0;
                        if v.fields_kind == FieldsKind::Unnamed && has_fields {
                            Ok(EnumScan { fields, errs: st.errs.push(Diag::at(v.span, ErrorKind::TupleVariantUnsupported)), ..st })
                        } else {
                            Ok(EnumScan {
                                variants: st.variants.push(Variant { ident: v.ident, ident_span: v.ident_span, index: vi as usize, discriminant: disc, has_fields }),
                                fields,
                                errs: st.errs,
                            })
                        }
                    },
                },
            }
        },
    }
}

/// The first `n` variants read in turn.
pub open spec fn variants_scan(def: EnumDef, syms: Seq<String>, rule: RenameRule, n: int) -> Result<EnumScan, Seq<Diag>>
    decreases n,
{
    if n <= 0 {
        Ok(EnumScan { variants: Seq::empty(), fields: Seq::empty(), errs: Seq::empty() })
    } else {
        match variants_scan(def, syms, rule, n - 1) {
            Err(es) => Err(es),
            Ok(st) => variant_step(def, syms, rule, n - 1, st),
        }
    }
}

/// The variants mix integer and string discriminants.
pub open spec fn mixed_kinds(vs: Seq<Variant>) -> bool {
    (exists|i: int| 0 <= i < vs.len() && (#[trigger] vs[i]).discriminant is Integer) && (exists|i: int| 0 <= i < vs.len() && (#[trigger] vs[i]).discriminant is String)
}

/// The first variant before `i` with the same discriminant as variant `i`.
pub open spec fn first_same(syms: Seq<String>, vs: Seq<Variant>, i: int, j: int) -> Option<int>
    decreases i - j,
{
    if j >= i || j < 0 {
        None
    } else if same_value(syms, vs[i].discriminant, vs[j].discriminant) {
        Some(j)
    } else {
        first_same(syms, vs, i, j + 1)
    }
}

/// One error for each of the first `n` variants that repeats an earlier
/// discriminant, naming the first variant that used it.
pub open spec fn duplicate_errors(syms: Seq<String>, vs: Seq<Variant>, n: int) -> Seq<Diag>
    decreases n,
{
    if n <= 0 {
        Seq::empty()
    } else {
        let prior = duplicate_errors(syms, vs, n - 1);
        match first_same(syms, vs, n - 1, 0) {
            Some(j) => prior.push(Diag::at(vs[n - 1].ident_span, ErrorKind::DuplicateDiscriminant { value: vs[n - 1].discriminant, prev: vs[j].ident })),
            None => prior,
        }
    }
}

/// The number of bytes of the UTF-8 encoding of a character.
pub open spec fn utf8_width(c: char) -> nat {
    if (c as u32) < 0x80 {
        1
    } else if (c as u32) < 0x800 {
        2
    } else if (c as u32) < 0x10000 {
        3
    } else {
        4
    }
}

/// The number of bytes of the UTF-8 encoding of a string.
pub open spec fn utf8_len(s: Seq<char>) -> nat
    decreases s.len(),
{
    if s.len() == 0 {
        0
    } else {
        utf8_len(s.drop_last()) + utf8_width(s.last())
    }
}

/// One error for each of the first `n` variants whose string label is
/// longer than 63 bytes.
pub open spec fn label_errors(syms: Seq<String>, vs: Seq<Variant>, n: int) -> Seq<Diag>
    decreases n,
{
    if n <= 0 {
        Seq::empty()
    } else {
        let prior = label_errors(syms, vs, n - 1);
        match vs[n - 1].discriminant {
            VariantValue::String(l) => if utf8_len(label_text(syms, l)) > 63 {
                prior.push(Diag::at(vs[n - 1].ident_span, ErrorKind::LabelTooLong { variant: vs[n - 1].ident, len: utf8_len(label_text(syms, l)) as usize }))
            } else {
                prior
            },
            _ => prior,
        }
    }
}

/// `256^n`.
pub open spec fn pow256(n: nat) -> int
    decreases n,
{
    if n == 0 {
        1
    } else {
        256 * pow256((n - 1) as nat)
    }
}

/// Whether an integer storage type (signed or not, `bytes` wide) holds `v`.
pub open spec fn int_fits(v: int, signed: bool, bytes: int) -> bool {
    if bytes >= 8 {
        signed || v >= 0
    } else {
        let lim = pow256(bytes as nat);
        if signed {
            -(lim / 2) <= v < lim / 2
        } else {
            0 <= v < lim
        }
    }
}

/// The first of the first `n` variants whose integer discriminant the
/// storage type does not hold.
pub open spec fn first_misfit(vs: Seq<Variant>, signed: bool, bytes: int, n: int) -> Option<int>
    decreases n,
{
    if n <= 0 {
        None
    } else {
        match first_misfit(vs, signed, bytes, n - 1) {
            Some(i) => Some(i),
            None => match vs[n - 1].discriminant {
                VariantValue::Integer(x) => if int_fits(x as int, signed, bytes) { None } else { Some(n - 1) },
                _ => None,
            },
        }
    }
}

/// How the discriminant column is stored, or the error that the enum's
/// settings give.
pub open spec fn storage_spec(def: EnumDef, vs: Seq<Variant>, ty: Option<ColumnType>, rule: Option<RenameRule>) -> Result<Option<EnumStorageStrategy>, Diag> {
    if vs.len() > 0 && vs[0].discriminant is String {
        match ty {
            None => Ok(Some(EnumStorageStrategy::NativeEnum(None))),
            Some(t) => if t is Text || t is VarChar {
                Ok(Some(EnumStorageStrategy::PlainString(t)))
            } else if t is Enum {
                Ok(Some(EnumStorageStrategy::NativeEnum(t->Enum_0)))
            } else {
                Err(Diag::at(def.span, ErrorKind::UnsupportedEnumColumnType))
            },
        }
    } else if rule is Some {
        Err(Diag::at(def.span, ErrorKind::RenameAllOnIntegerEnum))
    } else {
        match ty {
            None => Ok(None),
            Some(t) => match t {
                ColumnType::Integer(b) => match first_misfit(vs, true, b as int, vs.len() as int) {
                    Some(i) => Err(Diag::at(vs[i].ident_span, ErrorKind::DiscriminantOutOfRange { value: vs[i].discriminant->Integer_0 })),
                    None => Ok(Some(EnumStorageStrategy::Integer(t))),
                },
                ColumnType::UnsignedInteger(b) => match first_misfit(vs, false, b as int, vs.len() as int) {
                    Some(i) => Err(Diag::at(vs[i].ident_span, ErrorKind::DiscriminantOutOfRange { value: vs[i].discriminant->Integer_0 })),
                    None => Ok(Some(EnumStorageStrategy::Integer(t))),
                },
                _ => Err(Diag::at(def.span, ErrorKind::IntegerEnumColumnType)),
            },
        }
    }
}

/// The model an enum deriving `Embed` describes, or every error found.
pub open spec fn enum_model_spec(def: EnumDef, syms: Seq<String>) -> Result<ModelV, Seq<Diag>> {
    if def.generics is Some {
        Err(seq![Diag::at(def.generics.unwrap(), ErrorKind::EnumGenerics)])
    } else {
        match enum_column_fold(def.attrs@, syms, 0, None, None) {
            Err(e) => Err(seq![e]),
            Ok((ty, rule)) => match variants_scan(def, syms, rule.unwrap_or(RenameRule::Snake), def.variants@.len() as int) {
                Err(es) => Err(es),
                Ok(st) => {
                    let vs = st.variants;
                    let e1 = if mixed_kinds(vs) { st.errs.push(Diag::at(def.span, ErrorKind::MixedDiscriminants)) } else { st.errs };
                    let errs = e1 + duplicate_errors(syms, vs, vs.len() as int) + label_errors(syms, vs, vs.len() as int);
                    if errs.len() > 0 {
                        Err(errs)
                    } else {
                        match storage_spec(def, vs, ty, rule) {
                            Err(e) => Err(seq![e]),
                            Ok(storage) => Ok(ModelV {
                                ident: def.ident,
                                ident_span: def.ident_span,
                                fields: st.fields,
                                kind: ModelKindV::EmbeddedEnum(ModelEmbeddedEnumV { variants: vs, storage_strategy: storage }),
                                indices: field_indices(st.fields, st.fields.len() as int),
                                table: None,
                            }),
                        }
                    }
                },
            },
        }
    }
}

/// Reads the enum-level `#[column(..)]` settings (see `enum_column_fold`).
fn enum_columns(attrs: &Vec<Attr>, syms: &Vec<String>) -> (r: Result<(Option<ColumnType>, Option<RenameRule>), Diag>)
    ensures
        r == enum_column_fold(attrs@, syms@, 0, None, None),
{
    let mut ty: Option<ColumnType> = None;
    let mut rule: Option<RenameRule> = None;
    let mut k: usize = 0;
    while k < attrs.len()
        invariant
            k <= attrs@.len(),
            enum_column_fold(attrs@, syms@, 0, None, None) == enum_column_fold(attrs@, syms@, k as int, ty, rule),
        decreases attrs.len() - k,
    {
        let a = &attrs[k];
        if attr_is_exec(a, syms, "column") {
            let col = match Column::from_ast(a, syms) {
                Err(e) => return Err(e),
                Ok(c) => c,
            };
            if col.ty.is_some() && ty.is_some() {
                return Err(Diag { span: a.span, kind: ErrorKind::DuplicateEnumColumnType });
            }
            if col.rename_all.is_some() && rule.is_some() {
                return Err(Diag { span: a.span, kind: ErrorKind::DuplicateRenameAll });
            }
            if col.ty.is_some() {
                ty = col.ty;
            }
            if col.rename_all.is_some() {
                rule = col.rename_all;
            }
        }
        k = k + 1;
    }
    Ok((ty, rule))
}

/// The discriminant a variant's attributes set.
#[derive(Clone, Copy, PartialEq, Eq, Debug, Structural)]
pub struct VariantAttr {
    pub discriminant: VariantValue,
}

impl VariantAttr {
    /// Reads `#[column(variant = ..)]` on a variant: `None` when no
    /// discriminant is given.
    pub fn from_attrs(attrs: &Vec<Attr>, syms: &Vec<String>) -> (r: Result<Option<VariantAttr>, Diag>)
        ensures
            r matches Ok(o) ==> variant_attr_fold(attrs@, syms@, 0, None) == Ok::<Option<VariantValue>, Diag>(match o {
                Some(a) => Some(a.discriminant),
                None => None,
            }),
            r matches Err(e) ==> variant_attr_fold(attrs@, syms@, 0, None) == Err::<Option<VariantValue>, Diag>(e),
    {
        let mut acc: Option<VariantValue> = None;
        let mut k: usize = 0;
        while k < attrs.len()
            invariant
                k <= attrs@.len(),
                variant_attr_fold(attrs@, syms@, 0, None) == variant_attr_fold(attrs@, syms@, k as int, acc),
            decreases attrs.len() - k,
        {
            let a = &attrs[k];
            if attr_is_exec(a, syms, "column") {
                let col = match Column::from_ast(a, syms) {
                    Err(e) => return Err(e),
                    Ok(c) => c,
                };
                match col.variant {
                    None => {},
                    Some(v) => {
                        if acc.is_some() {
                            return Err(Diag { span: a.span, kind: ErrorKind::DuplicateVariant });
                        }
                        acc = Some(v);
                    },
                }
            }
            k = k + 1;
        }
        match acc {
            Some(d) => Ok(Some(VariantAttr { discriminant: d })),
            None => Ok(None),
        }
    }
}

/// Builds the fields of variant `vi`, appending them to `all` (see
/// `variant_fields_fold`).
fn variant_fields(def: &EnumDef, syms: &Vec<String>, v: &VariantDef, vi: usize, names: &Vec<usize>, all: &mut Vec<Field>) -> (r: Result<(), Vec<Diag>>)
    requires
        forall|j: int| 0 <= j < v.fields@.len() ==> relations_named(#[trigger] v.fields@[j], syms@),
        forall|i: int| 0 <= i < old(all)@.len() ==> (#[trigger] old(all)@[i]).singular_ok(syms@),
    ensures
        r is Ok ==> variant_fields_fold(*def, syms@, *v, vi as int, names@, 0, fields_view(old(all)@)) == Ok::<Seq<FieldV>, Seq<Diag>>(fields_view(final(all)@)),
        r is Ok ==> forall|i: int| 0 <= i < final(all)@.len() ==> (#[trigger] final(all)@[i]).singular_ok(syms@),
        r matches Err(es) ==> variant_fields_fold(*def, syms@, *v, vi as int, names@, 0, fields_view(old(all)@)) == Err::<Seq<FieldV>, Seq<Diag>>(es@),
{
    let ghost start = fields_view(all@);
    let mut k: usize = 0;
    while k < v.fields.len()
        invariant
            k <= v.fields@.len(),
            start == fields_view(old(all)@),
            forall|j: int| 0 <= j < v.fields@.len() ==> relations_named(#[trigger] v.fields@[j], syms@),
            forall|i: int| 0 <= i < all@.len() ==> (#[trigger] all@[i]).singular_ok(syms@),
            variant_fields_fold(*def, syms@, *v, vi as int, names@, 0, start) == variant_fields_fold(*def, syms@, *v, vi as int, names@, k as int, fields_view(all@)),
        decreases v.fields.len() - k,
    {
        let fd = &v.fields[k];
        assert(relations_named(v.fields@[k as int], syms@));
        let id = all.len();
        assert(fields_view(all@).len() == all@.len());
        match Field::from_ast(fd, syms, def.ident, def.ident_span, id, k, names) {
            Err(es) => {
                assert(fields_view(all@).len() as usize == id);
                assert(variant_fields_fold(*def, syms@, *v, vi as int, names@, k as int, fields_view(all@)) == Err::<Seq<FieldV>, Seq<Diag>>(es@));
                return Err(es);
            },
            Ok(f) => {
                let mut f = f;
                f.variant = Some(vi);
                let ghost before = all@;
                all.push(f);
                assert(fields_view(all@) =~= fields_view(before).push(f.view()));
            },
        }
        k = k + 1;
    }
    Ok(())
}

/// Reads variant `vi` into the variants, fields and errors so far (see
/// `variant_step`).
fn read_variant(def: &EnumDef, syms: &Vec<String>, rule: RenameRule, vi: usize, vs: &mut Vec<Variant>, fs: &mut Vec<Field>, errs: &mut Vec<Diag>) -> (r: Result<(), Vec<Diag>>)
    requires
        vi < def.variants@.len(),
        def.wf(syms@),
        forall|i: int| 0 <= i < old(fs)@.len() ==> (#[trigger] old(fs)@[i]).singular_ok(syms@),
    ensures
        r is Ok ==> variant_step(*def, syms@, rule, vi as int, EnumScan { variants: old(vs)@, fields: fields_view(old(fs)@), errs: old(errs)@ }) == Ok::<EnumScan, Seq<Diag>>(EnumScan { variants: final(vs)@, fields: fields_view(final(fs)@), errs: final(errs)@ }),
        r is Ok ==> forall|i: int| 0 <= i < final(fs)@.len() ==> (#[trigger] final(fs)@[i]).singular_ok(syms@),
        r matches Err(es) ==> variant_step(*def, syms@, rule, vi as int, EnumScan { variants: old(vs)@, fields: fields_view(old(fs)@), errs: old(errs)@ }) == Err::<EnumScan, Seq<Diag>>(es@),
{
    reveal(variant_step);
    let v = &def.variants[vi];
    assert(fields_agree(def.variants@[vi as int].fields_kind, def.variants@[vi as int].fields@));
    assert(forall|j: int| 0 <= j < v.fields@.len() ==> relations_named(#[trigger] v.fields@[j], syms@));
    match VariantAttr::from_attrs(&v.attrs, syms) {
        Err(e) => {
            errs.push(e);
            Ok(())
        },
        Ok(explicit) => {
            let disc = match explicit {
                Some(a) => a.discriminant,
                None => VariantValue::String(Label::Derived(rule, v.ident)),
            };
            match collect_ast_fields(v.fields_kind, &v.fields, v.fields_span) {
                Err(e) => {
                    let mut out: Vec<Diag> = Vec::new();
                    out.push(e);
                    assert(out@ =~= seq![e]);
                    return Err(out);
                },
                Ok(_) => {},
            }
            let names = collect_idents(v.fields_kind, &v.fields);
            match variant_fields(def, syms, v, vi, &names, fs) {
                Err(es) => return Err(es),
                Ok(_) => {},
            }
            let has_fields = v.fields.len() > 0;
            if v.fields_kind == FieldsKind::Unnamed && has_fields {
                errs.push(Diag { span: v.span, kind: ErrorKind::TupleVariantUnsupported });
            } else {
                vs.push(Variant { ident: v.ident, ident_span: v.ident_span, index: vi, discriminant: disc, has_fields });
            }
            Ok(())
        },
    }
}

proof fn lemma_variants_scan_err(def: EnumDef, syms: Seq<String>, rule: RenameRule, m: int, n: int)
    requires
        0 <= m <= n,
        variants_scan(def, syms, rule, m) is Err,
    ensures
        variants_scan(def, syms, rule, n) == variants_scan(def, syms, rule, m),
    decreases n - m,
{
    if m < n {
        lemma_variants_scan_err(def, syms, rule, m, n - 1);
    }
}

/// Reads every variant (see `variants_scan`).
fn scan_variants(def: &EnumDef, syms: &Vec<String>, rule: RenameRule) -> (r: Result<(Vec<Variant>, Vec<Field>, Vec<Diag>), Vec<Diag>>)
    requires
        def.wf(syms@),
    ensures
        r matches Ok((vs, fs, es)) ==> {
            &&& variants_scan(*def, syms@, rule, def.variants@.len() as int) == Ok::<EnumScan, Seq<Diag>>(EnumScan { variants: vs@, fields: fields_view(fs@), errs: es@ })
            &&& forall|i: int| 0 <= i < fs@.len() ==> (#[trigger] fs@[i]).singular_ok(syms@)
        },
        r matches Err(es) ==> variants_scan(*def, syms@, rule, def.variants@.len() as int) == Err::<EnumScan, Seq<Diag>>(es@),
{
    let mut vs: Vec<Variant> = Vec::new();
    let mut fs: Vec<Field> = Vec::new();
    let mut errs: Vec<Diag> = Vec::new();
    assert(fields_view(fs@) =~= Seq::<FieldV>::empty());
    let mut vi: usize = 0;
    while vi < def.variants.len()
        invariant
            vi <= def.variants@.len(),
            def.wf(syms@),
            variants_scan(*def, syms@, rule, vi as int) == Ok::<EnumScan, Seq<Diag>>(EnumScan { variants: vs@, fields: fields_view(fs@), errs: errs@ }),
            forall|i: int| 0 <= i < fs@.len() ==> (#[trigger] fs@[i]).singular_ok(syms@),
        decreases def.variants.len() - vi,
    {
        let ghost st = EnumScan { variants: vs@, fields: fields_view(fs@), errs: errs@ };
        match read_variant(def, syms, rule, vi, &mut vs, &mut fs, &mut errs) {
            Err(es) => {
                proof {
                    lemma_variants_scan_err(*def, syms@, rule, vi + 1, def.variants@.len() as int);
                }
                return Err(es);
            },
            Ok(_) => {},
        }
        vi = vi + 1;
    }
    Ok((vs, fs, errs))
}

/// Whether the variants mix integer and string discriminants.
fn mixed_discriminants(vs: &Vec<Variant>) -> (r: bool)
    ensures
        r == mixed_kinds(vs@),
{
    let mut any_int = false;
    let mut any_str = false;
    let mut i: usize = 0;
    while i < vs.len()
        invariant
            i <= vs@.len(),
            any_int == exists|j: int| 0 <= j < i && (#[trigger] vs@[j]).discriminant is Integer,
            any_str == exists|j: int| 0 <= j < i && (#[trigger] vs@[j]).discriminant is String,
        decreases vs.len() - i,
    {
        if vs[i].discriminant.is_integer() {
            any_int = true;
        }
        if vs[i].discriminant.is_string() {
            any_str = true;
        }
        i = i + 1;
    }
    any_int && any_str
}

/// An error for each variant that repeats an earlier discriminant.
fn duplicate_discriminants(syms: &Vec<String>, vs: &Vec<Variant>) -> (r: Vec<Diag>)
    ensures
        r@ == duplicate_errors(syms@, vs@, vs@.len() as int),
{
    let mut errs: Vec<Diag> = Vec::new();
    let mut i: usize = 0;
    while i < vs.len()
        invariant
            i <= vs@.len(),
            errs@ == duplicate_errors(syms@, vs@, i as int),
        decreases vs.len() - i,
    {
        let mut j: usize = 0;
        let mut found: Option<usize> = None;
        while j < i && found.is_none()
            invariant
                i < vs@.len(),
                j <= i,
                found is None ==> first_same(syms@, vs@, i as int, 0) == first_same(syms@, vs@, i as int, j as int),
                found matches Some(x) ==> first_same(syms@, vs@, i as int, 0) == Some(x as int) && x < i,
            decreases i - j,
        {
            if vs[i].discriminant.same_as(&vs[j].discriminant, syms) {
                found = Some(j);
            }
            j = j + 1;
        }
        match found {
            Some(x) => {
                errs.push(Diag { span: vs[i].ident_span, kind: ErrorKind::DuplicateDiscriminant { value: vs[i].discriminant, prev: vs[x].ident } });
            },
            None => {},
        }
        i = i + 1;
    }
    errs
}

/// The number of bytes of the UTF-8 encoding of a character.
fn char_width(c: char) -> (r: u128)
    ensures
        r == utf8_width(c),
{
    let v = c as u32;
    if v < 0x80 {
        1
    } else if v < 0x800 {
        2
    } else if v < 0x10000 {
        3
    } else {
        4
    }
}

/// The number of bytes of the UTF-8 encoding of `s`.
pub fn utf8_length(s: &str) -> (r: u128)
    ensures
        r == utf8_len(s@),
{
    let cs = chars_of(s);
    let mut total: u128 = 0;
    let mut i: usize = 0;
    while i < cs.len()
        invariant
            i <= cs@.len(),
            cs@ == s@,
            total == utf8_len(cs@.subrange(0, i as int)),
            total <= 4 * i,
        decreases cs.len() - i,
    {
        let w = char_width(cs[i]);
        proof {
            let p = cs@.subrange(0, i + 1);
            assert(p.drop_last() =~= cs@.subrange(0, i as int));
            assert(p.last() == cs@[i as int]);
        }
        total = total + w;
        i = i + 1;
    }
    assert(cs@.subrange(0, i as int) =~= s@);
    total
}

/// An error for each string label longer than 63 bytes.
fn long_labels(syms: &Vec<String>, vs: &Vec<Variant>) -> (r: Vec<Diag>)
    ensures
        r@ == label_errors(syms@, vs@, vs@.len() as int),
{
    let mut errs: Vec<Diag> = Vec::new();
    let mut i: usize = 0;
    while i < vs.len()
        invariant
            i <= vs@.len(),
            errs@ == label_errors(syms@, vs@, i as int),
        decreases vs.len() - i,
    {
        match vs[i].discriminant {
            VariantValue::String(l) => {
                let t = label_string(syms, l);
                let n = utf8_length(t.as_str());
                if n > 63 {
                    errs.push(Diag { span: vs[i].ident_span, kind: ErrorKind::LabelTooLong { variant: vs[i].ident, len: n as usize } });
                }
            },
            _ => {},
        }
        i = i + 1;
    }
    errs
}

/// `256^n` for `n < 8`.
fn pow256_exec(n: u8) -> (r: i128)
    requires
        n < 8,
    ensures
        r == pow256(n as nat),
        0 < r <= 0x100_0000_0000_0000,
{
    let mut r: i128 = 1;
    let mut k: u8 = 0;
    while k < n
        invariant
            k <= n < 8,
            r == pow256(k as nat),
        decreases n - k,
    {
        proof {
            lemma_pow256_below((k + 1) as nat);
            assert(pow256((k + 1) as nat) == 256 * pow256(k as nat));
            assert(r * 256 <= 0x100_0000_0000_0000int);
            lemma_pow256_pos(k as nat);
        }
        r = r * 256;
        k = k + 1;
    }
    proof {
        lemma_pow256_below(n as nat);
        lemma_pow256_pos(n as nat);
    }
    r
}

proof fn lemma_pow256_below(n: nat)
    requires
        n <= 7,
    ensures
        pow256(n) <= 0x100_0000_0000_0000,
{
    lemma_pow256_split(n, (7 - n) as nat);
    lemma_pow256_pos(n);
    lemma_pow256_pos((7 - n) as nat);
    assert(pow256(7) == 0x100_0000_0000_0000int) by {
        reveal_with_fuel(pow256, 8);
    }
    let x = pow256(n);
    let y = pow256((7 - n) as nat);
    assert(x * y == 0x100_0000_0000_0000int);
    assert(x <= 0x100_0000_0000_0000int) by (nonlinear_arith)
        requires
            x > 0,
            y > 0,
            x * y == 0x100_0000_0000_0000int,
    ;
}

proof fn lemma_pow256_pos(n: nat)
    ensures
        pow256(n) > 0,
    decreases n,
{
    if n > 0 {
        lemma_pow256_pos((n - 1) as nat);
    }
}

proof fn lemma_pow256_split(a: nat, b: nat)
    ensures
        pow256(a + b) == pow256(a) * pow256(b),
    decreases a,
{
    if a > 0 {
        lemma_pow256_split((a - 1) as nat, b);
        let x = pow256((a - 1) as nat);
        let y = pow256(b);
        assert(pow256(a + b) == 256 * pow256((a - 1 + b) as nat));
        assert(pow256(a) == 256 * x);
        assert((256 * x) * y == 256 * (x * y)) by (nonlinear_arith);
    }
}

/// The first variant whose integer discriminant the storage type does not
/// hold.
fn misfit(vs: &Vec<Variant>, signed: bool, bytes: u8) -> (r: Option<(usize, i64)>)
    ensures
        r matches Some((i, x)) ==> first_misfit(vs@, signed, bytes as int, vs@.len() as int) == Some(i as int) && i < vs@.len() && vs@[i as int].discriminant == VariantValue::Integer(x),
        r is None ==> first_misfit(vs@, signed, bytes as int, vs@.len() as int) is None,
{
    let lim: i128 = if bytes < 8 { pow256_exec(bytes) } else { 0 };
    let mut i: usize = 0;
    while i < vs.len()
        invariant
            i <= vs@.len(),
            bytes < 8 ==> lim == pow256(bytes as nat) && 0 < lim <= 0x100_0000_0000_0000,
            first_misfit(vs@, signed, bytes as int, i as int) is None,
        decreases vs.len() - i,
    {
        match vs[i].discriminant {
            VariantValue::Integer(x0) => {
                let x = x0 as i128;
                let fits = if bytes >= 8 {
                    signed || x >= 0
                } else if signed {
                    -(lim / 2) <= x && x < lim / 2
                } else {
                    0 <= x && x < lim
                };
                if !fits {
                    proof {
                        lemma_first_misfit_from(vs@, signed, bytes as int, i + 1, vs@.len() as int);
                    }
                    return Some((i, x0));
                }
            },
            _ => {},
        }
        i = i + 1;
    }
    None
}

proof fn lemma_first_misfit_from(vs: Seq<Variant>, signed: bool, bytes: int, m: int, n: int)
    requires
        m <= n,
        first_misfit(vs, signed, bytes, m) is Some,
    ensures
        first_misfit(vs, signed, bytes, n) == first_misfit(vs, signed, bytes, m),
    decreases n - m,
{
    if m < n {
        lemma_first_misfit_from(vs, signed, bytes, m, n - 1);
    }
}

/// How the discriminant column is stored (see `storage_spec`).
fn storage(def: &EnumDef, vs: &Vec<Variant>, ty: Option<ColumnType>, rule: Option<RenameRule>) -> (r: Result<Option<EnumStorageStrategy>, Diag>)
    ensures
        r == storage_spec(*def, vs@, ty, rule),
{
    let uses_strings = vs.len() > 0 && vs[0].discriminant.is_string();
    if uses_strings {
        match ty {
            None => Ok(Some(EnumStorageStrategy::NativeEnum(None))),
            Some(t) => {
                if t.is_string_like() {
                    Ok(Some(EnumStorageStrategy::PlainString(t)))
                } else {
                    match t {
                        ColumnType::Enum(name) => Ok(Some(EnumStorageStrategy::NativeEnum(name))),
                        _ => Err(Diag { span: def.span, kind: ErrorKind::UnsupportedEnumColumnType }),
                    }
                }
            },
        }
    } else if rule.is_some() {
        Err(Diag { span: def.span, kind: ErrorKind::RenameAllOnIntegerEnum })
    } else {
        match ty {
            None => Ok(None),
            Some(t) => {
                let (signed, bytes) = match t {
                    ColumnType::Integer(b) => (true, b),
                    ColumnType::UnsignedInteger(b) => (false, b),
                    _ => return Err(Diag { span: def.span, kind: ErrorKind::IntegerEnumColumnType }),
                };
                match misfit(vs, signed, bytes) {
                    Some((i, value)) => Err(Diag { span: vs[i].ident_span, kind: ErrorKind::DiscriminantOutOfRange { value } }),
                    None => Ok(Some(EnumStorageStrategy::Integer(t))),
                }
            },
        }
    }
}

/// A model built from an enum points only at its own fields.
pub proof fn lemma_enum_model_wf(def: EnumDef, syms: Seq<String>)
    ensures
        enum_model_spec(def, syms) matches Ok(m) ==> m.wf(),
{
    match enum_model_spec(def, syms) {
        Ok(m) => {
            lemma_field_indices_below(m.fields, m.fields.len() as int);
        },
        Err(_) => {},
    }
}

impl Model {
    /// Builds the model of an enum deriving `Embed`.
    pub fn from_enum_ast(def: &EnumDef, syms: &Vec<String>) -> (r: Result<Model, Vec<Diag>>)
        requires
            def.wf(syms@),
        ensures
            r matches Ok(m) ==> {
                &&& enum_model_spec(*def, syms@) == Ok::<ModelV, Seq<Diag>>(m.view())
                &&& m.wf()
                &&& m.name.derived_from(sym_text(syms@, def.ident as int))
                &&& forall|i: int| 0 <= i < m.fields@.len() ==> (#[trigger] m.fields@[i]).singular_ok(syms@)
            },
            r matches Err(es) ==> enum_model_spec(*def, syms@) == Err::<ModelV, Seq<Diag>>(es@),
    {
        proof {
            lemma_enum_model_wf(*def, syms@);
        }
        match def.generics {
            Some(sp) => {
                let mut v: Vec<Diag> = Vec::new();
                v.push(Diag { span: sp, kind: ErrorKind::EnumGenerics });
                assert(v@ =~= seq![Diag::at(sp, ErrorKind::EnumGenerics)]);
                return Err(v);
            },
            None => {},
        }
        let (ty, rule) = match enum_columns(&def.attrs, syms) {
            Err(e) => {
                let mut v: Vec<Diag> = Vec::new();
                v.push(e);
                assert(v@ =~= seq![e]);
                return Err(v);
            },
            Ok(p) => p,
        };
        let r0 = match rule {
            Some(x) => x,
            None => RenameRule::Snake,
        };
        let (vs, fields, mut errs) = match scan_variants(def, syms, r0) {
            Err(es) => return Err(es),
            Ok(t) => t,
        };
        if mixed_discriminants(&vs) {
            errs.push(Diag { span: def.span, kind: ErrorKind::MixedDiscriminants });
        }
        let mut dups = duplicate_discriminants(syms, &vs);
        errs.append(&mut dups);
        let mut longs = long_labels(syms, &vs);
        errs.append(&mut longs);
        if errs.len() > 0 {
            return Err(errs);
        }
        let storage_strategy = match storage(def, &vs, ty, rule) {
            Err(e) => {
                let mut v: Vec<Diag> = Vec::new();
                v.push(e);
                assert(v@ =~= seq![e]);
                return Err(v);
            },
            Ok(st) => st,
        };
        let mut indices: Vec<Index> = Vec::new();
        collect_field_indices(&fields, &mut indices);
        assert(indices_view(indices@) =~= field_indices(fields_view(fields@), fields@.len() as int));
        let base = sym_string(syms, def.ident);
        let name = Name::from_str(base.as_str());
        let kind = ModelKind::EmbeddedEnum(ModelEmbeddedEnum { variants: vs, storage_strategy });
        Ok(Model { name, ident: def.ident, ident_span: def.ident_span, fields, kind, indices, table: None })
    }
}

proof fn lemma_first_same_none(syms: Seq<String>, vs: Seq<Variant>, i: int, j: int)
    requires
        0 <= j,
        first_same(syms, vs, i, j) is None,
    ensures
        forall|t: int| j <= t < i ==> !same_value(syms, vs[i].discriminant, #[trigger] vs[t].discriminant),
    decreases i - j,
{
    if j < i {
        lemma_first_same_none(syms, vs, i, j + 1);
    }
}

proof fn lemma_no_duplicate_errors(syms: Seq<String>, vs: Seq<Variant>, n: int)
    requires
        duplicate_errors(syms, vs, n).len() == 0,
    ensures
        forall|i: int| 0 <= i < n ==> first_same(syms, vs, i, 0) is None,
    decreases n,
{
    if n > 0 {
        lemma_no_duplicate_errors(syms, vs, n - 1);
    }
}

proof fn lemma_no_label_errors(syms: Seq<String>, vs: Seq<Variant>, n: int)
    requires
        label_errors(syms, vs, n).len() == 0,
    ensures
        forall|i: int| 0 <= i < n ==> ((#[trigger] vs[i]).discriminant matches VariantValue::String(l) ==> utf8_len(label_text(syms, l)) <= 63),
    decreases n,
{
    if n > 0 {
        lemma_no_label_errors(syms, vs, n - 1);
    }
}

/// An enum that `Embed` accepts uses one kind of discriminant (all
/// integers or all strings), no two variants share a discriminant, and
/// every string label is at most 63 bytes long.
pub proof fn lemma_enum_discriminants(def: EnumDef, syms: Seq<String>)
    ensures
        enum_model_spec(def, syms) matches Ok(m) ==> {
            &&& m.kind is EmbeddedEnum
            &&& !mixed_kinds(m.kind->EmbeddedEnum_0.variants)
            &&& forall|i: int, j: int| 0 <= j < i < m.kind->EmbeddedEnum_0.variants.len() ==> !same_value(syms, (#[trigger] m.kind->EmbeddedEnum_0.variants[i]).discriminant, (#[trigger] m.kind->EmbeddedEnum_0.variants[j]).discriminant)
            &&& forall|i: int| 0 <= i < m.kind->EmbeddedEnum_0.variants.len() ==> ((#[trigger] m.kind->EmbeddedEnum_0.variants[i]).discriminant matches VariantValue::String(l) ==> utf8_len(label_text(syms, l)) <= 63)
        },
{
    if def.generics is None {
        match enum_column_fold(def.attrs@, syms, 0, None, None) {
            Ok((ty, rule)) => match variants_scan(def, syms, rule.unwrap_or(RenameRule::Snake), def.variants@.len() as int) {
                Ok(st) => {
                    let vs = st.variants;
                    let e1 = if mixed_kinds(vs) { st.errs.push(Diag::at(def.span, ErrorKind::MixedDiscriminants)) } else { st.errs };
                    let d = duplicate_errors(syms, vs, vs.len() as int);
                    let l = label_errors(syms, vs, vs.len() as int);
                    if (e1 + d + l).len() == 0 {
                        assert(e1.len() == 0 && d.len() == 0 && l.len() == 0);
                        lemma_no_duplicate_errors(syms, vs, vs.len() as int);
                        lemma_no_label_errors(syms, vs, vs.len() as int);
                        assert forall|i: int, j: int| 0 <= j < i < vs.len() implies !same_value(syms, (#[trigger] vs[i]).discriminant, (#[trigger] vs[j]).discriminant) by {
                            lemma_first_same_none(syms, vs, i, 0);
                        }
                    }
                },
                Err(_) => {},
            },
            Err(_) => {},
        }
    }
}

} // verus!
