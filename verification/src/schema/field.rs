//! Model fields: their attributes, relation kind and type.
use vstd::prelude::*;

use super::attr::{attr_is, attr_is_exec, Attr, MetaKind};
use super::auto::{auto_from_attr_spec, AutoStrategy};
use super::column::{column_from_attr_spec, Column};
use super::name::Name;
use super::relation::{
    belongs_to_spec, item_parent_from_ast, item_parent_spec, parse_has_relation_attrs,
    relation_attrs_spec, BelongsTo, ForeignKeyField, PairVia, RelationAttrs,
};
use super::types::{deferred_inner, deferred_inner_spec, rewrite_self, rewrite_self_spec};
use crate::case::{pluralizable, pluralize, singular_of};
use crate::diag::{Diag, ErrorKind, Want};
use crate::text::{concat, int_text, nat_to_string, str_eq};
use crate::tokens::{is_punct, is_punct_exec, sym_string, sym_text, tree_end, tree_end_exec, Tok};

verus! {

/// How the fields of a struct or variant are written.
#[derive(Clone, Copy, PartialEq, Eq, Debug, Structural)]
pub enum FieldsKind {
    /// `{ a: T, .. }`
    Named,
    /// `(T, ..)`
    Unnamed,
    /// No fields.
    Unit,
}

/// The field list agrees with its kind: named fields have identifiers,
/// tuple fields have none, and a unit struct or variant has no fields.
pub open spec fn fields_agree(kind: FieldsKind, fields: Seq<FieldDef>) -> bool {
    &&& kind == FieldsKind::Unit ==> fields.len() == 0
    &&& forall|i: int| 0 <= i < fields.len() ==> (#[trigger] fields[i].ident is Some <==> kind == FieldsKind::Named)
}

/// The identifiers of named fields, in order (none for tuple fields).
pub open spec fn field_idents(kind: FieldsKind, fields: Seq<FieldDef>) -> Seq<usize> {
    if kind == FieldsKind::Named {
        fields.map_values(|f: FieldDef| f.ident.unwrap_or(0))
    } else {
        Seq::empty()
    }
}

/// The identifiers of named fields, in order.
pub fn collect_idents(kind: FieldsKind, fields: &Vec<FieldDef>) -> (r: Vec<usize>)
    requires
        fields_agree(kind, fields@),
    ensures
        r@ == field_idents(kind, fields@),
{
    let mut r: Vec<usize> = Vec::new();
    if kind == FieldsKind::Named {
        let mut k: usize = 0;
        while k < fields.len()
            invariant
                k <= fields@.len(),
                r@ == fields@.subrange(0, k as int).map_values(|f: FieldDef| f.ident.unwrap_or(0)),
            decreases fields.len() - k,
        {
            let id = match fields[k].ident {
                Some(s) => s,
                None => 0,
            };
            r.push(id);
            k = k + 1;
            assert(r@ =~= fields@.subrange(0, k as int).map_values(|f: FieldDef| f.ident.unwrap_or(0)));
        }
        assert(fields@.subrange(0, k as int) =~= fields@);
    } else {
        assert(r@ =~= field_idents(kind, fields@));
    }
    r
}

/// Only a newtype may have unnamed fields: a tuple with more than one field
/// is refused, at the span of the field list.
pub open spec fn ast_fields_check(kind: FieldsKind, n: int, span: usize) -> Result<(), Diag> {
    if kind == FieldsKind::Unnamed && n > 1 {
        Err(Diag::at(span, ErrorKind::TupleStructUnsupported))
    } else {
        Ok(())
    }
}

/// Checks the shape of a field list (see `ast_fields_check`).
pub fn collect_ast_fields(kind: FieldsKind, fields: &Vec<FieldDef>, span: usize) -> (r: Result<(), Diag>)
    ensures
        r == ast_fields_check(kind, fields@.len() as int, span),
{
    if kind == FieldsKind::Unnamed && fields.len() > 1 {
        Err(Diag { span, kind: ErrorKind::TupleStructUnsupported })
    } else {
        Ok(())
    }
}

/// A field as written in the source.
#[derive(Clone, Debug)]
pub struct FieldDef {
    pub attrs: Vec<Attr>,
    /// The field's name (`None` for a tuple field).
    pub ident: Option<usize>,
    /// Span of the identifier; for a tuple field, that of its type.
    pub ident_span: usize,
    /// The field's type.
    pub ty: Vec<Tok>,
    pub ty_span: usize,
    /// Span of the whole field.
    pub span: usize,
}

/// Where an expression for `#[default]` / `#[update]` comes from.
#[derive(Clone, Copy, PartialEq, Eq, Debug, Structural)]
pub enum ExprSrc {
    /// The arguments of the field's attribute at this position.
    Arg(usize),
    /// `jiff::Timestamp::now()`, put in for `#[auto]` on `created_at` and
    /// `updated_at`.
    Now,
}

/// The field-level settings.
#[derive(Clone, Copy, PartialEq, Eq, Debug, Structural)]
pub struct FieldAttr {
    /// Span of `#[key]`, when present.
    pub key: Option<usize>,
    pub unique: bool,
    pub auto: Option<AutoStrategy>,
    pub index: bool,
    pub column: Option<Column>,
    pub default_expr: Option<ExprSrc>,
    pub update_expr: Option<ExprSrc>,
    pub versionable: bool,
}

impl FieldAttr {
    pub open spec fn indexed(self) -> bool {
        self.unique || self.index
    }

    pub fn is_indexed(&self) -> (r: bool)
        ensures
            r == self.indexed(),
    {
        self.unique || self.index
    }
}

pub open spec fn field_attr0() -> FieldAttr {
    FieldAttr { key: None, unique: false, auto: None, index: false, column: None, default_expr: None, update_expr: None, versionable: false }
}

/// The first comma at the top level of `toks[i..n]`, if any.
pub open spec fn arg_comma(toks: Seq<Tok>, i: int, n: int) -> Option<int>
    decreases n - i,
{
    if i < 0 || i >= n {
        None
    } else if is_punct(toks, i, n, ',') {
        Some(i)
    } else {
        match tree_end(toks, i, n) {
            Some(e) => if e > i { arg_comma(toks, e, n) } else { None },
            None => None,
        }
    }
}

/// `#[default(expr)]` / `#[update(expr)]` need an argument list of one
/// item, taken as the expression: non-empty, and without a comma at its top
/// level (the token after the expression is then unexpected).
pub open spec fn expr_args_spec(a: Attr, k: int) -> Result<ExprSrc, Diag> {
    match a.kind {
        MetaKind::Path => Err(Diag::at(a.span, ErrorKind::ArgsRequired { name: a.name.unwrap_or(0) })),
        MetaKind::NameValue => Err(Diag::at(a.span, ErrorKind::ParensRequired { name: a.name.unwrap_or(0) })),
        MetaKind::List => if a.args@.len() == 0 {
            Err(Diag::at(a.close_span, ErrorKind::Expected { want: Want::Expression, eof: true }))
        } else {
            match arg_comma(a.args@, 0, a.args@.len() as int) {
                Some(j) => Err(Diag::at(a.args@[j].span_of(), ErrorKind::Unexpected { delim: None })),
                None => Ok(ExprSrc::Arg(k as usize)),
            }
        },
    }
}

fn arg_comma_exec(toks: &Vec<Tok>) -> (r: Option<usize>)
    ensures
        r matches Some(j) ==> arg_comma(toks@, 0, toks@.len() as int) == Some(j as int) && j < toks@.len(),
        r is None ==> arg_comma(toks@, 0, toks@.len() as int) is None,
{
    let n = toks.len();
    let mut i: usize = 0;
    while i < n
        invariant
            n == toks@.len(),
            i <= n,
            arg_comma(toks@, 0, n as int) == arg_comma(toks@, i as int, n as int),
        decreases n - i,
    {
        if is_punct_exec(toks, i, n, ',') {
            return Some(i);
        }
        match tree_end_exec(toks, i, n) {
            Some(e) => {
                i = e;
            },
            None => {
                return None;
            },
        }
    }
    None
}

/// One field attribute read into `acc`, errors added to `errs`.
pub open spec fn field_attr_step(a: Attr, k: int, syms: Seq<String>, acc: FieldAttr, errs: Seq<Diag>) -> (FieldAttr, Seq<Diag>) {
    if attr_is(a, syms, "key"@) {
        if acc.key is Some {
            (acc, errs.push(Diag::at(a.span, ErrorKind::DuplicateFieldKey)))
        } else {
            (FieldAttr { key: Some(a.span), ..acc }, errs)
        }
    } else if attr_is(a, syms, "auto"@) {
        if acc.auto is Some {
            (acc, errs.push(Diag::at(a.span, ErrorKind::DuplicateAuto)))
        } else {
            match auto_from_attr_spec(a, syms) {
                Ok(s) => (FieldAttr { auto: Some(s), ..acc }, errs),
                Err(e) => (acc, errs.push(e)),
            }
        }
    } else if attr_is(a, syms, "unique"@) {
        if acc.unique {
            (acc, errs.push(Diag::at(a.span, ErrorKind::DuplicateUnique)))
        } else {
            (FieldAttr { unique: true, ..acc }, errs)
        }
    } else if attr_is(a, syms, "index"@) {
        if a.kind != MetaKind::Path {
            (acc, errs.push(Diag::at(a.span, ErrorKind::IndexTakesNoArgs)))
        } else if acc.index {
            (acc, errs.push(Diag::at(a.span, ErrorKind::DuplicateIndex)))
        } else {
            (FieldAttr { index: true, ..acc }, errs)
        }
    } else if attr_is(a, syms, "column"@) {
        if acc.column is Some {
            (acc, errs.push(Diag::at(a.span, ErrorKind::DuplicateColumn)))
        } else {
            match column_from_attr_spec(a, syms) {
                Ok(c) => (FieldAttr { column: Some(c), ..acc }, errs),
                Err(e) => (acc, errs.push(e)),
            }
        }
    } else if attr_is(a, syms, "default"@) {
        if acc.default_expr is Some {
            (acc, errs.push(Diag::at(a.span, ErrorKind::DuplicateDefault)))
        } else {
            match expr_args_spec(a, k) {
                Ok(x) => (FieldAttr { default_expr: Some(x), ..acc }, errs),
                Err(e) => (acc, errs.push(e)),
            }
        }
    } else if attr_is(a, syms, "update"@) {
        if acc.update_expr is Some {
            (acc, errs.push(Diag::at(a.span, ErrorKind::DuplicateUpdate)))
        } else {
            match expr_args_spec(a, k) {
                Ok(x) => (FieldAttr { update_expr: Some(x), ..acc }, errs),
                Err(e) => (acc, errs.push(e)),
            }
        }
    } else if attr_is(a, syms, "version"@) {
        if acc.versionable {
            (acc, errs.push(Diag::at(a.span, ErrorKind::DuplicateVersion)))
        } else {
            (FieldAttr { versionable: true, ..acc }, errs)
        }
    } else if attr_is(a, syms, "serialize"@) {
        (acc, errs.push(Diag::at(a.span, ErrorKind::SerializeRemoved)))
    } else {
        (acc, errs)
    }
}

pub open spec fn field_attr_fold(attrs: Seq<Attr>, syms: Seq<String>, k: int, acc: FieldAttr, errs: Seq<Diag>) -> (FieldAttr, Seq<Diag>)
    decreases attrs.len() - k,
{
    if k >= attrs.len() || k < 0 {
        (acc, errs)
    } else {
        let (acc2, errs2) = field_attr_step(attrs[k], k, syms, acc, errs);
        field_attr_fold(attrs, syms, k + 1, acc2, errs2)
    }
}

/// The settings of a field's attributes, or every error met reading them.
pub open spec fn field_attrs_spec(attrs: Seq<Attr>, syms: Seq<String>) -> Result<FieldAttr, Seq<Diag>> {
    let (acc, errs) = field_attr_fold(attrs, syms, 0, field_attr0(), Seq::empty());
    if errs.len() > 0 {
        Err(errs)
    } else {
        Ok(acc)
    }
}

fn expr_args(a: &Attr, k: usize) -> (r: Result<ExprSrc, Diag>)
    ensures
        r == expr_args_spec(*a, k as int),
{
    let name = match a.name {
        Some(s) => s,
        None => 0,
    };
    match a.kind {
        MetaKind::Path => Err(Diag { span: a.span, kind: ErrorKind::ArgsRequired { name } }),
        MetaKind::NameValue => Err(Diag { span: a.span, kind: ErrorKind::ParensRequired { name } }),
        MetaKind::List => {
            if a.args.len() == 0 {
                Err(Diag { span: a.close_span, kind: ErrorKind::Expected { want: Want::Expression, eof: true } })
            } else {
                match arg_comma_exec(&a.args) {
                    Some(j) => Err(Diag { span: a.args[j].span(), kind: ErrorKind::Unexpected { delim: None } }),
                    None => Ok(ExprSrc::Arg(k)),
                }
            }
        },
    }
}

impl FieldAttr {
    /// Reads the field-level attributes; attributes it does not know are
    /// skipped.
    pub fn from_attrs(attrs: &Vec<Attr>, syms: &Vec<String>) -> (r: Result<FieldAttr, Vec<Diag>>)
        ensures
            r matches Ok(f) ==> field_attrs_spec(attrs@, syms@) == Ok::<FieldAttr, Seq<Diag>>(f),
            r matches Err(es) ==> field_attrs_spec(attrs@, syms@) == Err::<FieldAttr, Seq<Diag>>(es@),
    {
        let mut acc = FieldAttr { key: None, unique: false, auto: None, index: false, column: None, default_expr: None, update_expr: None, versionable: false };
        let mut errs: Vec<Diag> = Vec::new();
        let mut k: usize = 0;
        while k < attrs.len()
            invariant
                k <= attrs@.len(),
                field_attr_fold(attrs@, syms@, 0, field_attr0(), Seq::empty()) == field_attr_fold(attrs@, syms@, k as int, acc, errs@),
            decreases attrs.len() - k,
        {
            let a = &attrs[k];
            if attr_is_exec(a, syms, "key") {
                if acc.key.is_some() {
                    errs.push(Diag { span: a.span, kind: ErrorKind::DuplicateFieldKey });
                } else {
                    acc.key = Some(a.span);
                }
            } else if attr_is_exec(a, syms, "auto") {
                if acc.auto.is_some() {
                    errs.push(Diag { span: a.span, kind: ErrorKind::DuplicateAuto });
                } else {
                    match AutoStrategy::from_ast(a, syms) {
                        Ok(s) => {
                            acc.auto = Some(s);
                        },
                        Err(e) => errs.push(e),
                    }
                }
            } else if attr_is_exec(a, syms, "unique") {
                if acc.unique {
                    errs.push(Diag { span: a.span, kind: ErrorKind::DuplicateUnique });
                } else {
                    acc.unique = true;
                }
            } else if attr_is_exec(a, syms, "index") {
                if a.kind != MetaKind::Path {
                    errs.push(Diag { span: a.span, kind: ErrorKind::IndexTakesNoArgs });
                } else if acc.index {
                    errs.push(Diag { span: a.span, kind: ErrorKind::DuplicateIndex });
                } else {
                    acc.index = true;
                }
            } else if attr_is_exec(a, syms, "column") {
                if acc.column.is_some() {
                    errs.push(Diag { span: a.span, kind: ErrorKind::DuplicateColumn });
                } else {
                    match Column::from_ast(a, syms) {
                        Ok(c) => {
                            acc.column = Some(c);
                        },
                        Err(e) => errs.push(e),
                    }
                }
            } else if attr_is_exec(a, syms, "default") {
                if acc.default_expr.is_some() {
                    errs.push(Diag { span: a.span, kind: ErrorKind::DuplicateDefault });
                } else {
                    match expr_args(a, k) {
                        Ok(x) => {
                            acc.default_expr = Some(x);
                        },
                        Err(e) => errs.push(e),
                    }
                }
            } else if attr_is_exec(a, syms, "update") {
                if acc.update_expr.is_some() {
                    errs.push(Diag { span: a.span, kind: ErrorKind::DuplicateUpdate });
                } else {
                    match expr_args(a, k) {
                        Ok(x) => {
                            acc.update_expr = Some(x);
                        },
                        Err(e) => errs.push(e),
                    }
                }
            } else if attr_is_exec(a, syms, "version") {
                if acc.versionable {
                    errs.push(Diag { span: a.span, kind: ErrorKind::DuplicateVersion });
                } else {
                    acc.versionable = true;
                }
            } else if attr_is_exec(a, syms, "serialize") {
                errs.push(Diag { span: a.span, kind: ErrorKind::SerializeRemoved });
            }
            k = k + 1;
        }
        if errs.len() > 0 {
            Err(errs)
        } else {
            Ok(acc)
        }
    }
}

/// Where a field's name comes from: its identifier, or its position for a
/// tuple field (named `_<index>`).
#[derive(Clone, Copy, PartialEq, Eq, Debug, Structural)]
pub enum FieldName {
    Ident(usize),
    Index(usize),
}

/// The source text of a field's name.
pub open spec fn field_name_src(syms: Seq<String>, n: FieldName) -> Seq<char> {
    match n {
        FieldName::Ident(s) => sym_text(syms, s as int),
        FieldName::Index(i) => "_"@ + int_text(i as int),
    }
}

/// The source text of a field's name, as a new string.
pub fn field_name_string(syms: &Vec<String>, n: FieldName) -> (r: String)
    ensures
        r@ == field_name_src(syms@, n),
{
    match n {
        FieldName::Ident(s) => sym_string(syms, s),
        FieldName::Index(i) => {
            let d = nat_to_string(i as u64);
            concat("_", d.as_str())
        },
    }
}

/// The snake-case name of a field.
pub fn field_name(syms: &Vec<String>, n: FieldName) -> (r: Name)
    ensures
        r.derived_from(field_name_src(syms@, n)),
{
    let s = field_name_string(syms, n);
    Name::from_str(s.as_str())
}

/// A `#[has_many]` relation: the singular form of the field name (used for
/// the insert helper) and its `pair` / `via` settings.
#[derive(Clone, Debug)]
pub struct HasMany {
    pub singular: Name,
    pub rel: RelationAttrs,
}

/// What kind of field: a plain value or one of the relations.
#[derive(Clone, Debug)]
pub enum FieldTy {
    Primitive,
    BelongsTo(BelongsTo),
    HasMany(HasMany),
    HasOne(RelationAttrs),
}

/// `FieldTy` as a mathematical value.
pub enum FieldTyV {
    Primitive,
    BelongsTo(Seq<ForeignKeyField>),
    HasMany(PairVia),
    HasOne(PairVia),
}

impl FieldTy {
    pub open spec fn view(&self) -> FieldTyV {
        match self {
            FieldTy::Primitive => FieldTyV::Primitive,
            FieldTy::BelongsTo(b) => FieldTyV::BelongsTo(b.foreign_key@),
            FieldTy::HasMany(h) => FieldTyV::HasMany(h.rel.view()),
            FieldTy::HasOne(r) => FieldTyV::HasOne(r.view()),
        }
    }
}

/// A validated field.
#[derive(Clone, Debug)]
pub struct Field {
    /// Index of the field in the containing model.
    pub id: usize,
    pub attrs: FieldAttr,
    pub name: FieldName,
    pub ty: FieldTy,
    /// The field's type, `Self` replaced by the model's name.
    pub ty_toks: Vec<Tok>,
    /// The index of the enum variant the field belongs to, if any.
    pub variant: Option<usize>,
    /// Span of `#[item_parent]`, when present.
    pub item_parent: Option<usize>,
    /// The range of `T` in the `Deferred<T>` type of an `#[item_parent]`
    /// field.
    pub item_parent_target: Option<(usize, usize)>,
}

pub struct FieldV {
    pub id: usize,
    pub attrs: FieldAttr,
    pub name: FieldName,
    pub ty: FieldTyV,
    pub ty_toks: Seq<Tok>,
    pub variant: Option<usize>,
    pub item_parent: Option<usize>,
    pub item_parent_target: Option<(int, int)>,
}

impl Field {
    pub open spec fn view(&self) -> FieldV {
        FieldV {
            id: self.id,
            attrs: self.attrs,
            name: self.name,
            ty: self.ty.view(),
            ty_toks: self.ty_toks@,
            variant: self.variant,
            item_parent: self.item_parent,
            item_parent_target: match self.item_parent_target {
                Some((a, b)) => Some((a as int, b as int)),
                None => None,
            },
        }
    }

    /// A `#[has_many]` field's singular name is that of its field name.
    pub open spec fn singular_ok(&self, syms: Seq<String>) -> bool {
        self.ty matches FieldTy::HasMany(h) ==> h.singular.derived_from(singular_of(field_name_src(syms, self.name)))
    }
}

/// The relation attributes of a field, read from `attrs[k..]`: the kind of
/// relation, the span of `#[item_parent]`, and the errors collected. A
/// failing relation attribute stops the reading with its error.
pub open spec fn rel_scan(fd: FieldDef, syms: Seq<String>, names: Seq<usize>, k: int, ty: Option<FieldTyV>, ip: Option<usize>, errs: Seq<Diag>) -> Result<(Option<FieldTyV>, Option<usize>, Seq<Diag>), Diag>
    decreases fd.attrs@.len() - k,
{
    if k >= fd.attrs@.len() || k < 0 {
        Ok((ty, ip, errs))
    } else {
        let a = fd.attrs@[k];
        if attr_is(a, syms, "belongs_to"@) {
            if ty is Some {
                rel_scan(fd, syms, names, k + 1, ty, ip, errs.push(Diag::at(a.span, ErrorKind::MultipleRelations)))
            } else {
                match belongs_to_spec(a, syms, fd.ident.unwrap_or(0), fd.ident_span, names) {
                    Err(e) => Err(e),
                    Ok(fk) => rel_scan(fd, syms, names, k + 1, Some(FieldTyV::BelongsTo(fk)), ip, errs),
                }
            }
        } else if attr_is(a, syms, "has_many"@) {
            if ty is Some {
                rel_scan(fd, syms, names, k + 1, ty, ip, errs.push(Diag::at(a.span, ErrorKind::MultipleRelations)))
            } else {
                match relation_attrs_spec(a, syms) {
                    Err(e) => Err(e),
                    Ok(pv) => rel_scan(fd, syms, names, k + 1, Some(FieldTyV::HasMany(pv)), ip, errs),
                }
            }
        } else if attr_is(a, syms, "has_one"@) {
            if ty is Some {
                rel_scan(fd, syms, names, k + 1, ty, ip, errs.push(Diag::at(a.span, ErrorKind::MultipleRelations)))
            } else {
                match relation_attrs_spec(a, syms) {
                    Err(e) => Err(e),
                    Ok(pv) => rel_scan(fd, syms, names, k + 1, Some(FieldTyV::HasOne(pv)), ip, errs),
                }
            }
        } else if attr_is(a, syms, "item_parent"@) {
            if ip is Some {
                rel_scan(fd, syms, names, k + 1, ty, ip, errs.push(Diag::at(a.span, ErrorKind::DuplicateItemParent)))
            } else {
                match item_parent_spec(a) {
                    Ok(sp) => rel_scan(fd, syms, names, k + 1, ty, Some(sp), errs),
                    Err(e) => rel_scan(fd, syms, names, k + 1, ty, ip, errs.push(e)),
                }
            }
        } else {
            rel_scan(fd, syms, names, k + 1, ty, ip, errs)
        }
    }
}

/// `#[auto]` on `created_at` / `updated_at` becomes a default / update
/// expression `jiff::Timestamp::now()`.
pub open spec fn auto_timestamps(attrs: FieldAttr, fd: FieldDef, syms: Seq<String>) -> FieldAttr {
    if attrs.auto == Some(AutoStrategy::Unspecified) && fd.ident is Some {
        let t = sym_text(syms, fd.ident.unwrap() as int);
        if t == "created_at"@ {
            FieldAttr { auto: None, default_expr: Some(ExprSrc::Now), ..attrs }
        } else if t == "updated_at"@ {
            FieldAttr { auto: None, update_expr: Some(ExprSrc::Now), ..attrs }
        } else {
            attrs
        }
    } else {
        attrs
    }
}

/// The combination errors of a field, in order, after `errs`.
pub open spec fn combination_errors(a: FieldAttr, is_rel: bool, span: usize, errs: Seq<Diag>) -> Seq<Diag> {
    let e1 = if is_rel && a.column is Some { errs.push(Diag::at(span, ErrorKind::RelationWithColumnType)) } else { errs };
    let e2 = if is_rel && a.default_expr is Some { e1.push(Diag::at(span, ErrorKind::DefaultOnRelation)) } else { e1 };
    let e3 = if is_rel && a.update_expr is Some { e2.push(Diag::at(span, ErrorKind::UpdateOnRelation)) } else { e2 };
    let e4 = if a.auto is Some && a.default_expr is Some { e3.push(Diag::at(span, ErrorKind::DefaultWithAuto)) } else { e3 };
    let e5 = if a.auto is Some && a.update_expr is Some { e4.push(Diag::at(span, ErrorKind::UpdateWithAuto)) } else { e4 };
    let e6 = if a.versionable && a.key is Some { e5.push(Diag::at(span, ErrorKind::VersionWithKey)) } else { e5 };
    if a.versionable && a.auto is Some { e6.push(Diag::at(span, ErrorKind::VersionWithAuto)) } else { e6 }
}

/// The field built from its definition: `model` is the model's name (for
/// `Self`), `id` the field's index in the model, `index` its position among
/// its siblings, `names` the sibling field names.
pub open spec fn field_spec(fd: FieldDef, syms: Seq<String>, model: usize, model_span: usize, id: usize, index: usize, names: Seq<usize>) -> Result<FieldV, Seq<Diag>> {
    match field_attrs_spec(fd.attrs@, syms) {
        Err(es) => Err(es),
        Ok(attrs0) => match rel_scan(fd, syms, names, 0, None, None, Seq::empty()) {
            Err(e) => Err(seq![e]),
            Ok((ty, ip, errs1)) => {
                let attrs = auto_timestamps(attrs0, fd, syms);
                let errs2 = combination_errors(attrs, ty is Some, fd.span, errs1);
                let (target, errs3) = match ip {
                    None => (None, errs2),
                    Some(sp) => {
                        let e = if ty is Some { errs2.push(Diag::at(sp, ErrorKind::ItemParentWithRelation)) } else { errs2 };
                        match deferred_inner_spec(fd.ty@, syms, fd.ident, fd.ty_span) {
                            Ok(r) => (Some(r), e),
                            Err(d) => (None, e.push(d)),
                        }
                    },
                };
                if errs3.len() > 0 {
                    Err(errs3)
                } else {
                    Ok(FieldV {
                        id,
                        attrs,
                        name: match fd.ident {
                            Some(s) => FieldName::Ident(s),
                            None => FieldName::Index(index),
                        },
                        ty: match ty {
                            Some(t) => t,
                            None => FieldTyV::Primitive,
                        },
                        ty_toks: rewrite_self_spec(fd.ty@, syms, model, model_span),
                        variant: None,
                        item_parent: ip,
                        item_parent_target: target,
                    })
                }
            },
        },
    }
}

/// Fields with a relation attribute that reads the field's name must be
/// named (tuple fields cannot carry `#[belongs_to]` or `#[has_many]`).
/// A `#[has_many]` field's name must also be one the pluralizer handles
/// (see `pluralizable`), since its singular form is derived from it.
pub open spec fn relations_named(fd: FieldDef, syms: Seq<String>) -> bool {
    &&& (exists|k: int| 0 <= k < fd.attrs@.len() && (attr_is(#[trigger] fd.attrs@[k], syms, "has_many"@) || attr_is(fd.attrs@[k], syms, "belongs_to"@))) ==> fd.ident is Some
    &&& (exists|k: int| 0 <= k < fd.attrs@.len() && attr_is(#[trigger] fd.attrs@[k], syms, "has_many"@)) ==> (fd.ident matches Some(s) && pluralizable(sym_text(syms, s as int)))
}

impl Field {
    /// Builds a field from its definition.
    pub fn from_ast(fd: &FieldDef, syms: &Vec<String>, model: usize, model_span: usize, id: usize, index: usize, names: &Vec<usize>) -> (r: Result<Field, Vec<Diag>>)
        requires
            relations_named(*fd, syms@),
        ensures
            r matches Ok(f) ==> field_spec(*fd, syms@, model, model_span, id, index, names@) == Ok::<FieldV, Seq<Diag>>(f.view()) && f.singular_ok(syms@),
            r matches Err(es) ==> field_spec(*fd, syms@, model, model_span, id, index, names@) == Err::<FieldV, Seq<Diag>>(es@),
    {
        let attrs0 = match FieldAttr::from_attrs(&fd.attrs, syms) {
            Err(es) => return Err(es),
            Ok(a) => a,
        };
        let mut ty: Option<FieldTy> = None;
        let mut ip: Option<usize> = None;
        let mut errs: Vec<Diag> = Vec::new();
        let mut k: usize = 0;
        let fname = match fd.ident {
            Some(s) => FieldName::Ident(s),
            None => FieldName::Index(index),
        };
        while k < fd.attrs.len()
            invariant
                k <= fd.attrs@.len(),
                relations_named(*fd, syms@),
                field_attrs_spec(fd.attrs@, syms@) == Ok::<FieldAttr, Seq<Diag>>(attrs0),
                fname == (match fd.ident { Some(s) => FieldName::Ident(s), None => FieldName::Index(index) }),
                rel_scan(*fd, syms@, names@, 0, None, None, Seq::empty()) == rel_scan(*fd, syms@, names@, k as int, match ty { Some(t) => Some(t.view()), None => None }, ip, errs@),
                ty matches Some(FieldTy::HasMany(h)) ==> h.singular.derived_from(singular_of(field_name_src(syms@, fname))),
            decreases fd.attrs.len() - k,
        {
            let a = &fd.attrs[k];
            if attr_is_exec(a, syms, "belongs_to") {
                if ty.is_some() {
                    errs.push(Diag { span: a.span, kind: ErrorKind::MultipleRelations });
                } else {
                    let field = match fd.ident {
                        Some(s) => s,
                        None => 0,
                    };
                    match BelongsTo::from_ast(a, syms, field, fd.ident_span, names) {
                        Err(e) => {
                            let mut v = Vec::new();
                            v.push(e);
                            proof {
                                assert(v@ =~= seq![e]);
                            }
                            return Err(v);
                        },
                        Ok(b) => {
                            ty = Some(FieldTy::BelongsTo(b));
                        },
                    }
                }
            } else if attr_is_exec(a, syms, "has_many") {
                if ty.is_some() {
                    errs.push(Diag { span: a.span, kind: ErrorKind::MultipleRelations });
                } else {
                    match parse_has_relation_attrs(a, syms) {
                        Err(e) => {
                            let mut v = Vec::new();
                            v.push(e);
                            proof {
                                assert(v@ =~= seq![e]);
                            }
                            return Err(v);
                        },
                        Ok(rel) => {
                            let n = field_name_string(syms, fname);
                            let single = pluralize(n.as_str(), 1, false);
                            assert(single@ =~= singular_of(n@));
                            let singular = Name::from_str(single.as_str());
                            ty = Some(FieldTy::HasMany(HasMany { singular, rel }));
                        },
                    }
                }
            } else if attr_is_exec(a, syms, "has_one") {
                if ty.is_some() {
                    errs.push(Diag { span: a.span, kind: ErrorKind::MultipleRelations });
                } else {
                    match parse_has_relation_attrs(a, syms) {
                        Err(e) => {
                            let mut v = Vec::new();
                            v.push(e);
                            proof {
                                assert(v@ =~= seq![e]);
                            }
                            return Err(v);
                        },
                        Ok(rel) => {
                            ty = Some(FieldTy::HasOne(rel));
                        },
                    }
                }
            } else if attr_is_exec(a, syms, "item_parent") {
                if ip.is_some() {
                    errs.push(Diag { span: a.span, kind: ErrorKind::DuplicateItemParent });
                } else {
                    match item_parent_from_ast(a) {
                        Ok(sp) => {
                            ip = Some(sp);
                        },
                        Err(e) => errs.push(e),
                    }
                }
            }
            k = k + 1;
        }
        // `#[auto]` on timestamp fields
        let mut attrs = attrs0;
        let is_unspecified = match attrs.auto {
            Some(AutoStrategy::Unspecified) => true,
            _ => false,
        };
        if is_unspecified {
            match fd.ident {
                Some(s) => {
                    let t = sym_string(syms, s);
                    if str_eq(t.as_str(), "created_at") {
                        attrs.auto = None;
                        attrs.default_expr = Some(ExprSrc::Now);
                    } else if str_eq(t.as_str(), "updated_at") {
                        attrs.auto = None;
                        attrs.update_expr = Some(ExprSrc::Now);
                    }
                },
                None => {},
            }
        }
        assert(attrs == auto_timestamps(attrs0, *fd, syms@));
        let is_rel = ty.is_some();
        let span = fd.span;
        if is_rel && attrs.column.is_some() {
            errs.push(Diag { span, kind: ErrorKind::RelationWithColumnType });
        }
        if is_rel && attrs.default_expr.is_some() {
            errs.push(Diag { span, kind: ErrorKind::DefaultOnRelation });
        }
        if is_rel && attrs.update_expr.is_some() {
            errs.push(Diag { span, kind: ErrorKind::UpdateOnRelation });
        }
        if attrs.auto.is_some() && attrs.default_expr.is_some() {
            errs.push(Diag { span, kind: ErrorKind::DefaultWithAuto });
        }
        if attrs.auto.is_some() && attrs.update_expr.is_some() {
            errs.push(Diag { span, kind: ErrorKind::UpdateWithAuto });
        }
        if attrs.versionable && attrs.key.is_some() {
            errs.push(Diag { span, kind: ErrorKind::VersionWithKey });
        }
        if attrs.versionable && attrs.auto.is_some() {
            errs.push(Diag { span, kind: ErrorKind::VersionWithAuto });
        }
        let mut target: Option<(usize, usize)> = None;
        match ip {
            Some(sp) => {
                if is_rel {
                    errs.push(Diag { span: sp, kind: ErrorKind::ItemParentWithRelation });
                }
                match deferred_inner(&fd.ty, syms, fd.ident, fd.ty_span) {
                    Ok(r) => {
                        target = Some(r);
                    },
                    Err(d) => errs.push(d),
                }
            },
            None => {},
        }
        if errs.len() > 0 {
            return Err(errs);
        }
        let ty_toks = rewrite_self(&fd.ty, syms, model, model_span);
        let ty = match ty {
            Some(t) => t,
            None => FieldTy::Primitive,
        };
        Ok(Field { id, attrs, name: fname, ty, ty_toks, variant: None, item_parent: ip, item_parent_target: target })
    }
}

/// Whether a field definition satisfies `relations_named`.
pub fn relations_named_exec(fd: &FieldDef, syms: &Vec<String>) -> (r: bool)
    ensures
        r == relations_named(*fd, syms@),
{
    let mut hm = false;
    let mut rel = false;
    let mut k: usize = 0;
    while k < fd.attrs.len()
        invariant
            k <= fd.attrs@.len(),
            hm == (exists|j: int| 0 <= j < k && attr_is(#[trigger] fd.attrs@[j], syms@, "has_many"@)),
            rel == (exists|j: int| 0 <= j < k && (attr_is(#[trigger] fd.attrs@[j], syms@, "has_many"@) || attr_is(fd.attrs@[j], syms@, "belongs_to"@))),
        decreases fd.attrs.len() - k,
    {
        let a = &fd.attrs[k];
        let h = attr_is_exec(a, syms, "has_many");
        let b = attr_is_exec(a, syms, "belongs_to");
        proof {
            if h {
                assert(attr_is(fd.attrs@[k as int], syms@, "has_many"@));
            }
            if b {
                assert(attr_is(fd.attrs@[k as int], syms@, "belongs_to"@));
            }
        }
        hm = hm || h;
        rel = rel || h || b;
        k = k + 1;
    }
    if rel && fd.ident.is_none() {
        return false;
    }
    if hm {
        match fd.ident {
            Some(s) => {
                let t = sym_string(syms, s);
                crate::case::is_pluralizable(t.as_str())
            },
            None => false,
        }
    } else {
        true
    }
}

/// Whether the field list agrees with its kind (see `fields_agree`) and every
/// field satisfies `relations_named`.
pub fn fields_wf_exec(kind: FieldsKind, fields: &Vec<FieldDef>, syms: &Vec<String>) -> (r: bool)
    ensures
        r == (fields_agree(kind, fields@) && forall|i: int| 0 <= i < fields@.len() ==> relations_named(#[trigger] fields@[i], syms@)),
{
    if kind == FieldsKind::Unit && fields.len() > 0 {
        return false;
    }
    let mut i: usize = 0;
    while i < fields.len()
        invariant
            i <= fields@.len(),
            kind == FieldsKind::Unit ==> fields@.len() == 0,
            forall|j: int| 0 <= j < i ==> (#[trigger] fields@[j].ident is Some <==> kind == FieldsKind::Named),
            forall|j: int| 0 <= j < i ==> relations_named(#[trigger] fields@[j], syms@),
        decreases fields.len() - i,
    {
        let named = fields[i].ident.is_some();
        if named != (kind == FieldsKind::Named) {
            return false;
        }
        if !relations_named_exec(&fields[i], syms) {
            return false;
        }
        i = i + 1;
    }
    true
}

} // verus!
