//! Models: a struct deriving `Model` or `Embed`, validated, with its primary
//! key and indices.
use vstd::prelude::*;

use super::attr::{attr_is, attr_is_exec, Attr};
use super::field::{
    ast_fields_check, collect_ast_fields, collect_idents, field_idents, field_spec, fields_agree,
    relations_named, Field, FieldDef, FieldV, FieldsKind,
};
use super::model_attr::{
    all_below, lemma_model_attr_fold_below, model_attr0, model_attr_below, model_attr_fold, KeyAttr,
    KeyAttrV, ModelAttr, ModelAttrV,
};
use super::name::Name;
use crate::case::{plural_of, pluralize};
use crate::diag::{Diag, ErrorKind};
use crate::text::concat;
use crate::tokens::{sym_string, sym_text};

verus! {

/// A struct as written in the source.
#[derive(Clone, Debug)]
pub struct StructDef {
    /// The struct's identifier (its symbol) and span.
    pub ident: usize,
    pub ident_span: usize,
    /// Span of the whole struct.
    pub span: usize,
    /// Span of the generic parameters, when there are any.
    pub generics: Option<usize>,
    pub attrs: Vec<Attr>,
    pub fields_kind: FieldsKind,
    /// Span of the field list.
    pub fields_span: usize,
    pub fields: Vec<FieldDef>,
}

impl StructDef {
    /// The definition is well formed: its fields agree with their kind, and
    /// every field that carries `#[has_many]` or `#[belongs_to]` is named.
    pub open spec fn wf(&self, syms: Seq<String>) -> bool {
        &&& fields_agree(self.fields_kind, self.fields@)
        &&& forall|i: int| 0 <= i < self.fields@.len() ==> relations_named(#[trigger] self.fields@[i], syms)
    }

    /// Whether the definition is well formed (see `wf`).
    pub fn check_wf(&self, syms: &Vec<String>) -> (r: bool)
        ensures
            r == self.wf(syms@),
    {
        super::field::fields_wf_exec(self.fields_kind, &self.fields, syms)
    }
}

#[derive(Clone, Copy, PartialEq, Eq, Debug, Structural)]
pub enum IndexScope {
    /// The column partitions rows across nodes.
    Partition,
    /// The column orders rows within a partition.
    Local,
}

#[derive(Clone, Copy, PartialEq, Eq, Debug, Structural)]
pub struct IndexField {
    /// Index of the field in the model.
    pub field: usize,
    pub scope: IndexScope,
}

/// An index of a model.
#[derive(Clone, Debug)]
pub struct Index {
    pub fields: Vec<IndexField>,
    pub unique: bool,
    pub primary_key: bool,
    /// Symbol of the index name given with `name = ".."`.
    pub name: Option<usize>,
}

pub struct IndexV {
    pub fields: Seq<IndexField>,
    pub unique: bool,
    pub primary_key: bool,
    pub name: Option<usize>,
}

impl Index {
    pub open spec fn view(&self) -> IndexV {
        IndexV { fields: self.fields@, unique: self.unique, primary_key: self.primary_key, name: self.name }
    }
}

/// What only a root model has.
#[derive(Clone, Debug)]
pub struct ModelRoot {
    /// Indices of the primary key fields, partition fields first.
    pub primary_key: Vec<usize>,
    /// Index of the `#[version]` field.
    pub version_field: Option<usize>,
}

/// What only an embedded struct has.
#[derive(Clone, Copy, PartialEq, Eq, Debug, Structural)]
pub struct ModelEmbeddedStruct {
    /// Whether the fields are named (`{ a: T }`) rather than a tuple.
    pub fields_named: bool,
    /// A struct-level `#[auto]` on a newtype: its `Auto` impl proxies the
    /// single field's strategy.
    pub auto: bool,
}

/// Root models, embedded structs and (in `enum_model`) embedded enums.
#[derive(Clone, Debug)]
pub enum ModelKind {
    Root(ModelRoot),
    EmbeddedStruct(ModelEmbeddedStruct),
    EmbeddedEnum(super::enum_model::ModelEmbeddedEnum),
}

pub enum ModelKindV {
    Root { primary_key: Seq<usize>, version_field: Option<usize> },
    EmbeddedStruct(ModelEmbeddedStruct),
    EmbeddedEnum(super::enum_model::ModelEmbeddedEnumV),
}

impl ModelKind {
    pub open spec fn view(&self) -> ModelKindV {
        match self {
            ModelKind::Root(r) => ModelKindV::Root { primary_key: r.primary_key@, version_field: r.version_field },
            ModelKind::EmbeddedStruct(e) => ModelKindV::EmbeddedStruct(*e),
            ModelKind::EmbeddedEnum(e) => ModelKindV::EmbeddedEnum(e.view()),
        }
    }

    pub fn as_root(&self) -> (r: Option<&ModelRoot>)
        ensures
            r matches Some(x) ==> *self == ModelKind::Root(*x),
            r is None <==> !(*self is Root),
    {
        match self {
            ModelKind::Root(root) => Some(root),
            _ => None,
        }
    }

    pub fn as_root_unwrap(&self) -> (r: &ModelRoot)
        requires
            *self is Root,
        ensures
            *self == ModelKind::Root(*r),
    {
        match self {
            ModelKind::Root(root) => root,
            _ => vstd::pervasive::unreached(),
        }
    }

    pub fn as_embedded_unwrap(&self) -> (r: &ModelEmbeddedStruct)
        requires
            *self is EmbeddedStruct,
        ensures
            *self == ModelKind::EmbeddedStruct(*r),
    {
        match self {
            ModelKind::EmbeddedStruct(e) => e,
            _ => vstd::pervasive::unreached(),
        }
    }

    pub fn as_embedded_enum_unwrap(&self) -> (r: &super::enum_model::ModelEmbeddedEnum)
        requires
            *self is EmbeddedEnum,
        ensures
            *self == ModelKind::EmbeddedEnum(*r),
    {
        match self {
            ModelKind::EmbeddedEnum(e) => e,
            _ => vstd::pervasive::unreached(),
        }
    }
}

/// A validated model.
#[derive(Clone, Debug)]
pub struct Model {
    /// The model's name, derived from its identifier.
    pub name: Name,
    /// The identifier's symbol and span.
    pub ident: usize,
    pub ident_span: usize,
    pub fields: Vec<Field>,
    pub kind: ModelKind,
    pub indices: Vec<Index>,
    /// Symbol of the table name given with `#[table = ".."]`.
    pub table: Option<usize>,
}

pub struct ModelV {
    pub ident: usize,
    pub ident_span: usize,
    pub fields: Seq<FieldV>,
    pub kind: ModelKindV,
    pub indices: Seq<IndexV>,
    pub table: Option<usize>,
}

impl Model {
    pub open spec fn view(&self) -> ModelV {
        ModelV {
            ident: self.ident,
            ident_span: self.ident_span,
            fields: fields_view(self.fields@),
            kind: self.kind.view(),
            indices: indices_view(self.indices@),
            table: self.table,
        }
    }

    /// Field positions held by the model point at its fields.
    pub open spec fn wf(&self) -> bool {
        self.view().wf()
    }
}

/// Every index field of `ix` is below `n`.
pub open spec fn index_below(ix: IndexV, n: int) -> bool {
    forall|j: int| 0 <= j < ix.fields.len() ==> (#[trigger] ix.fields[j]).field < n
}

impl ModelV {
    /// Field positions held by the model point at its fields.
    pub open spec fn wf(&self) -> bool {
        &&& forall|i: int| 0 <= i < self.indices.len() ==> index_below(#[trigger] self.indices[i], self.fields.len() as int)
        &&& self.kind is Root ==> forall|j: int| 0 <= j < self.kind->primary_key.len() ==> #[trigger] self.kind->primary_key[j] < self.fields.len()
        &&& self.kind is Root && self.kind->version_field is Some ==> self.kind->version_field.unwrap() < self.fields.len()
    }
}

pub open spec fn fields_view(v: Seq<Field>) -> Seq<FieldV> {
    v.map_values(|f: Field| f.view())
}

pub open spec fn indices_view(v: Seq<Index>) -> Seq<IndexV> {
    v.map_values(|i: Index| i.view())
}

/// The index fields of a list of field positions, all with one scope.
pub open spec fn scoped(fs: Seq<usize>, scope: IndexScope) -> Seq<IndexField> {
    fs.map_values(|f: usize| IndexField { field: f, scope })
}

/// The primary key fields of the first `n` fields marked `#[key]`.
pub open spec fn field_key_fields(fields: Seq<FieldV>, n: int) -> Seq<IndexField>
    decreases n,
{
    if n <= 0 {
        Seq::empty()
    } else if fields[n - 1].attrs.key is Some {
        field_key_fields(fields, n - 1).push(IndexField { field: (n - 1) as usize, scope: IndexScope::Partition })
    } else {
        field_key_fields(fields, n - 1)
    }
}

/// The primary key fields: those of the struct-level `#[key(..)]`, or
/// else every field marked `#[key]`, as partition fields.
pub open spec fn pk_fields(ma: ModelAttrV, fields: Seq<FieldV>) -> Seq<IndexField> {
    match ma.key {
        Some(k) => scoped(k.partition, IndexScope::Partition) + scoped(k.local, IndexScope::Local),
        None => field_key_fields(fields, fields.len() as int),
    }
}

/// The fields of a struct-level `#[index(..)]` / `#[unique(..)]`. In simple
/// mode the first field partitions and the rest are local; in named mode
/// each keeps its scope.
pub open spec fn index_fields_of(ia: KeyAttrV) -> Seq<IndexField> {
    if ia.local.len() == 0 {
        Seq::new(ia.partition.len(), |i: int| IndexField {
            field: ia.partition[i],
            scope: if i == 0 { IndexScope::Partition } else { IndexScope::Local },
        })
    } else {
        scoped(ia.partition, IndexScope::Partition) + scoped(ia.local, IndexScope::Local)
    }
}

/// The indices of the struct-level index attributes.
pub open spec fn attr_indices(ias: Seq<KeyAttrV>) -> Seq<IndexV> {
    ias.map_values(|ia: KeyAttrV| IndexV { fields: index_fields_of(ia), unique: ia.unique, primary_key: false, name: ia.name })
}

/// The single-field indices of the first `n` fields marked `#[unique]` or
/// `#[index]`.
pub open spec fn field_indices(fields: Seq<FieldV>, n: int) -> Seq<IndexV>
    decreases n,
{
    if n <= 0 {
        Seq::empty()
    } else if fields[n - 1].attrs.indexed() {
        field_indices(fields, n - 1).push(IndexV {
            fields: seq![IndexField { field: (n - 1) as usize, scope: IndexScope::Partition }],
            unique: fields[n - 1].attrs.unique,
            primary_key: false,
            name: None,
        })
    } else {
        field_indices(fields, n - 1)
    }
}

/// The first of the first `n` fields marked `#[version]`.
pub open spec fn first_version(fields: Seq<FieldV>, n: int) -> Option<usize>
    decreases n,
{
    if n <= 0 {
        None
    } else {
        match first_version(fields, n - 1) {
            Some(v) => Some(v),
            None => if fields[n - 1].attrs.versionable { Some((n - 1) as usize) } else { None },
        }
    }
}

/// One error for each `#[version]` field after the first, among the first
/// `n`, at the field's name.
pub open spec fn version_errors(fields: Seq<FieldV>, defs: Seq<FieldDef>, n: int) -> Seq<Diag>
    decreases n,
{
    if n <= 0 {
        Seq::empty()
    } else if fields[n - 1].attrs.versionable && first_version(fields, n - 1) is Some {
        version_errors(fields, defs, n - 1).push(Diag::at(defs[n - 1].ident_span, ErrorKind::MultipleVersionFields))
    } else {
        version_errors(fields, defs, n - 1)
    }
}

/// One error for each `#[item_parent]` field after the first, among the
/// first `n`, at its attribute.
pub open spec fn item_parent_errors(fields: Seq<FieldV>, n: int) -> Seq<Diag>
    decreases n,
{
    if n <= 0 {
        Seq::empty()
    } else {
        let prior = item_parent_errors(fields, n - 1);
        match fields[n - 1].item_parent {
            Some(sp) => if has_item_parent(fields, n - 1) { prior.push(Diag::at(sp, ErrorKind::MultipleItemParents)) } else { prior },
            None => prior,
        }
    }
}

/// Whether one of the first `n` fields is marked `#[item_parent]`.
pub open spec fn has_item_parent(fields: Seq<FieldV>, n: int) -> bool {
    exists|i: int| 0 <= i < n && (#[trigger] fields[i]).item_parent is Some
}

/// One error for each struct-level `#[item_collection(..)]`, which
/// `#[item_parent]` on a field replaced.
pub open spec fn legacy_errors(attrs: Seq<Attr>, syms: Seq<String>, n: int) -> Seq<Diag>
    decreases n,
{
    if n <= 0 {
        Seq::empty()
    } else if attr_is(attrs[n - 1], syms, "item_collection"@) {
        legacy_errors(attrs, syms, n - 1).push(Diag::at(attrs[n - 1].span, ErrorKind::ItemCollectionRemoved))
    } else {
        legacy_errors(attrs, syms, n - 1)
    }
}

/// The fields `defs[k..]` built in turn, each added to `acc` or its errors
/// to `errs`; with a struct-level key, a field `#[key]` is an error too.
pub open spec fn fields_fold(def: StructDef, syms: Seq<String>, names: Seq<usize>, model_key: bool, k: int, acc: Seq<FieldV>, errs: Seq<Diag>) -> (Seq<FieldV>, Seq<Diag>)
    decreases def.fields@.len() - k,
{
    if k >= def.fields@.len() || k < 0 {
        (acc, errs)
    } else {
        match field_spec(def.fields@[k], syms, def.ident, def.ident_span, k as usize, k as usize, names) {
            Ok(f) => {
                let e = if model_key && f.attrs.key is Some {
                    errs.push(Diag::at(f.attrs.key.unwrap(), ErrorKind::FieldKeyWithModelKey))
                } else {
                    errs
                };
                fields_fold(def, syms, names, model_key, k + 1, acc.push(f), e)
            },
            Err(es) => fields_fold(def, syms, names, model_key, k + 1, acc, errs + es),
        }
    }
}

/// The model once its attributes and fields are read without error.
pub open spec fn model_finish(def: StructDef, is_embedded: bool, ma: ModelAttrV, fields: Seq<FieldV>) -> Result<ModelV, Seq<Diag>> {
    let pk = pk_fields(ma, fields);
    let extra = attr_indices(ma.indices) + field_indices(fields, fields.len() as int);
    if !is_embedded && pk.len() == 0 {
        Err(seq![Diag::at(def.span, ErrorKind::NoPrimaryKey)])
    } else if is_embedded {
        if ma.auto is Some && fields.len() != 1 {
            Err(seq![Diag::at(ma.auto.unwrap(), ErrorKind::StructAutoNeedsOneField)])
        } else {
            Ok(ModelV {
                ident: def.ident,
                ident_span: def.ident_span,
                fields,
                kind: ModelKindV::EmbeddedStruct(ModelEmbeddedStruct { fields_named: def.fields_kind == FieldsKind::Named, auto: ma.auto is Some }),
                indices: extra,
                table: ma.table,
            })
        }
    } else if ma.auto is Some {
        Err(seq![Diag::at(ma.auto.unwrap(), ErrorKind::StructAutoOnModel)])
    } else if version_errors(fields, def.fields@, fields.len() as int).len() > 0 {
        Err(version_errors(fields, def.fields@, fields.len() as int))
    } else {
        let pk_index = IndexV {
            fields: pk,
            unique: true,
            primary_key: true,
            name: match ma.key {
                Some(k) => k.name,
                None => None,
            },
        };
        Ok(ModelV {
            ident: def.ident,
            ident_span: def.ident_span,
            fields,
            kind: ModelKindV::Root { primary_key: pk.map_values(|x: IndexField| x.field), version_field: first_version(fields, fields.len() as int) },
            indices: seq![pk_index] + extra,
            table: ma.table,
        })
    }
}

/// The struct-level attributes and fields of a struct definition, or every
/// error found. The shape of the field list and generics stop at once;
/// otherwise the attributes and all fields are read and their errors
/// reported together.
pub open spec fn model_read(def: StructDef, syms: Seq<String>) -> Result<(ModelAttrV, Seq<FieldV>), Seq<Diag>> {
    match ast_fields_check(def.fields_kind, def.fields@.len() as int, def.fields_span) {
        Err(e) => Err(seq![e]),
        Ok(_) => if def.generics is Some {
            Err(seq![Diag::at(def.generics.unwrap(), ErrorKind::ModelGenerics)])
        } else {
            let names = field_idents(def.fields_kind, def.fields@);
            let (ma, errs0) = model_attr_fold(def.attrs@, syms, names, 0, model_attr0(), Seq::empty());
            let errs1 = errs0 + legacy_errors(def.attrs@, syms, def.attrs@.len() as int);
            let (fields, errs2) = fields_fold(def, syms, names, ma.key is Some, 0, Seq::empty(), errs1);
            let errs3 = errs2 + item_parent_errors(fields, fields.len() as int);
            if errs3.len() > 0 {
                Err(errs3)
            } else {
                Ok((ma, fields))
            }
        },
    }
}

/// The model a struct definition describes, or every error found.
pub open spec fn model_spec(def: StructDef, syms: Seq<String>, is_embedded: bool) -> Result<ModelV, Seq<Diag>> {
    match model_read(def, syms) {
        Err(es) => Err(es),
        Ok((ma, fields)) => model_finish(def, is_embedded, ma, fields),
    }
}

proof fn lemma_scoped_below(fs: Seq<usize>, scope: IndexScope, n: int)
    requires
        all_below(fs, n),
    ensures
        forall|j: int| 0 <= j < scoped(fs, scope).len() ==> (#[trigger] scoped(fs, scope)[j]).field < n,
{
    assert forall|j: int| 0 <= j < scoped(fs, scope).len() implies (#[trigger] scoped(fs, scope)[j]).field < n by {
        assert(scoped(fs, scope)[j].field == fs[j]);
    }
}

proof fn lemma_field_key_fields_below(fields: Seq<FieldV>, n: int)
    requires
        0 <= n <= fields.len(),
    ensures
        forall|j: int| 0 <= j < field_key_fields(fields, n).len() ==> (#[trigger] field_key_fields(fields, n)[j]).field < n,
    decreases n,
{
    if n > 0 {
        lemma_field_key_fields_below(fields, n - 1);
        let prior = field_key_fields(fields, n - 1);
        assert forall|j: int| 0 <= j < field_key_fields(fields, n).len() implies (#[trigger] field_key_fields(fields, n)[j]).field < n by {
            if j < prior.len() {
                assert(field_key_fields(fields, n)[j] == prior[j]);
            }
        }
    }
}

pub proof fn lemma_field_indices_below(fields: Seq<FieldV>, n: int)
    requires
        0 <= n <= fields.len(),
    ensures
        forall|i: int| 0 <= i < field_indices(fields, n).len() ==> index_below(#[trigger] field_indices(fields, n)[i], n),
    decreases n,
{
    if n > 0 {
        lemma_field_indices_below(fields, n - 1);
        let prior = field_indices(fields, n - 1);
        assert forall|i: int| 0 <= i < field_indices(fields, n).len() implies index_below(#[trigger] field_indices(fields, n)[i], n) by {
            if i < prior.len() {
                assert(field_indices(fields, n)[i] == prior[i]);
                assert(index_below(prior[i], n - 1));
            }
        }
    }
}

proof fn lemma_first_version_below(fields: Seq<FieldV>, n: int)
    ensures
        first_version(fields, n) matches Some(v) ==> 0 <= v < n,
    decreases n,
{
    if n > 0 {
        lemma_first_version_below(fields, n - 1);
    }
}

proof fn lemma_attr_indices_below(ias: Seq<KeyAttrV>, n: int)
    requires
        forall|i: int| 0 <= i < ias.len() ==> all_below(#[trigger] ias[i].partition, n) && all_below(ias[i].local, n),
    ensures
        forall|i: int| 0 <= i < attr_indices(ias).len() ==> index_below(#[trigger] attr_indices(ias)[i], n),
{
    assert forall|i: int| 0 <= i < attr_indices(ias).len() implies index_below(#[trigger] attr_indices(ias)[i], n) by {
        let ia = ias[i];
        assert(attr_indices(ias)[i].fields == index_fields_of(ia));
        assert(all_below(ia.partition, n) && all_below(ia.local, n));
        if ia.local.len() == 0 {
            assert forall|j: int| 0 <= j < index_fields_of(ia).len() implies (#[trigger] index_fields_of(ia)[j]).field < n by {
                assert(index_fields_of(ia)[j].field == ia.partition[j]);
            }
        } else {
            lemma_scoped_below(ia.partition, IndexScope::Partition, n);
            lemma_scoped_below(ia.local, IndexScope::Local, n);
            let a = scoped(ia.partition, IndexScope::Partition);
            let b = scoped(ia.local, IndexScope::Local);
            assert forall|j: int| 0 <= j < (a + b).len() implies (#[trigger] (a + b)[j]).field < n by {
                if j < a.len() {
                    assert((a + b)[j] == a[j]);
                } else {
                    assert((a + b)[j] == b[j - a.len()]);
                }
            }
        }
    }
}

proof fn lemma_fields_fold_len(def: StructDef, syms: Seq<String>, names: Seq<usize>, model_key: bool, k: int, acc: Seq<FieldV>, errs: Seq<Diag>)
    requires
        0 <= k <= def.fields@.len(),
    ensures
        fields_fold(def, syms, names, model_key, k, acc, errs).1.len() >= errs.len(),
        fields_fold(def, syms, names, model_key, k, acc, errs).1.len() == errs.len() ==> fields_fold(def, syms, names, model_key, k, acc, errs).0.len() == acc.len()
            + def.fields@.len() - k,
    decreases def.fields@.len() - k,
{
    if k < def.fields@.len() {
        match field_spec(def.fields@[k], syms, def.ident, def.ident_span, k as usize, k as usize, names) {
            Ok(f) => {
                let e = if model_key && f.attrs.key is Some {
                    errs.push(Diag::at(f.attrs.key.unwrap(), ErrorKind::FieldKeyWithModelKey))
                } else {
                    errs
                };
                lemma_fields_fold_len(def, syms, names, model_key, k + 1, acc.push(f), e);
            },
            Err(es) => {
                lemma_fields_fold_len(def, syms, names, model_key, k + 1, acc, errs + es);
            },
        }
    }
}

/// A model built from a well-formed definition points only at its own
/// fields.
pub proof fn lemma_model_spec_wf(def: StructDef, syms: Seq<String>, is_embedded: bool)
    requires
        def.wf(syms),
    ensures
        model_spec(def, syms, is_embedded) matches Ok(m) ==> m.wf(),
{
    if ast_fields_check(def.fields_kind, def.fields@.len() as int, def.fields_span) is Ok && def.generics is None {
        let names = field_idents(def.fields_kind, def.fields@);
        let (ma, errs0) = model_attr_fold(def.attrs@, syms, names, 0, model_attr0(), Seq::empty());
        let errs1 = errs0 + legacy_errors(def.attrs@, syms, def.attrs@.len() as int);
        let (fields, errs2) = fields_fold(def, syms, names, ma.key is Some, 0, Seq::empty(), errs1);
        let errs3 = errs2 + item_parent_errors(fields, fields.len() as int);
        if errs3.len() == 0 {
            lemma_fields_fold_len(def, syms, names, ma.key is Some, 0, Seq::empty(), errs1);
            assert(fields.len() == def.fields@.len());
            let n = fields.len() as int;
            assert(names.len() <= n);
            assert(model_attr_below(model_attr0(), names.len() as int));
            lemma_model_attr_fold_below(def.attrs@, syms, names, 0, model_attr0(), Seq::empty());
            assert(model_attr_below(ma, names.len() as int));
            assert forall|i: int| 0 <= i < ma.indices.len() implies all_below(#[trigger] ma.indices[i].partition, n) && all_below(ma.indices[i].local, n) by {
                assert(all_below(ma.indices[i].partition, names.len() as int));
                assert(all_below(ma.indices[i].local, names.len() as int));
            }
            lemma_attr_indices_below(ma.indices, n);
            lemma_field_indices_below(fields, n);
            lemma_field_key_fields_below(fields, n);
            lemma_first_version_below(fields, n);
            let pk = pk_fields(ma, fields);
            assert(forall|j: int| 0 <= j < pk.len() ==> (#[trigger] pk[j]).field < n) by {
                match ma.key {
                    Some(k) => {
                        lemma_scoped_below(k.partition, IndexScope::Partition, n);
                        lemma_scoped_below(k.local, IndexScope::Local, n);
                        let a = scoped(k.partition, IndexScope::Partition);
                        let b = scoped(k.local, IndexScope::Local);
                        assert forall|j: int| 0 <= j < (a + b).len() implies (#[trigger] (a + b)[j]).field < n by {
                            if j < a.len() {
                                assert((a + b)[j] == a[j]);
                            } else {
                                assert((a + b)[j] == b[j - a.len()]);
                            }
                        }
                    },
                    None => {},
                }
            }
            let extra = attr_indices(ma.indices) + field_indices(fields, n);
            assert forall|i: int| 0 <= i < extra.len() implies index_below(#[trigger] extra[i], n) by {
                if i < attr_indices(ma.indices).len() {
                    assert(extra[i] == attr_indices(ma.indices)[i]);
                } else {
                    assert(extra[i] == field_indices(fields, n)[i - attr_indices(ma.indices).len()]);
                }
            }
            match model_finish(def, is_embedded, ma, fields) {
                Ok(m) => {
                    if !is_embedded {
                        let pk_index = m.indices[0];
                        assert(index_below(pk_index, n));
                        assert forall|i: int| 0 <= i < m.indices.len() implies index_below(#[trigger] m.indices[i], m.fields.len() as int) by {
                            if i > 0 {
                                assert(m.indices[i] == extra[i - 1]);
                            }
                        }
                        let pks = pk.map_values(|x: IndexField| x.field);
                        assert forall|j: int| 0 <= j < pks.len() implies #[trigger] pks[j] < n by {
                            assert(pks[j] == pk[j].field);
                        }
                    }
                },
                Err(_) => {},
            }
        }
    }
}

fn push_scoped(fs: &Vec<usize>, scope: IndexScope, out: &mut Vec<IndexField>)
    ensures
        final(out)@ == old(out)@ + scoped(fs@, scope),
{
    let ghost start = out@;
    let mut k: usize = 0;
    while k < fs.len()
        invariant
            k <= fs@.len(),
            out@ == start + scoped(fs@.subrange(0, k as int), scope),
        decreases fs.len() - k,
    {
        out.push(IndexField { field: fs[k], scope });
        k = k + 1;
        assert(out@ =~= start + scoped(fs@.subrange(0, k as int), scope));
    }
    assert(fs@.subrange(0, k as int) =~= fs@);
}

/// The primary key fields of a model (see `pk_fields`).
fn pk_index_fields(ma: &ModelAttr, fields: &Vec<Field>) -> (r: Vec<IndexField>)
    ensures
        r@ == pk_fields(ma.view(), fields_view(fields@)),
{
    let mut r: Vec<IndexField> = Vec::new();
    match &ma.key {
        Some(k) => {
            push_scoped(&k.partition, IndexScope::Partition, &mut r);
            push_scoped(&k.local, IndexScope::Local, &mut r);
            assert(r@ =~= pk_fields(ma.view(), fields_view(fields@)));
        },
        None => {
            let mut i: usize = 0;
            while i < fields.len()
                invariant
                    i <= fields@.len(),
                    r@ == field_key_fields(fields_view(fields@), i as int),
                decreases fields.len() - i,
            {
                if fields[i].attrs.key.is_some() {
                    r.push(IndexField { field: i, scope: IndexScope::Partition });
                }
                i = i + 1;
            }
        },
    }
    r
}

/// The fields of a struct-level index attribute (see `index_fields_of`).
fn index_fields(ia: &KeyAttr) -> (r: Vec<IndexField>)
    ensures
        r@ == index_fields_of(ia.view()),
{
    let mut r: Vec<IndexField> = Vec::new();
    if ia.local.len() == 0 {
        let mut i: usize = 0;
        while i < ia.partition.len()
            invariant
                ia.local@.len() == 0,
                i <= ia.partition@.len(),
                r@ == index_fields_of(ia.view()).subrange(0, i as int),
            decreases ia.partition.len() - i,
        {
            let scope = if i == 0 { IndexScope::Partition } else { IndexScope::Local };
            r.push(IndexField { field: ia.partition[i], scope });
            i = i + 1;
            assert(r@ =~= index_fields_of(ia.view()).subrange(0, i as int));
        }
        assert(r@ =~= index_fields_of(ia.view()));
    } else {
        push_scoped(&ia.partition, IndexScope::Partition, &mut r);
        push_scoped(&ia.local, IndexScope::Local, &mut r);
        assert(r@ =~= index_fields_of(ia.view()));
    }
    r
}

/// Adds the indices of the struct-level index attributes.
fn push_attr_indices(ias: &Vec<KeyAttr>, out: &mut Vec<Index>)
    ensures
        indices_view(final(out)@) == indices_view(old(out)@) + attr_indices(ias@.map_values(|k: KeyAttr| k.view())),
{
    let ghost start = indices_view(out@);
    let ghost all = ias@.map_values(|k: KeyAttr| k.view());
    let mut i: usize = 0;
    while i < ias.len()
        invariant
            i <= ias@.len(),
            all == ias@.map_values(|k: KeyAttr| k.view()),
            indices_view(out@) == start + attr_indices(all.subrange(0, i as int)),
        decreases ias.len() - i,
    {
        let ia = &ias[i];
        let f = index_fields(ia);
        let ix = Index { fields: f, unique: ia.unique, primary_key: false, name: ia.name };
        let ghost before = out@;
        out.push(ix);
        i = i + 1;
        assert(indices_view(out@) =~= indices_view(before).push(ix.view()));
        assert(all.subrange(0, i as int) =~= all.subrange(0, i - 1).push(ia.view()));
        assert(attr_indices(all.subrange(0, i as int)) =~= attr_indices(all.subrange(0, i - 1)).push(ix.view()));
        assert(indices_view(out@) =~= start + attr_indices(all.subrange(0, i as int)));
    }
    assert(all.subrange(0, i as int) =~= all);
}

/// Adds a single-field index for each field marked `#[unique]` or
/// `#[index]`.
pub fn collect_field_indices(fields: &Vec<Field>, indices: &mut Vec<Index>)
    ensures
        indices_view(final(indices)@) == indices_view(old(indices)@) + field_indices(fields_view(fields@), fields@.len() as int),
{
    let ghost start = indices_view(indices@);
    let mut i: usize = 0;
    while i < fields.len()
        invariant
            i <= fields@.len(),
            indices_view(indices@) == start + field_indices(fields_view(fields@), i as int),
        decreases fields.len() - i,
    {
        let f = &fields[i];
        if f.attrs.is_indexed() {
            let mut fs: Vec<IndexField> = Vec::new();
            fs.push(IndexField { field: i, scope: IndexScope::Partition });
            let ix = Index { fields: fs, unique: f.attrs.unique, primary_key: false, name: None };
            let ghost before = indices@;
            indices.push(ix);
            assert(fs@ =~= seq![IndexField { field: i, scope: IndexScope::Partition }]);
            assert(indices_view(indices@) =~= indices_view(before).push(ix.view()));
        }
        i = i + 1;
    }
}

/// The first `#[version]` field, and an error for each further one.
fn version_scan(fields: &Vec<Field>, defs: &Vec<FieldDef>) -> (r: (Option<usize>, Vec<Diag>))
    requires
        fields@.len() == defs@.len(),
    ensures
        r.0 == first_version(fields_view(fields@), fields@.len() as int),
        r.1@ == version_errors(fields_view(fields@), defs@, fields@.len() as int),
{
    let mut first: Option<usize> = None;
    let mut errs: Vec<Diag> = Vec::new();
    let mut i: usize = 0;
    while i < fields.len()
        invariant
            i <= fields@.len(),
            fields@.len() == defs@.len(),
            first == first_version(fields_view(fields@), i as int),
            errs@ == version_errors(fields_view(fields@), defs@, i as int),
        decreases fields.len() - i,
    {
        if fields[i].attrs.versionable {
            if first.is_some() {
                errs.push(Diag { span: defs[i].ident_span, kind: ErrorKind::MultipleVersionFields });
            } else {
                first = Some(i);
            }
        }
        i = i + 1;
    }
    (first, errs)
}

/// Reads the struct-level attributes and the fields of a definition (see
/// `model_read`).
fn read_model(def: &StructDef, syms: &Vec<String>) -> (r: Result<(ModelAttr, Vec<Field>), Vec<Diag>>)
    requires
        def.wf(syms@),
    ensures
        r matches Ok((ma, fs)) ==> {
            &&& model_read(*def, syms@) == Ok::<(ModelAttrV, Seq<FieldV>), Seq<Diag>>((ma.view(), fields_view(fs@)))
            &&& fs@.len() == def.fields@.len()
            &&& forall|i: int| 0 <= i < fs@.len() ==> (#[trigger] fs@[i]).singular_ok(syms@)
        },
        r matches Err(es) ==> model_read(*def, syms@) == Err::<(ModelAttrV, Seq<FieldV>), Seq<Diag>>(es@),
{
    match collect_ast_fields(def.fields_kind, &def.fields, def.fields_span) {
        Err(e) => {
            let mut v: Vec<Diag> = Vec::new();
            v.push(e);
            assert(v@ =~= seq![e]);
            return Err(v);
        },
        Ok(_) => {},
    }
    match def.generics {
        Some(sp) => {
            let mut v: Vec<Diag> = Vec::new();
            v.push(Diag { span: sp, kind: ErrorKind::ModelGenerics });
            assert(v@ =~= seq![Diag::at(sp, ErrorKind::ModelGenerics)]);
            return Err(v);
        },
        None => {},
    }
    let names = collect_idents(def.fields_kind, &def.fields);
    let (ma, mut errs) = ModelAttr::populate_from_ast(&def.attrs, syms, &names);
    let ghost errs0 = errs@;
    let mut k: usize = 0;
    while k < def.attrs.len()
        invariant
            k <= def.attrs@.len(),
            errs@ == errs0 + legacy_errors(def.attrs@, syms@, k as int),
        decreases def.attrs.len() - k,
    {
        if attr_is_exec(&def.attrs[k], syms, "item_collection") {
            errs.push(Diag { span: def.attrs[k].span, kind: ErrorKind::ItemCollectionRemoved });
        }
        k = k + 1;
        assert(errs@ =~= errs0 + legacy_errors(def.attrs@, syms@, k as int));
    }
    let ghost errs1 = errs@;
    let model_key = ma.key.is_some();
    let mut fields: Vec<Field> = Vec::new();
    assert(fields_view(fields@) =~= Seq::<FieldV>::empty());
    let mut k: usize = 0;
    while k < def.fields.len()
        invariant
            k <= def.fields@.len(),
            def.wf(syms@),
            fields_fold(*def, syms@, names@, model_key, 0, Seq::empty(), errs1) == fields_fold(*def, syms@, names@, model_key, k as int, fields_view(fields@), errs@),
            forall|i: int| 0 <= i < fields@.len() ==> (#[trigger] fields@[i]).singular_ok(syms@),
        decreases def.fields.len() - k,
    {
        let fd = &def.fields[k];
        assert(relations_named(def.fields@[k as int], syms@));
        match Field::from_ast(fd, syms, def.ident, def.ident_span, k, k, &names) {
            Ok(f) => {
                if model_key {
                    match f.attrs.key {
                        Some(sp) => errs.push(Diag { span: sp, kind: ErrorKind::FieldKeyWithModelKey }),
                        None => {},
                    }
                }
                let ghost before = fields@;
                fields.push(f);
                assert(fields_view(fields@) =~= fields_view(before).push(f.view()));
            },
            Err(es) => {
                let mut es = es;
                errs.append(&mut es);
            },
        }
        k = k + 1;
    }
    let ghost errs2 = errs@;
    let ghost fv = fields_view(fields@);
    let mut seen = false;
    let mut k: usize = 0;
    while k < fields.len()
        invariant
            k <= fields@.len(),
            fv == fields_view(fields@),
            errs@ == errs2 + item_parent_errors(fv, k as int),
            seen == has_item_parent(fv, k as int),
        decreases fields.len() - k,
    {
        match fields[k].item_parent {
            Some(sp) => {
                if seen {
                    errs.push(Diag { span: sp, kind: ErrorKind::MultipleItemParents });
                }
                seen = true;
                assert(fv[k as int].item_parent is Some);
            },
            None => {
                assert(has_item_parent(fv, k + 1) ==> has_item_parent(fv, k as int));
            },
        }
        k = k + 1;
        assert(errs@ =~= errs2 + item_parent_errors(fv, k as int));
    }
    if errs.len() > 0 {
        return Err(errs);
    }
    proof {
        lemma_fields_fold_len(*def, syms@, names@, model_key, 0, Seq::empty(), errs1);
    }
    Ok((ma, fields))
}

/// Builds the model from its attributes and fields (see `model_finish`).
fn finish_model(def: &StructDef, syms: &Vec<String>, is_embedded: bool, ma: ModelAttr, fields: Vec<Field>) -> (r: Result<Model, Vec<Diag>>)
    requires
        fields@.len() == def.fields@.len(),
    ensures
        r matches Ok(m) ==> {
            &&& model_finish(*def, is_embedded, ma.view(), fields_view(fields@)) == Ok::<ModelV, Seq<Diag>>(m.view())
            &&& m.name.derived_from(sym_text(syms@, def.ident as int))
            &&& m.fields@ == fields@
        },
        r matches Err(es) ==> model_finish(*def, is_embedded, ma.view(), fields_view(fields@)) == Err::<ModelV, Seq<Diag>>(es@),
{
    let ghost fv = fields_view(fields@);
    let pk = pk_index_fields(&ma, &fields);
    if !is_embedded && pk.len() == 0 {
        let mut v: Vec<Diag> = Vec::new();
        v.push(Diag { span: def.span, kind: ErrorKind::NoPrimaryKey });
        assert(v@ =~= seq![Diag::at(def.span, ErrorKind::NoPrimaryKey)]);
        return Err(v);
    }
    let mut extra: Vec<Index> = Vec::new();
    push_attr_indices(&ma.indices, &mut extra);
    collect_field_indices(&fields, &mut extra);
    assert(indices_view(extra@) =~= attr_indices(ma.view().indices) + field_indices(fv, fv.len() as int));
    let base = sym_string(syms, def.ident);
    let name = Name::from_str(base.as_str());
    if is_embedded {
        match ma.auto {
            Some(sp) => {
                if fields.len() != 1 {
                    let mut v: Vec<Diag> = Vec::new();
                    v.push(Diag { span: sp, kind: ErrorKind::StructAutoNeedsOneField });
                    assert(v@ =~= seq![Diag::at(sp, ErrorKind::StructAutoNeedsOneField)]);
                    return Err(v);
                }
            },
            None => {},
        }
        let kind = ModelKind::EmbeddedStruct(ModelEmbeddedStruct { fields_named: def.fields_kind == FieldsKind::Named, auto: ma.auto.is_some() });
        let m = Model { name, ident: def.ident, ident_span: def.ident_span, fields, kind, indices: extra, table: ma.table };
        return Ok(m);
    }
    match ma.auto {
        Some(sp) => {
            let mut v: Vec<Diag> = Vec::new();
            v.push(Diag { span: sp, kind: ErrorKind::StructAutoOnModel });
            assert(v@ =~= seq![Diag::at(sp, ErrorKind::StructAutoOnModel)]);
            return Err(v);
        },
        None => {},
    }
    let (version_field, verrs) = version_scan(&fields, &def.fields);
    if verrs.len() > 0 {
        return Err(verrs);
    }
    let mut primary_key: Vec<usize> = Vec::new();
    let mut i: usize = 0;
    while i < pk.len()
        invariant
            i <= pk@.len(),
            primary_key@ == pk@.subrange(0, i as int).map_values(|x: IndexField| x.field),
        decreases pk.len() - i,
    {
        primary_key.push(pk[i].field);
        i = i + 1;
        assert(primary_key@ =~= pk@.subrange(0, i as int).map_values(|x: IndexField| x.field));
    }
    assert(pk@.subrange(0, i as int) =~= pk@);
    let pk_name = match &ma.key {
        Some(k) => k.name,
        None => None,
    };
    let mut indices: Vec<Index> = Vec::new();
    let pk_index = Index { fields: pk, unique: true, primary_key: true, name: pk_name };
    indices.push(pk_index);
    let mut extra = extra;
    let ghost ev = indices_view(extra@);
    indices.append(&mut extra);
    assert(indices_view(indices@) =~= seq![pk_index.view()] + ev);
    let kind = ModelKind::Root(ModelRoot { primary_key, version_field });
    let m = Model { name, ident: def.ident, ident_span: def.ident_span, fields, kind, indices, table: ma.table };
    Ok(m)
}

impl Model {
    /// Builds a model from a struct deriving `Model` (`is_embedded` false)
    /// or `Embed` (true).
    pub fn from_ast(def: &StructDef, syms: &Vec<String>, is_embedded: bool) -> (r: Result<Model, Vec<Diag>>)
        requires
            def.wf(syms@),
        ensures
            r matches Ok(m) ==> {
                &&& model_spec(*def, syms@, is_embedded) == Ok::<ModelV, Seq<Diag>>(m.view())
                &&& m.wf()
                &&& m.name.derived_from(sym_text(syms@, def.ident as int))
                &&& forall|i: int| 0 <= i < m.fields@.len() ==> (#[trigger] m.fields@[i]).singular_ok(syms@)
            },
            r matches Err(es) ==> model_spec(*def, syms@, is_embedded) == Err::<ModelV, Seq<Diag>>(es@),
    {
        proof {
            lemma_model_spec_wf(*def, syms@, is_embedded);
        }
        match read_model(def, syms) {
            Err(es) => Err(es),
            Ok((ma, fields)) => finish_model(def, syms, is_embedded, ma, fields),
        }
    }
}

/// The table a model maps to: the `#[table = ".."]` name, or else the
/// plural of the model's snake-case name (`User` gives `users`).
pub open spec fn table_name_of(syms: Seq<String>, table: Option<usize>, snake: Seq<char>) -> Seq<char> {
    match table {
        Some(t) => sym_text(syms, t as int),
        None => plural_of(snake),
    }
}

impl Model {
    /// The name of the table the model maps to.
    pub fn table_name(&self, syms: &Vec<String>) -> (r: String)
        requires
            self.table is Some || crate::case::pluralizable(self.name.snake_case@),
        ensures
            r@ == table_name_of(syms@, self.table, self.name.snake_case@),
    {
        match self.table {
            Some(t) => sym_string(syms, t),
            None => pluralize(self.name.snake_case.as_str(), 2, false),
        }
    }

    /// The primary key fields of a root model, in key order; `None` for
    /// embedded types.
    pub fn primary_key_fields(&self) -> (r: Option<Vec<&Field>>)
        requires
            self.wf(),
        ensures
            self.kind matches ModelKind::Root(root) ==> r matches Some(v) && v@.len() == root.primary_key@.len() && forall|j: int| 0 <= j < v@.len() ==> *(#[trigger] v@[j]) == self.fields@[root.primary_key@[j] as int],
            !(self.kind is Root) ==> r is None,
    {
        match &self.kind {
            ModelKind::Root(root) => {
                let mut v: Vec<&Field> = Vec::new();
                let mut j: usize = 0;
                while j < root.primary_key.len()
                    invariant
                        self.wf(),
                        self.kind == ModelKind::Root(*root),
                        j <= root.primary_key@.len(),
                        v@.len() == j,
                        forall|i: int| 0 <= i < j ==> *(#[trigger] v@[i]) == self.fields@[root.primary_key@[i] as int],
                    decreases root.primary_key.len() - j,
                {
                    let p = root.primary_key[j];
                    proof {
                        let mv = self.view();
                        assert(mv.kind == ModelKindV::Root { primary_key: root.primary_key@, version_field: root.version_field });
                        assert(mv.wf());
                        assert(root.primary_key@[j as int] == p);
                        assert(mv.kind->primary_key[j as int] < mv.fields.len());
                        assert(mv.fields.len() == self.fields@.len());
                        assert(p < mv.fields.len());
                    }
                    v.push(&self.fields[p]);
                    j = j + 1;
                }
                Some(v)
            },
            _ => None,
        }
    }
}

proof fn lemma_no_item_parent_errors(fields: Seq<FieldV>, n: int)
    requires
        n <= fields.len(),
        item_parent_errors(fields, n).len() == 0,
    ensures
        forall|i: int, j: int| 0 <= i < j < n ==> !((#[trigger] fields[i]).item_parent is Some && (#[trigger] fields[j]).item_parent is Some),
    decreases n,
{
    if n > 0 {
        lemma_no_item_parent_errors(fields, n - 1);
        assert forall|i: int, j: int| 0 <= i < j < n implies !((#[trigger] fields[i]).item_parent is Some && (#[trigger] fields[j]).item_parent is Some) by {
            if j == n - 1 && fields[i].item_parent is Some && fields[j].item_parent is Some {
                assert(has_item_parent(fields, n - 1));
            }
        }
    }
}

proof fn lemma_first_version(fields: Seq<FieldV>, n: int)
    requires
        0 <= n <= fields.len(),
        fields.len() <= usize::MAX,
    ensures
        first_version(fields, n) is None <==> forall|i: int| 0 <= i < n ==> !(#[trigger] fields[i]).attrs.versionable,
        first_version(fields, n) matches Some(v) ==> v < n && fields[v as int].attrs.versionable,
    decreases n,
{
    if n > 0 {
        lemma_first_version(fields, n - 1);
    }
}

proof fn lemma_no_version_errors(fields: Seq<FieldV>, defs: Seq<FieldDef>, n: int)
    requires
        0 <= n <= fields.len(),
        fields.len() <= usize::MAX,
        version_errors(fields, defs, n).len() == 0,
    ensures
        forall|i: int, j: int| 0 <= i < j < n ==> !((#[trigger] fields[i]).attrs.versionable && (#[trigger] fields[j]).attrs.versionable),
    decreases n,
{
    if n > 0 {
        lemma_no_version_errors(fields, defs, n - 1);
        lemma_first_version(fields, n - 1);
        assert forall|i: int, j: int| 0 <= i < j < n implies !((#[trigger] fields[i]).attrs.versionable && (#[trigger] fields[j]).attrs.versionable) by {
            if j == n - 1 && fields[i].attrs.versionable && fields[j].attrs.versionable {
                assert(first_version(fields, n - 1) is Some);
            }
        }
    }
}

proof fn lemma_fields_fold_keys(def: StructDef, syms: Seq<String>, names: Seq<usize>, model_key: bool, k: int, acc: Seq<FieldV>, errs: Seq<Diag>)
    requires
        0 <= k <= def.fields@.len(),
        model_key ==> forall|i: int| 0 <= i < acc.len() ==> (#[trigger] acc[i]).attrs.key is None,
    ensures
        fields_fold(def, syms, names, model_key, k, acc, errs).1.len() == errs.len() ==> (model_key ==> forall|i: int| 0 <= i < fields_fold(def, syms, names, model_key, k, acc, errs).0.len() ==> (#[trigger] fields_fold(def, syms, names, model_key, k, acc, errs).0[i]).attrs.key is None),
    decreases def.fields@.len() - k,
{
    if k < def.fields@.len() {
        match field_spec(def.fields@[k], syms, def.ident, def.ident_span, k as usize, k as usize, names) {
            Ok(f) => {
                let e = if model_key && f.attrs.key is Some {
                    errs.push(Diag::at(f.attrs.key.unwrap(), ErrorKind::FieldKeyWithModelKey))
                } else {
                    errs
                };
                lemma_fields_fold_len(def, syms, names, model_key, k + 1, acc.push(f), e);
                if !(model_key && f.attrs.key is Some) {
                    assert(model_key ==> forall|i: int| 0 <= i < acc.push(f).len() ==> (#[trigger] acc.push(f)[i]).attrs.key is None) by {
                        if model_key {
                            assert forall|i: int| 0 <= i < acc.push(f).len() implies (#[trigger] acc.push(f)[i]).attrs.key is None by {
                                if i < acc.len() {
                                    assert(acc.push(f)[i] == acc[i]);
                                }
                            }
                        }
                    }
                    lemma_fields_fold_keys(def, syms, names, model_key, k + 1, acc.push(f), e);
                }
            },
            Err(es) => {
                lemma_fields_fold_len(def, syms, names, model_key, k + 1, acc, errs + es);
            },
        }
    }
}

/// A struct-level `#[key(..)]` and field-level `#[key]` exclude each
/// other: when the definition is read without error and has the former, no
/// field has the latter.
pub proof fn lemma_key_forms_exclusive(def: StructDef, syms: Seq<String>)
    ensures
        model_read(def, syms) matches Ok((ma, fields)) ==> (ma.key is Some ==> forall|i: int| 0 <= i < fields.len() ==> (#[trigger] fields[i]).attrs.key is None),
{
    if ast_fields_check(def.fields_kind, def.fields@.len() as int, def.fields_span) is Ok && def.generics is None {
        let names = field_idents(def.fields_kind, def.fields@);
        let (ma, errs0) = model_attr_fold(def.attrs@, syms, names, 0, model_attr0(), Seq::empty());
        let errs1 = errs0 + legacy_errors(def.attrs@, syms, def.attrs@.len() as int);
        lemma_fields_fold_keys(def, syms, names, ma.key is Some, 0, Seq::empty(), errs1);
        lemma_fields_fold_len(def, syms, names, ma.key is Some, 0, Seq::empty(), errs1);
        let (fields, errs2) = fields_fold(def, syms, names, ma.key is Some, 0, Seq::empty(), errs1);
        let errs3 = errs2 + item_parent_errors(fields, fields.len() as int);
        if errs3.len() == 0 {
            assert(errs2.len() == 0);
            assert(errs1.len() == 0);
        }
    }
}

/// A model accepts at most one `#[item_parent]` field.
pub proof fn lemma_one_item_parent(def: StructDef, syms: Seq<String>, is_embedded: bool)
    ensures
        model_spec(def, syms, is_embedded) matches Ok(m) ==> forall|i: int, j: int| 0 <= i < j < m.fields.len() ==> !((#[trigger] m.fields[i]).item_parent is Some && (#[trigger] m.fields[j]).item_parent is Some),
{
    match model_read(def, syms) {
        Ok((ma, fields)) => {
            let names = field_idents(def.fields_kind, def.fields@);
            let errs0 = model_attr_fold(def.attrs@, syms, names, 0, model_attr0(), Seq::empty()).1;
            let errs1 = errs0 + legacy_errors(def.attrs@, syms, def.attrs@.len() as int);
            let errs2 = fields_fold(def, syms, names, ma.key is Some, 0, Seq::empty(), errs1).1;
            assert((errs2 + item_parent_errors(fields, fields.len() as int)).len() == 0);
            lemma_no_item_parent_errors(fields, fields.len() as int);
        },
        Err(_) => {},
    }
}

/// A root model that `Model` accepts has a primary key of at least one
/// field, indexed first (unique), and at most one `#[version]` field,
/// which is its version field.
pub proof fn lemma_root_model(def: StructDef, syms: Seq<String>)
    ensures
        model_spec(def, syms, false) matches Ok(m) ==> {
            &&& m.kind is Root
            &&& m.kind->primary_key.len() > 0
            &&& m.indices.len() > 0 && m.indices[0].primary_key && m.indices[0].unique
            &&& m.indices[0].fields.map_values(|x: IndexField| x.field) == m.kind->primary_key
            &&& forall|i: int, j: int| 0 <= i < j < m.fields.len() ==> !((#[trigger] m.fields[i]).attrs.versionable && (#[trigger] m.fields[j]).attrs.versionable)
            &&& (m.kind->version_field matches Some(v) ==> v < m.fields.len() && m.fields[v as int].attrs.versionable)
            &&& (m.kind->version_field is None ==> forall|i: int| 0 <= i < m.fields.len() ==> !(#[trigger] m.fields[i]).attrs.versionable)
        },
{
    match model_read(def, syms) {
        Ok((ma, fields)) => {
            match model_finish(def, false, ma, fields) {
                Ok(m) => {
                    lemma_fields_fold_len_read(def, syms);
                    assert(def.fields@.len() == def.fields.len());
                    lemma_no_version_errors(fields, def.fields@, fields.len() as int);
                    lemma_first_version(fields, fields.len() as int);
                },
                Err(_) => {},
            }
        },
        Err(_) => {},
    }
}

proof fn lemma_fields_fold_len_read(def: StructDef, syms: Seq<String>)
    ensures
        model_read(def, syms) matches Ok((ma, fields)) ==> fields.len() == def.fields@.len(),
{
    if ast_fields_check(def.fields_kind, def.fields@.len() as int, def.fields_span) is Ok && def.generics is None {
        let names = field_idents(def.fields_kind, def.fields@);
        let (ma, errs0) = model_attr_fold(def.attrs@, syms, names, 0, model_attr0(), Seq::empty());
        let errs1 = errs0 + legacy_errors(def.attrs@, syms, def.attrs@.len() as int);
        lemma_fields_fold_len(def, syms, names, ma.key is Some, 0, Seq::empty(), errs1);
    }
}

/// The name of a generated type: the model's identifier followed by
/// `suffix` (`UserFields`, `UserQuery`, ..).
pub fn struct_ident(syms: &Vec<String>, ident: usize, suffix: &str) -> (r: String)
    ensures
        r@ == sym_text(syms@, ident as int) + suffix@,
{
    let base = sym_string(syms, ident);
    concat(base.as_str(), suffix)
}

} // verus!
