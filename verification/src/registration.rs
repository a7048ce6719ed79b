//! What the generated schema registration says of each field of a model:
//! its application and storage names, its storage type, whether it belongs
//! to the primary key, and how its value is generated.
use vstd::prelude::*;

use crate::schema::auto::AutoStrategy;
use crate::schema::column::{compat_marker_of, ColumnType, StorageTag};
use crate::schema::field::{field_name, field_name_src, FieldTy};
use crate::schema::model::{Index, IndexField, IndexV, Model, ModelKind, ModelKindV, ModelV};
use crate::schema::field::{FieldTyV, FieldV};
use crate::schema::name::snake_name;

verus! {

/// Where the registration of a field reads whether its value may be null.
#[derive(Clone, Copy, PartialEq, Eq, Debug, Structural)]
pub enum Nullability {
    /// The field type's `Field::NULLABLE` (plain fields).
    FieldType,
    /// The relation type's `RelationOneField::NULLABLE` (`#[belongs_to]`
    /// and `#[has_one]`).
    OneRelation,
    /// Never null (`#[has_many]`).
    Never,
}

/// The registration entry of one field.
pub struct FieldSchema {
    /// The snake-case name, for fields that have one.
    pub app_name: Option<String>,
    /// The column name set by `#[column("..")]` (its symbol).
    pub storage_name: Option<usize>,
    /// The column type set by `#[column(type = ..)]`.
    pub storage_ty: Option<ColumnType>,
    pub primary_key: bool,
    pub auto: Option<AutoStrategy>,
    pub versionable: bool,
    pub nullable: Nullability,
}

pub struct FieldSchemaV {
    pub app_name: Option<Seq<char>>,
    pub storage_name: Option<usize>,
    pub storage_ty: Option<ColumnType>,
    pub primary_key: bool,
    pub auto: Option<AutoStrategy>,
    pub versionable: bool,
    pub nullable: Nullability,
}

impl FieldSchema {
    pub open spec fn view(&self) -> FieldSchemaV {
        FieldSchemaV {
            app_name: match self.app_name {
                Some(s) => Some(s@),
                None => None,
            },
            storage_name: self.storage_name,
            storage_ty: self.storage_ty,
            primary_key: self.primary_key,
            auto: self.auto,
            versionable: self.versionable,
            nullable: self.nullable,
        }
    }
}

/// The model's fields have names: always for a root model and an enum
/// (whose variants with fields are struct variants), and for an embedded
/// struct written with braces.
pub open spec fn fields_named(m: ModelV) -> bool {
    match m.kind {
        ModelKindV::EmbeddedStruct(e) => e.fields_named,
        _ => true,
    }
}

/// Field `k` is part of the model's primary key.
pub open spec fn in_primary_key(m: ModelV, k: int) -> bool {
    match m.kind {
        ModelKindV::Root { primary_key, .. } => primary_key.contains(k as usize),
        _ => false,
    }
}

/// The registration entry of field `k` of `m`.
pub open spec fn field_schema(m: ModelV, syms: Seq<String>, k: int) -> FieldSchemaV {
    let f = m.fields[k];
    FieldSchemaV {
        app_name: if fields_named(m) { Some(snake_name(field_name_src(syms, f.name))) } else { None },
        storage_name: match f.attrs.column {
            Some(c) => c.name,
            None => None,
        },
        storage_ty: match f.attrs.column {
            Some(c) => c.ty,
            None => None,
        },
        primary_key: in_primary_key(m, k),
        auto: f.attrs.auto,
        versionable: f.attrs.versionable,
        nullable: match f.ty {
            FieldTyV::Primitive => Nullability::FieldType,
            FieldTyV::HasMany(_) => Nullability::Never,
            _ => Nullability::OneRelation,
        },
    }
}

/// Every `#[auto]` field can be registered: it is a plain field, and a bare
/// `#[auto]` (whose strategy the field's type decides) is on a primary-key
/// field.
pub open spec fn autos_registrable(m: ModelV) -> bool {
    forall|k: int| 0 <= k < m.fields.len() && (#[trigger] m.fields[k]).attrs.auto is Some ==> {
        &&& m.fields[k].ty is Primitive
        &&& m.fields[k].attrs.auto == Some(AutoStrategy::Unspecified) ==> in_primary_key(m, k)
    }
}

/// Whether `v` holds `x`.
pub fn holds_index(v: &Vec<usize>, x: usize) -> (r: bool)
    ensures
        r == v@.contains(x),
{
    let mut i: usize = 0;
    while i < v.len()
        invariant
            i <= v@.len(),
            forall|j: int| 0 <= j < i ==> v@[j] != x,
        decreases v.len() - i,
    {
        if v[i] == x {
            assert(v@[i as int] == x);
            return true;
        }
        i = i + 1;
    }
    false
}

/// Whether every `#[auto]` field of the model can be registered (see
/// `autos_registrable`).
pub fn check_autos(model: &Model) -> (r: bool)
    ensures
        r == autos_registrable(model.view()),
{
    let ghost m = model.view();
    let mut k: usize = 0;
    while k < model.fields.len()
        invariant
            k <= model.fields@.len(),
            m == model.view(),
            m.fields.len() == model.fields@.len(),
            forall|t: int| 0 <= t < k && (#[trigger] m.fields[t]).attrs.auto is Some ==> {
                &&& m.fields[t].ty is Primitive
                &&& m.fields[t].attrs.auto == Some(AutoStrategy::Unspecified) ==> in_primary_key(m, t)
            },
        decreases model.fields.len() - k,
    {
        let f = &model.fields[k];
        assert(m.fields[k as int] == f.view());
        match f.attrs.auto {
            None => {},
            Some(a) => {
                let plain = match f.ty {
                    FieldTy::Primitive => true,
                    _ => false,
                };
                if !plain {
                    return false;
                }
                match a {
                    AutoStrategy::Unspecified => {
                        let pk = match &model.kind {
                            ModelKind::Root(root) => holds_index(&root.primary_key, k),
                            _ => false,
                        };
                        if !pk {
                            return false;
                        }
                    },
                    _ => {},
                }
            },
        }
        k = k + 1;
    }
    true
}

/// The registration entries of a model's fields, in field order.
pub fn field_schemas(model: &Model, syms: &Vec<String>) -> (r: Vec<FieldSchema>)
    requires
        autos_registrable(model.view()),
    ensures
        r@.len() == model.fields@.len(),
        forall|k: int| 0 <= k < r@.len() ==> (#[trigger] r@[k]).view() == field_schema(model.view(), syms@, k),
{
    let ghost m = model.view();
    let named = match &model.kind {
        ModelKind::EmbeddedStruct(e) => e.fields_named,
        _ => true,
    };
    let mut out: Vec<FieldSchema> = Vec::new();
    let mut k: usize = 0;
    while k < model.fields.len()
        invariant
            k <= model.fields@.len(),
            m == model.view(),
            m.fields.len() == model.fields@.len(),
            named == fields_named(m),
            out@.len() == k,
            forall|t: int| 0 <= t < k ==> (#[trigger] out@[t]).view() == field_schema(m, syms@, t),
        decreases model.fields.len() - k,
    {
        let f = &model.fields[k];
        assert(m.fields[k as int] == f.view());
        let app_name = if named {
            let n = field_name(syms, f.name);
            Some(n.snake_case)
        } else {
            None
        };
        let (storage_name, storage_ty) = match f.attrs.column {
            Some(c) => (c.name, c.ty),
            None => (None, None),
        };
        let primary_key = match &model.kind {
            ModelKind::Root(root) => holds_index(&root.primary_key, k),
            _ => false,
        };
        let nullable = match &f.ty {
            FieldTy::Primitive => Nullability::FieldType,
            FieldTy::HasMany(_) => Nullability::Never,
            _ => Nullability::OneRelation,
        };
        out.push(FieldSchema { app_name, storage_name, storage_ty, primary_key, auto: f.attrs.auto, versionable: f.attrs.versionable, nullable });
        k = k + 1;
    }
    out
}

/// How the models a field reaches are registered with the schema.
#[derive(Clone, Copy, PartialEq, Eq, Debug, Structural)]
pub enum RegisterCall {
    /// Through the field type's own registration (embedded types; a no-op
    /// for scalars).
    FieldType,
    /// Through the target model of a `#[belongs_to]` or `#[has_one]`.
    OneTarget,
    /// Through the target model of a `#[has_many]` without `via`.
    ManyTarget,
}

/// The strategy family of an explicit `#[auto(..)]`.
#[derive(Clone, Copy, PartialEq, Eq, Debug, Structural)]
pub enum AutoTag {
    Uuid,
    Increment,
}

/// The compile-time obligations that the generated code places on field
/// types, and how each field registers the models it reaches.
pub struct CompileChecks {
    /// Plain fields with a `#[column(type = ..)]` that has a compatibility
    /// marker: the field type must be compatible with it.
    pub storage: Vec<(usize, StorageTag)>,
    /// Plain fields without a column type: their type must not require one.
    pub column_type: Vec<usize>,
    /// Plain fields with an explicit auto strategy: the type must support it.
    pub auto: Vec<(usize, AutoTag)>,
    /// Plain `#[version]` fields: the type must be a version counter.
    pub version: Vec<usize>,
    /// The plain fields of the indices other than the primary key, each
    /// once, in order of first appearance: the type must be indexable.
    pub indexable: Vec<usize>,
    /// For each field, its registration call (`None` for a `via` relation,
    /// which registers nothing of its own).
    pub register: Vec<Option<RegisterCall>>,
}

/// The storage check of a field, if any.
pub open spec fn storage_check(f: FieldV) -> Option<StorageTag> {
    if f.ty is Primitive {
        match f.attrs.column {
            Some(c) => match c.ty {
                Some(t) => compat_marker_of(t),
                None => None,
            },
            None => None,
        }
    } else {
        None
    }
}

/// A plain field without a column type.
pub open spec fn needs_column_type_check(f: FieldV) -> bool {
    f.ty is Primitive && !(f.attrs.column matches Some(c) && c.ty is Some)
}

/// The auto check of a field, if any.
pub open spec fn auto_check(f: FieldV) -> Option<AutoTag> {
    if f.ty is Primitive {
        match f.attrs.auto {
            Some(AutoStrategy::Uuid(_)) => Some(AutoTag::Uuid),
            Some(AutoStrategy::Increment) => Some(AutoTag::Increment),
            _ => None,
        }
    } else {
        None
    }
}

/// The registration call of a field.
pub open spec fn register_call(f: FieldV) -> Option<RegisterCall> {
    match f.ty {
        FieldTyV::Primitive => Some(RegisterCall::FieldType),
        FieldTyV::BelongsTo(_) => Some(RegisterCall::OneTarget),
        FieldTyV::HasMany(pv) => if pv.via is Some { None } else { Some(RegisterCall::ManyTarget) },
        FieldTyV::HasOne(_) => Some(RegisterCall::OneTarget),
    }
}

/// The storage checks of the first `n` fields.
pub open spec fn storage_checks(fields: Seq<FieldV>, n: int) -> Seq<(usize, StorageTag)>
    decreases n,
{
    if n <= 0 {
        Seq::empty()
    } else {
        let rest = storage_checks(fields, n - 1);
        match storage_check(fields[n - 1]) {
            Some(t) => rest.push(((n - 1) as usize, t)),
            None => rest,
        }
    }
}

/// The fields among the first `n` that get a column-type check.
pub open spec fn column_type_checks(fields: Seq<FieldV>, n: int) -> Seq<usize>
    decreases n,
{
    if n <= 0 {
        Seq::empty()
    } else {
        let rest = column_type_checks(fields, n - 1);
        if needs_column_type_check(fields[n - 1]) { rest.push((n - 1) as usize) } else { rest }
    }
}

/// The auto checks of the first `n` fields.
pub open spec fn auto_checks(fields: Seq<FieldV>, n: int) -> Seq<(usize, AutoTag)>
    decreases n,
{
    if n <= 0 {
        Seq::empty()
    } else {
        let rest = auto_checks(fields, n - 1);
        match auto_check(fields[n - 1]) {
            Some(t) => rest.push(((n - 1) as usize, t)),
            None => rest,
        }
    }
}

/// The plain `#[version]` fields among the first `n`.
pub open spec fn version_checks(fields: Seq<FieldV>, n: int) -> Seq<usize>
    decreases n,
{
    if n <= 0 {
        Seq::empty()
    } else {
        let rest = version_checks(fields, n - 1);
        if fields[n - 1].ty is Primitive && fields[n - 1].attrs.versionable { rest.push((n - 1) as usize) } else { rest }
    }
}

/// The fields of the first `n` indices that are not the primary key, in
/// order, repeats included.
pub open spec fn secondary_index_fields(indices: Seq<IndexV>, n: int) -> Seq<usize>
    decreases n,
{
    if n <= 0 {
        Seq::empty()
    } else {
        let rest = secondary_index_fields(indices, n - 1);
        let ix = indices[n - 1];
        if ix.primary_key { rest } else { rest + ix.fields.map_values(|f: IndexField| f.field) }
    }
}

/// The plain fields of the first `n` entries of `s`, each at its first
/// appearance.
pub open spec fn first_plain(fields: Seq<FieldV>, s: Seq<usize>, n: int) -> Seq<usize>
    decreases n,
{
    if n <= 0 {
        Seq::empty()
    } else {
        let rest = first_plain(fields, s, n - 1);
        let x = s[n - 1];
        if s.subrange(0, n - 1).contains(x) || !(fields[x as int].ty is Primitive) { rest } else { rest.push(x) }
    }
}

/// The indexable checks of a model.
pub open spec fn indexable_checks(m: ModelV) -> Seq<usize> {
    let s = secondary_index_fields(m.indices, m.indices.len() as int);
    first_plain(m.fields, s, s.len() as int)
}

fn storage_check_exec(f: &crate::schema::field::Field) -> (r: Option<StorageTag>)
    ensures
        r == storage_check(f.view()),
{
    match f.ty {
        FieldTy::Primitive => match f.attrs.column {
            Some(c) => match c.ty {
                Some(t) => t.compat_marker(),
                None => None,
            },
            None => None,
        },
        _ => None,
    }
}

fn register_call_exec(f: &crate::schema::field::Field) -> (r: Option<RegisterCall>)
    ensures
        r == register_call(f.view()),
{
    match &f.ty {
        FieldTy::Primitive => Some(RegisterCall::FieldType),
        FieldTy::BelongsTo(_) => Some(RegisterCall::OneTarget),
        FieldTy::HasMany(h) => if h.rel.via.is_some() { None } else { Some(RegisterCall::ManyTarget) },
        FieldTy::HasOne(_) => Some(RegisterCall::OneTarget),
    }
}

/// The fields of the indices other than the primary key, in order.
fn secondary_fields_exec(indices: &Vec<Index>) -> (r: Vec<usize>)
    ensures
        r@ == secondary_index_fields(crate::schema::model::indices_view(indices@), indices@.len() as int),
{
    let ghost iv = crate::schema::model::indices_view(indices@);
    let mut out: Vec<usize> = Vec::new();
    let mut k: usize = 0;
    while k < indices.len()
        invariant
            k <= indices@.len(),
            iv == crate::schema::model::indices_view(indices@),
            iv.len() == indices@.len(),
            out@ == secondary_index_fields(iv, k as int),
        decreases indices.len() - k,
    {
        let ix = &indices[k];
        assert(iv[k as int] == ix.view());
        if !ix.primary_key {
            let ghost before = out@;
            let mut j: usize = 0;
            while j < ix.fields.len()
                invariant
                    j <= ix.fields@.len(),
                    out@ == before + ix.fields@.subrange(0, j as int).map_values(|f: IndexField| f.field),
                decreases ix.fields.len() - j,
            {
                out.push(ix.fields[j].field);
                proof {
                    assert(ix.fields@.subrange(0, j + 1).map_values(|f: IndexField| f.field)
                        =~= ix.fields@.subrange(0, j as int).map_values(|f: IndexField| f.field).push(ix.fields@[j as int].field));
                }
                j = j + 1;
            }
            assert(ix.fields@.subrange(0, j as int) =~= ix.fields@);
            assert(iv[k as int].fields == ix.fields@);
        }
        k = k + 1;
    }
    out
}

/// Whether `x` is among the first `n` entries of `v`.
fn holds_before(v: &Vec<usize>, n: usize, x: usize) -> (r: bool)
    requires
        n <= v@.len(),
    ensures
        r == v@.subrange(0, n as int).contains(x),
{
    let mut i: usize = 0;
    while i < n
        invariant
            i <= n <= v@.len(),
            forall|j: int| 0 <= j < i ==> v@[j] != x,
        decreases n - i,
    {
        if v[i] == x {
            assert(v@.subrange(0, n as int)[i as int] == x);
            return true;
        }
        i = i + 1;
    }
    proof {
        if v@.subrange(0, n as int).contains(x) {
            let j = choose|j: int| 0 <= j < n && v@.subrange(0, n as int)[j] == x;
            assert(v@[j] == x);
        }
    }
    false
}

impl CompileChecks {
    /// The compile-time checks and registration calls of a model.
    pub fn of_model(model: &Model) -> (r: CompileChecks)
        requires
            model.wf(),
        ensures
            r.storage@ == storage_checks(model.view().fields, model.fields@.len() as int),
            r.column_type@ == column_type_checks(model.view().fields, model.fields@.len() as int),
            r.auto@ == auto_checks(model.view().fields, model.fields@.len() as int),
            r.version@ == version_checks(model.view().fields, model.fields@.len() as int),
            r.indexable@ == indexable_checks(model.view()),
            r.register@ == model.view().fields.map_values(|f: FieldV| register_call(f)),
    {
        let ghost m = model.view();
        let ghost fv = m.fields;
        let mut storage: Vec<(usize, StorageTag)> = Vec::new();
        let mut column_type: Vec<usize> = Vec::new();
        let mut auto: Vec<(usize, AutoTag)> = Vec::new();
        let mut version: Vec<usize> = Vec::new();
        let mut register: Vec<Option<RegisterCall>> = Vec::new();
        let mut k: usize = 0;
        while k < model.fields.len()
            invariant
                k <= model.fields@.len(),
                m == model.view(),
                fv == m.fields,
                fv.len() == model.fields@.len(),
                storage@ == storage_checks(fv, k as int),
                column_type@ == column_type_checks(fv, k as int),
                auto@ == auto_checks(fv, k as int),
                version@ == version_checks(fv, k as int),
                register@ == fv.subrange(0, k as int).map_values(|f: FieldV| register_call(f)),
            decreases model.fields.len() - k,
        {
            let f = &model.fields[k];
            assert(fv[k as int] == f.view());
            match storage_check_exec(f) {
                Some(t) => storage.push((k, t)),
                None => {},
            }
            let plain = match f.ty {
                FieldTy::Primitive => true,
                _ => false,
            };
            let typed = match f.attrs.column {
                Some(c) => c.ty.is_some(),
                None => false,
            };
            if plain && !typed {
                column_type.push(k);
            }
            if plain {
                match f.attrs.auto {
                    Some(AutoStrategy::Uuid(_)) => auto.push((k, AutoTag::Uuid)),
                    Some(AutoStrategy::Increment) => auto.push((k, AutoTag::Increment)),
                    _ => {},
                }
                if f.attrs.versionable {
                    version.push(k);
                }
            }
            register.push(register_call_exec(f));
            proof {
                assert(fv.subrange(0, k + 1).map_values(|g: FieldV| register_call(g))
                    =~= fv.subrange(0, k as int).map_values(|g: FieldV| register_call(g)).push(register_call(fv[k as int])));
            }
            k = k + 1;
        }
        assert(fv.subrange(0, k as int) =~= fv);

        let s = secondary_fields_exec(&model.indices);
        assert(crate::schema::model::indices_view(model.indices@) == m.indices);
        let mut indexable: Vec<usize> = Vec::new();
        let mut n: usize = 0;
        while n < s.len()
            invariant
                n <= s@.len(),
                m == model.view(),
                m.wf(),
                m.fields.len() == model.fields@.len(),
                s@ == secondary_index_fields(m.indices, m.indices.len() as int),
                indexable@ == first_plain(m.fields, s@, n as int),
            decreases s.len() - n,
        {
            let x = s[n];
            proof {
                lemma_secondary_below(m, m.indices.len() as int);
            }
            let seen = holds_before(&s, n, x);
            if !seen {
                assert(m.fields[x as int] == model.fields@[x as int].view());
                let plain = match model.fields[x].ty {
                    FieldTy::Primitive => true,
                    _ => false,
                };
                if plain {
                    indexable.push(x);
                }
            }
            n = n + 1;
        }
        CompileChecks { storage, column_type, auto, version, indexable, register }
    }
}

/// Each field gets at most one indexable check: the checked fields are
/// distinct, and each is a field of a secondary index.
pub proof fn lemma_indexable_distinct(fields: Seq<FieldV>, s: Seq<usize>, n: int)
    requires
        0 <= n <= s.len(),
    ensures
        forall|i: int, j: int| 0 <= i < j < first_plain(fields, s, n).len() ==> first_plain(fields, s, n)[i] != first_plain(fields, s, n)[j],
        forall|i: int| 0 <= i < first_plain(fields, s, n).len() ==> s.subrange(0, n).contains(#[trigger] first_plain(fields, s, n)[i]),
    decreases n,
{
    if n > 0 {
        lemma_indexable_distinct(fields, s, n - 1);
        let rest = first_plain(fields, s, n - 1);
        let x = s[n - 1];
        assert forall|i: int| 0 <= i < rest.len() implies s.subrange(0, n).contains(#[trigger] rest[i]) by {
            let k = choose|k: int| 0 <= k < n - 1 && #[trigger] s.subrange(0, n - 1)[k] == rest[i];
            assert(s.subrange(0, n)[k] == rest[i]);
        }
        if !(s.subrange(0, n - 1).contains(x) || !(fields[x as int].ty is Primitive)) {
            assert(s.subrange(0, n)[n - 1] == x);
            assert forall|i: int| 0 <= i < rest.len() implies rest[i] != x by {
                assert(s.subrange(0, n - 1).contains(rest[i]));
            }
        }
    }
}

/// The secondary index fields of a well-formed model are its fields.
proof fn lemma_secondary_below(m: ModelV, n: int)
    requires
        m.wf(),
        0 <= n <= m.indices.len(),
    ensures
        forall|j: int| 0 <= j < secondary_index_fields(m.indices, n).len() ==> #[trigger] secondary_index_fields(m.indices, n)[j] < m.fields.len(),
    decreases n,
{
    if n > 0 {
        lemma_secondary_below(m, n - 1);
        let rest = secondary_index_fields(m.indices, n - 1);
        let ix = m.indices[n - 1];
        assert(crate::schema::model::index_below(ix, m.fields.len() as int));
        if !ix.primary_key {
            let add = ix.fields.map_values(|f: IndexField| f.field);
            assert forall|j: int| 0 <= j < (rest + add).len() implies #[trigger] (rest + add)[j] < m.fields.len() by {
                if j >= rest.len() {
                    assert((rest + add)[j] == ix.fields[j - rest.len()].field);
                }
            }
        }
    }
}

/// Which expression a create builder starts a field with.
#[derive(Clone, Copy, PartialEq, Eq, Debug, Structural)]
pub enum CreateDefault {
    /// The `#[default(..)]` expression.
    Default,
    /// The `#[update(..)]` expression, when there is no `#[default]`.
    Update,
}

/// The create default of a field, if any: `#[default]` before `#[update]`,
/// plain fields only.
pub open spec fn create_default(f: FieldV) -> Option<CreateDefault> {
    if !(f.ty is Primitive) {
        None
    } else if f.attrs.default_expr is Some {
        Some(CreateDefault::Default)
    } else if f.attrs.update_expr is Some {
        Some(CreateDefault::Update)
    } else {
        None
    }
}

/// The create defaults of the first `n` fields, in field order.
pub open spec fn create_defaults_from(fields: Seq<FieldV>, n: int) -> Seq<(usize, CreateDefault)>
    decreases n,
{
    if n <= 0 {
        Seq::empty()
    } else {
        let rest = create_defaults_from(fields, n - 1);
        match create_default(fields[n - 1]) {
            Some(d) => rest.push(((n - 1) as usize, d)),
            None => rest,
        }
    }
}

/// The fields that a new create builder sets before any setter runs, with
/// the expression each one starts with.
pub fn create_defaults(model: &Model) -> (r: Vec<(usize, CreateDefault)>)
    ensures
        r@ == create_defaults_from(model.view().fields, model.fields@.len() as int),
{
    let ghost fv = model.view().fields;
    let mut out: Vec<(usize, CreateDefault)> = Vec::new();
    let mut k: usize = 0;
    while k < model.fields.len()
        invariant
            k <= model.fields@.len(),
            fv == model.view().fields,
            fv.len() == model.fields@.len(),
            out@ == create_defaults_from(fv, k as int),
        decreases model.fields.len() - k,
    {
        let f = &model.fields[k];
        assert(fv[k as int] == f.view());
        let plain = match f.ty {
            FieldTy::Primitive => true,
            _ => false,
        };
        if plain {
            if f.attrs.default_expr.is_some() {
                out.push((k, CreateDefault::Default));
            } else if f.attrs.update_expr.is_some() {
                out.push((k, CreateDefault::Update));
            }
        }
        k = k + 1;
    }
    out
}

} // verus!
