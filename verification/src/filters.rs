//! The combinations of fields that a model gets `get_by_*`, `filter_by_*`,
//! `update_by_*` and `delete_by_*` methods for: every leading run of an
//! index made of plain fields. The trailing parts of each such run get the
//! methods too, on relation structs only (where the leading fields are
//! implied by the relation).
use vstd::prelude::*;

use crate::schema::field::{field_name, field_name_src, FieldTyV, FieldV};
use crate::schema::name::snake_name;
use crate::schema::model::{indices_view, Index, IndexV, Model, ModelV};
use crate::text::concat;

verus! {

/// A combination of fields (positions in the model) that gets filter
/// methods.
#[derive(Clone, Debug)]
pub struct Filter {
    pub fields: Vec<usize>,
    /// Only relation structs get the methods.
    pub only_relation: bool,
}

pub struct FilterV {
    pub fields: Seq<usize>,
    pub only_relation: bool,
}

impl Filter {
    pub open spec fn view(&self) -> FilterV {
        FilterV { fields: self.fields@, only_relation: self.only_relation }
    }
}

pub open spec fn filters_view(v: Seq<Filter>) -> Seq<FilterV> {
    v.map_values(|f: Filter| f.view())
}

/// The index starts with the fields `fs`, in order.
pub open spec fn index_starts_with(ix: IndexV, fs: Seq<usize>) -> bool {
    ix.fields.len() >= fs.len() && forall|j: int| 0 <= j < fs.len() ==> #[trigger] fs[j] == ix.fields[j].field
}

/// The first index from `k` on that starts with `fs`.
pub open spec fn find_index_from(indices: Seq<IndexV>, fs: Seq<usize>, k: int) -> Option<int>
    decreases indices.len() - k,
{
    if k >= indices.len() || k < 0 {
        None
    } else if index_starts_with(indices[k], fs) {
        Some(k)
    } else {
        find_index_from(indices, fs, k + 1)
    }
}

/// The length of the longest index.
pub open spec fn max_index_len(indices: Seq<IndexV>) -> int
    decreases indices.len(),
{
    if indices.len() == 0 {
        0
    } else {
        let rest = max_index_len(indices.drop_last());
        if indices.last().fields.len() > rest {
            indices.last().fields.len() as int
        } else {
            rest
        }
    }
}

/// The position of the filter on exactly the fields `fs`.
pub open spec fn filter_pos(st: Seq<FilterV>, fs: Seq<usize>, k: int) -> Option<int>
    decreases st.len() - k,
{
    if k >= st.len() || k < 0 {
        None
    } else if st[k].fields == fs {
        Some(k)
    } else {
        filter_pos(st, fs, k + 1)
    }
}

/// The filter on `fs` made available on the model itself.
pub open spec fn add_main(st: Seq<FilterV>, fs: Seq<usize>) -> Seq<FilterV> {
    match filter_pos(st, fs, 0) {
        Some(p) => st.update(p, FilterV { fields: fs, only_relation: false }),
        None => st.push(FilterV { fields: fs, only_relation: false }),
    }
}

/// The filters on the trailing parts `fs[i..]`, `fs[i + 1..]`, ... added for
/// relation structs where missing.
pub open spec fn add_suffixes(st: Seq<FilterV>, fs: Seq<usize>, i: int) -> Seq<FilterV>
    decreases fs.len() - i,
{
    if i >= fs.len() || i < 0 {
        st
    } else {
        let suffix = fs.subrange(i, fs.len() as int);
        let st1 = if filter_pos(st, suffix, 0) is None { st.push(FilterV { fields: suffix, only_relation: true }) } else { st };
        add_suffixes(st1, fs, i + 1)
    }
}

/// The filters found by extending `prefix` with each plain field from `k`
/// on, in turn, while the extension starts some index.
pub open spec fn recurse_fields(m: ModelV, maxlen: int, prefix: Seq<usize>, k: int, st: Seq<FilterV>) -> Seq<FilterV>
    decreases maxlen - prefix.len(), m.fields.len() - k,
{
    if k >= m.fields.len() || k < 0 {
        st
    } else {
        let fs = prefix.push(k as usize);
        if !(m.fields[k].ty is Primitive) || find_index_from(m.indices, fs, 0) is None || fs.len() > maxlen {
            recurse_fields(m, maxlen, prefix, k + 1, st)
        } else {
            let st2 = add_suffixes(add_main(st, fs), fs, 0);
            let st3 = recurse_fields(m, maxlen, fs, 0, st2);
            recurse_fields(m, maxlen, prefix, k + 1, st3)
        }
    }
}

/// The filters of a model.
pub open spec fn model_filters(m: ModelV) -> Seq<FilterV> {
    recurse_fields(m, max_index_len(m.indices), Seq::empty(), 0, Seq::empty())
}

/// The first index that starts with the fields `fs`.
pub fn find_index(indices: &Vec<Index>, fs: &Vec<usize>) -> (r: Option<usize>)
    ensures
        r matches Some(k) ==> find_index_from(indices_view(indices@), fs@, 0) == Some(k as int),
        r is None ==> find_index_from(indices_view(indices@), fs@, 0) is None,
{
    let ghost iv = indices_view(indices@);
    let mut k: usize = 0;
    while k < indices.len()
        invariant
            k <= indices@.len(),
            iv == indices_view(indices@),
            find_index_from(iv, fs@, 0) == find_index_from(iv, fs@, k as int),
        decreases indices.len() - k,
    {
        let ix = &indices[k];
        if ix.fields.len() >= fs.len() {
            let mut j: usize = 0;
            let mut all = true;
            while j < fs.len()
                invariant
                    j <= fs@.len(),
                    fs@.len() <= ix.fields@.len(),
                    all == forall|t: int| 0 <= t < j ==> #[trigger] fs@[t] == ix.fields@[t].field,
                decreases fs.len() - j,
            {
                if fs[j] != ix.fields[j].field {
                    all = false;
                }
                j = j + 1;
            }
            assert(iv[k as int] == ix.view());
            if all {
                return Some(k);
            }
        } else {
            assert(iv[k as int] == ix.view());
        }
        k = k + 1;
    }
    None
}

/// The length of the longest index.
fn longest_index(indices: &Vec<Index>) -> (r: usize)
    ensures
        r == max_index_len(indices_view(indices@)),
{
    let ghost iv = indices_view(indices@);
    let mut best: usize = 0;
    let mut k: usize = 0;
    while k < indices.len()
        invariant
            k <= indices@.len(),
            iv == indices_view(indices@),
            best == max_index_len(iv.subrange(0, k as int)),
        decreases indices.len() - k,
    {
        let n = indices[k].fields.len();
        proof {
            let s = iv.subrange(0, k + 1);
            assert(s.drop_last() =~= iv.subrange(0, k as int));
            assert(s.last() == indices@[k as int].view());
        }
        if n > best {
            best = n;
        }
        k = k + 1;
    }
    assert(iv.subrange(0, k as int) =~= iv);
    best
}

/// The position of the filter on exactly the fields `fs`.
fn find_filter(st: &Vec<Filter>, fs: &Vec<usize>) -> (r: Option<usize>)
    ensures
        r matches Some(p) ==> filter_pos(filters_view(st@), fs@, 0) == Some(p as int) && p < st@.len(),
        r is None ==> filter_pos(filters_view(st@), fs@, 0) is None,
{
    let ghost sv = filters_view(st@);
    let mut k: usize = 0;
    while k < st.len()
        invariant
            k <= st@.len(),
            sv == filters_view(st@),
            filter_pos(sv, fs@, 0) == filter_pos(sv, fs@, k as int),
        decreases st.len() - k,
    {
        let f = &st[k];
        let mut same = f.fields.len() == fs.len();
        if same {
            let mut j: usize = 0;
            while j < fs.len()
                invariant
                    j <= fs@.len(),
                    fs@.len() == f.fields@.len(),
                    same == forall|t: int| 0 <= t < j ==> #[trigger] fs@[t] == f.fields@[t],
                decreases fs.len() - j,
            {
                if fs[j] != f.fields[j] {
                    same = false;
                }
                j = j + 1;
            }
        }
        assert(sv[k as int] == f.view());
        if same {
            assert(f.fields@ =~= fs@);
            return Some(k);
        } else {
            assert(f.fields@ != fs@) by {
                if f.fields@ == fs@ {
                    assert(f.fields@.len() == fs@.len());
                }
            }
        }
        k = k + 1;
    }
    None
}

fn clone_fields(v: &Vec<usize>) -> (r: Vec<usize>)
    ensures
        r@ == v@,
{
    let mut r: Vec<usize> = Vec::new();
    let mut k: usize = 0;
    while k < v.len()
        invariant
            k <= v@.len(),
            r@ == v@.subrange(0, k as int),
        decreases v.len() - k,
    {
        r.push(v[k]);
        k = k + 1;
        assert(r@ =~= v@.subrange(0, k as int));
    }
    assert(r@ =~= v@);
    r
}

fn add_main_exec(st: &mut Vec<Filter>, fs: &Vec<usize>)
    ensures
        filters_view(final(st)@) == add_main(filters_view(old(st)@), fs@),
{
    let ghost before = filters_view(st@);
    match find_filter(st, fs) {
        Some(p) => {
            let f = Filter { fields: clone_fields(fs), only_relation: false };
            st.set(p, f);
            assert(filters_view(st@) =~= before.update(p as int, FilterV { fields: fs@, only_relation: false }));
        },
        None => {
            let f = Filter { fields: clone_fields(fs), only_relation: false };
            st.push(f);
            assert(filters_view(st@) =~= before.push(FilterV { fields: fs@, only_relation: false }));
        },
    }
}

fn add_suffixes_exec(st: &mut Vec<Filter>, fs: &Vec<usize>)
    ensures
        filters_view(final(st)@) == add_suffixes(filters_view(old(st)@), fs@, 0),
{
    let mut i: usize = 0;
    while i < fs.len()
        invariant
            i <= fs@.len(),
            add_suffixes(filters_view(old(st)@), fs@, 0) == add_suffixes(filters_view(st@), fs@, i as int),
        decreases fs.len() - i,
    {
        let mut suffix: Vec<usize> = Vec::new();
        let mut j: usize = i;
        while j < fs.len()
            invariant
                i <= j <= fs@.len(),
                suffix@ == fs@.subrange(i as int, j as int),
            decreases fs.len() - j,
        {
            suffix.push(fs[j]);
            j = j + 1;
            assert(suffix@ =~= fs@.subrange(i as int, j as int));
        }
        let ghost before = filters_view(st@);
        if find_filter(st, &suffix).is_none() {
            let ghost sv = suffix@;
            st.push(Filter { fields: suffix, only_relation: true });
            assert(filters_view(st@) =~= before.push(FilterV { fields: sv, only_relation: true }));
        }
        i = i + 1;
    }
}

fn recurse(m: &Model, maxlen: usize, prefix: &Vec<usize>, st: &mut Vec<Filter>)
    requires
        prefix@.len() <= maxlen,
    ensures
        filters_view(final(st)@) == recurse_fields(m.view(), maxlen as int, prefix@, 0, filters_view(old(st)@)),
    decreases maxlen - prefix@.len(),
{
    let ghost mv = m.view();
    let mut k: usize = 0;
    while k < m.fields.len()
        invariant
            k <= m.fields@.len(),
            mv == m.view(),
            prefix@.len() <= maxlen,
            recurse_fields(mv, maxlen as int, prefix@, 0, filters_view(old(st)@)) == recurse_fields(mv, maxlen as int, prefix@, k as int, filters_view(st@)),
        decreases m.fields.len() - k,
    {
        let is_primitive = match m.fields[k].ty {
            crate::schema::field::FieldTy::Primitive => true,
            _ => false,
        };
        assert(is_primitive == (mv.fields[k as int].ty is Primitive));
        if is_primitive && prefix.len() < maxlen {
            let mut fs = clone_fields(prefix);
            fs.push(k);
            assert(fs@ =~= prefix@.push(k));
            if find_index(&m.indices, &fs).is_some() {
                add_main_exec(st, &fs);
                add_suffixes_exec(st, &fs);
                recurse(m, maxlen, &fs, st);
            }
        }
        k = k + 1;
    }
}

impl Filter {
    /// The filters of a model, in the order they are found.
    pub fn build_model_filters(model: &Model) -> (r: Vec<Filter>)
        ensures
            filters_view(r@) == model_filters(model.view()),
    {
        let maxlen = longest_index(&model.indices);
        let mut st: Vec<Filter> = Vec::new();
        let prefix: Vec<usize> = Vec::new();
        assert(filters_view(st@) =~= Seq::<FilterV>::empty());
        assert(prefix@ =~= Seq::<usize>::empty());
        recurse(model, maxlen, &prefix, &mut st);
        st
    }
}

/// The snake-case name of the field at position `k`.
pub open spec fn field_snake(syms: Seq<String>, fields: Seq<FieldV>, k: int) -> Seq<char> {
    snake_name(field_name_src(syms, fields[k].name))
}

/// `_by_a_and_b` for the first `n` fields of `fs`.
pub open spec fn by_parts(syms: Seq<String>, fields: Seq<FieldV>, fs: Seq<usize>, n: int) -> Seq<char>
    decreases n,
{
    if n <= 0 {
        Seq::empty()
    } else {
        by_parts(syms, fields, fs, n - 1) + (if n == 1 { "_by_"@ } else { "_and_"@ }) + field_snake(syms, fields, fs[n - 1] as int)
    }
}

/// The name of a filter method: `prefix_by_a_and_b`.
pub open spec fn method_ident_text(syms: Seq<String>, fields: Seq<FieldV>, fs: Seq<usize>, prefix: Seq<char>) -> Seq<char> {
    prefix + by_parts(syms, fields, fs, fs.len() as int)
}

/// The name of one of a filter's methods (`prefix` is `get`, `filter`,
/// `update` or `delete`).
pub fn method_ident(model: &Model, syms: &Vec<String>, fields: &Vec<usize>, prefix: &str) -> (r: String)
    requires
        forall|j: int| 0 <= j < fields@.len() ==> #[trigger] fields@[j] < model.fields@.len(),
    ensures
        r@ == method_ident_text(syms@, model.view().fields, fields@, prefix@),
{
    let ghost fv = model.view().fields;
    let mut name = crate::text::string_of(prefix);
    let mut j: usize = 0;
    while j < fields.len()
        invariant
            j <= fields@.len(),
            fv == model.view().fields,
            fv.len() == model.fields@.len(),
            forall|t: int| 0 <= t < fields@.len() ==> #[trigger] fields@[t] < model.fields@.len(),
            name@ == prefix@ + by_parts(syms@, fv, fields@, j as int),
        decreases fields.len() - j,
    {
        let sep = if j == 0 { "_by_" } else { "_and_" };
        let with_sep = concat(name.as_str(), sep);
        let f = &model.fields[fields[j]];
        assert(fv[fields@[j as int] as int] == f.view());
        let n = field_name(syms, f.name);
        name = concat(with_sep.as_str(), n.snake_case.as_str());
        j = j + 1;
    }
    name
}

impl Filter {
    /// The filter on the model's primary key, if the model has one and
    /// that filter was built.
    pub fn primary_key_filter<'a>(model: &Model, filters: &'a Vec<Filter>) -> (r: Option<&'a Filter>)
        requires
            model.wf(),
        ensures
            r matches Some(f) ==> model.kind matches crate::schema::model::ModelKind::Root(root) && f.fields@ == root.primary_key@,
            r is None ==> !(model.kind is Root) || filter_pos(filters_view(filters@), model.kind->Root_0.primary_key@, 0) is None,
    {
        match &model.kind {
            crate::schema::model::ModelKind::Root(root) => {
                match find_filter(filters, &root.primary_key) {
                    Some(p) => {
                        proof {
                            lemma_filter_pos_found(filters_view(filters@), root.primary_key@, 0);
                        }
                        assert(filters_view(filters@)[p as int] == filters@[p as int].view());
                        Some(&filters[p])
                    },
                    None => None,
                }
            },
            _ => None,
        }
    }
}

pub proof fn lemma_filter_pos_found(st: Seq<FilterV>, fs: Seq<usize>, k: int)
    ensures
        filter_pos(st, fs, k) matches Some(p) ==> 0 <= p < st.len() && st[p].fields == fs,
    decreases st.len() - k,
{
    if !(k >= st.len() || k < 0) && st[k].fields != fs {
        lemma_filter_pos_found(st, fs, k + 1);
    }
}

/// No two filters are on the same fields.
pub open spec fn distinct_filters(st: Seq<FilterV>) -> bool {
    forall|i: int, j: int| 0 <= i < j < st.len() ==> (#[trigger] st[i]).fields != (#[trigger] st[j]).fields
}

/// Every filter the model itself gets is on a leading run of one of its
/// indices.
pub open spec fn main_filters_indexed(st: Seq<FilterV>, indices: Seq<IndexV>) -> bool {
    forall|i: int| 0 <= i < st.len() && !(#[trigger] st[i]).only_relation ==> exists|k: int| 0 <= k < indices.len() && index_starts_with(#[trigger] indices[k], st[i].fields)
}

proof fn lemma_filter_pos_none(st: Seq<FilterV>, fs: Seq<usize>, k: int)
    requires
        0 <= k,
    ensures
        filter_pos(st, fs, k) is None ==> forall|i: int| k <= i < st.len() ==> #[trigger] st[i].fields != fs,
    decreases st.len() - k,
{
    if k < st.len() && st[k].fields != fs {
        lemma_filter_pos_none(st, fs, k + 1);
    }
}

proof fn lemma_find_index_found(indices: Seq<IndexV>, fs: Seq<usize>, k: int)
    requires
        0 <= k,
    ensures
        find_index_from(indices, fs, k) matches Some(p) ==> 0 <= p < indices.len() && index_starts_with(indices[p], fs),
    decreases indices.len() - k,
{
    if k < indices.len() && !index_starts_with(indices[k], fs) {
        lemma_find_index_found(indices, fs, k + 1);
    }
}

proof fn lemma_add_main_inv(st: Seq<FilterV>, fs: Seq<usize>, indices: Seq<IndexV>, k0: int)
    requires
        distinct_filters(st),
        main_filters_indexed(st, indices),
        0 <= k0 < indices.len(),
        index_starts_with(indices[k0], fs),
    ensures
        distinct_filters(add_main(st, fs)),
        main_filters_indexed(add_main(st, fs), indices),
{
    lemma_filter_pos_found(st, fs, 0);
    lemma_filter_pos_none(st, fs, 0);
    let r = add_main(st, fs);
    assert forall|i: int| 0 <= i < r.len() && !(#[trigger] r[i]).only_relation implies exists|k: int| 0 <= k < indices.len() && index_starts_with(#[trigger] indices[k], r[i].fields) by {
        if r[i].fields == fs {
            assert(index_starts_with(indices[k0], r[i].fields));
        } else {
            assert(r[i] == st[i]);
        }
    }
    assert forall|i: int, j: int| 0 <= i < j < r.len() implies (#[trigger] r[i]).fields != (#[trigger] r[j]).fields by {
        if i < st.len() && j < st.len() {
            if r[i].fields == fs {
            } else if r[j].fields == fs {
            } else {
                assert(r[i] == st[i]);
                assert(r[j] == st[j]);
            }
        }
    }
}

proof fn lemma_add_suffixes_inv(st: Seq<FilterV>, fs: Seq<usize>, i: int, indices: Seq<IndexV>)
    requires
        distinct_filters(st),
        main_filters_indexed(st, indices),
    ensures
        distinct_filters(add_suffixes(st, fs, i)),
        main_filters_indexed(add_suffixes(st, fs, i), indices),
    decreases fs.len() - i,
{
    if !(i >= fs.len() || i < 0) {
        let suffix = fs.subrange(i, fs.len() as int);
        lemma_filter_pos_none(st, suffix, 0);
        let st1 = if filter_pos(st, suffix, 0) is None { st.push(FilterV { fields: suffix, only_relation: true }) } else { st };
        assert(distinct_filters(st1)) by {
            assert forall|a: int, b: int| 0 <= a < b < st1.len() implies (#[trigger] st1[a]).fields != (#[trigger] st1[b]).fields by {
                if b < st.len() {
                    assert(st1[a] == st[a]);
                    assert(st1[b] == st[b]);
                } else {
                    assert(st1[a] == st[a]);
                }
            }
        }
        assert(main_filters_indexed(st1, indices)) by {
            assert forall|a: int| 0 <= a < st1.len() && !(#[trigger] st1[a]).only_relation implies exists|k: int| 0 <= k < indices.len() && index_starts_with(#[trigger] indices[k], st1[a].fields) by {
                assert(a < st.len());
                assert(st1[a] == st[a]);
            }
        }
        lemma_add_suffixes_inv(st1, fs, i + 1, indices);
    }
}

proof fn lemma_recurse_inv(m: ModelV, maxlen: int, prefix: Seq<usize>, k: int, st: Seq<FilterV>)
    requires
        distinct_filters(st),
        main_filters_indexed(st, m.indices),
    ensures
        distinct_filters(recurse_fields(m, maxlen, prefix, k, st)),
        main_filters_indexed(recurse_fields(m, maxlen, prefix, k, st), m.indices),
    decreases maxlen - prefix.len(), m.fields.len() - k,
{
    if !(k >= m.fields.len() || k < 0) {
        let fs = prefix.push(k as usize);
        if !(m.fields[k].ty is Primitive) || find_index_from(m.indices, fs, 0) is None || fs.len() > maxlen {
            lemma_recurse_inv(m, maxlen, prefix, k + 1, st);
        } else {
            lemma_find_index_found(m.indices, fs, 0);
            let k0 = find_index_from(m.indices, fs, 0).unwrap();
            lemma_add_main_inv(st, fs, m.indices, k0);
            let st1 = add_main(st, fs);
            lemma_add_suffixes_inv(st1, fs, 0, m.indices);
            let st2 = add_suffixes(st1, fs, 0);
            lemma_recurse_inv(m, maxlen, fs, 0, st2);
            let st3 = recurse_fields(m, maxlen, fs, 0, st2);
            lemma_recurse_inv(m, maxlen, prefix, k + 1, st3);
        }
    }
}

/// The filters of a model are on pairwise different field combinations,
/// and every filter that the model itself gets (not only its relation
/// structs) is on a leading run of one of its indices.
pub proof fn lemma_model_filters(m: ModelV)
    ensures
        distinct_filters(model_filters(m)),
        main_filters_indexed(model_filters(m), m.indices),
{
    lemma_recurse_inv(m, max_index_len(m.indices), Seq::empty(), 0, Seq::empty());
}

} // verus!
