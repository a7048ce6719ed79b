//! The relation accessors on a model's list query: one per relation field,
//! except those whose name a built-in query method already takes.
use vstd::prelude::*;

use crate::case::strip_raw;
use crate::schema::field::{field_name_src, field_name_string, FieldTy, FieldTyV, FieldV};
use crate::schema::model::Model;
use crate::schema::name::ident_is_reserved;

verus! {

/// How a relation accessor on the list query reaches its target.
#[derive(Clone, Copy, PartialEq, Eq, Debug, Structural)]
pub enum ListRelation {
    /// `#[belongs_to]` or `#[has_one]`: through the single target, for
    /// each row of the list.
    One,
    /// `#[has_many]`: through the target list.
    Many,
    /// `#[has_many(via = ..)]`: along the via path.
    Via,
}

/// The names of the methods that the list query has built in.
pub open spec fn query_list_reserved() -> Seq<Seq<char>> {
    seq![
        "from_assoc_many"@, "first"@, "one"@, "get"@, "update"@, "count"@, "select"@, "delete"@,
        "paginate"@, "filter"@, "order_by"@, "latest_by"@, "limit"@, "offset"@, "insert"@, "remove"@,
        "include"@, "exec"@, "create"@,
    ]
}

/// The accessor kind of a field, for relation fields.
pub open spec fn list_relation(f: FieldV) -> Option<ListRelation> {
    match f.ty {
        FieldTyV::Primitive => None,
        FieldTyV::BelongsTo(_) => Some(ListRelation::One),
        FieldTyV::HasMany(pv) => if pv.via is Some { Some(ListRelation::Via) } else { Some(ListRelation::Many) },
        FieldTyV::HasOne(_) => Some(ListRelation::One),
    }
}

/// The relation accessors of the first `n` fields, in field order.
pub open spec fn list_relations_from(syms: Seq<String>, fields: Seq<FieldV>, n: int) -> Seq<(usize, ListRelation)>
    decreases n,
{
    if n <= 0 {
        Seq::empty()
    } else {
        let rest = list_relations_from(syms, fields, n - 1);
        let f = fields[n - 1];
        if query_list_reserved().contains(strip_raw(field_name_src(syms, f.name))) {
            rest
        } else {
            match list_relation(f) {
                Some(k) => rest.push(((n - 1) as usize, k)),
                None => rest,
            }
        }
    }
}

fn reserved_names() -> (r: Vec<String>)
    ensures
        r@.map_values(|s: String| s@) == query_list_reserved(),
{
    let names: [&str; 19] = [
        "from_assoc_many", "first", "one", "get", "update", "count", "select", "delete", "paginate",
        "filter", "order_by", "latest_by", "limit", "offset", "insert", "remove", "include", "exec",
        "create",
    ];
    proof {
        reveal_strlit("from_assoc_many");
        reveal_strlit("first");
        reveal_strlit("one");
        reveal_strlit("get");
        reveal_strlit("update");
        reveal_strlit("count");
        reveal_strlit("select");
        reveal_strlit("delete");
        reveal_strlit("paginate");
        reveal_strlit("filter");
        reveal_strlit("order_by");
        reveal_strlit("latest_by");
        reveal_strlit("limit");
        reveal_strlit("offset");
        reveal_strlit("insert");
        reveal_strlit("remove");
        reveal_strlit("include");
        reveal_strlit("exec");
        reveal_strlit("create");
    }
    let mut out: Vec<String> = Vec::new();
    let mut i: usize = 0;
    while i < 19
        invariant
            i <= 19,
            names@.len() == 19,
            out@.len() == i,
            forall|j: int| 0 <= j < i ==> #[trigger] out@[j]@ == names@[j]@,
        decreases 19 - i,
    {
        out.push(crate::text::string_of(names[i]));
        i = i + 1;
    }
    assert(out@.map_values(|s: String| s@) =~= query_list_reserved());
    out
}

/// The relation accessors of a model's list query.
pub fn list_relations(model: &Model, syms: &Vec<String>) -> (r: Vec<(usize, ListRelation)>)
    ensures
        r@ == list_relations_from(syms@, model.view().fields, model.fields@.len() as int),
{
    let reserved = reserved_names();
    let ghost rv = reserved@.map_values(|s: String| s@);
    let ghost fv = model.view().fields;
    let mut out: Vec<(usize, ListRelation)> = Vec::new();
    let mut k: usize = 0;
    while k < model.fields.len()
        invariant
            k <= model.fields@.len(),
            fv == model.view().fields,
            fv.len() == model.fields@.len(),
            rv == reserved@.map_values(|s: String| s@),
            rv == query_list_reserved(),
            out@ == list_relations_from(syms@, fv, k as int),
        decreases model.fields.len() - k,
    {
        let f = &model.fields[k];
        assert(fv[k as int] == f.view());
        let name = field_name_string(syms, f.name);
        let taken = ident_is_reserved(name.as_str(), &reserved);
        proof {
            let t = strip_raw(field_name_src(syms@, f.name));
            if taken {
                let i = choose|i: int| 0 <= i < reserved@.len() && #[trigger] reserved@[i]@ == t;
                assert(rv[i] == t);
            } else if rv.contains(t) {
                let i = choose|i: int| 0 <= i < rv.len() && rv[i] == t;
                assert(reserved@[i]@ == t);
            }
        }
        if !taken {
            match &f.ty {
                FieldTy::Primitive => {},
                FieldTy::BelongsTo(_) => out.push((k, ListRelation::One)),
                FieldTy::HasMany(h) => {
                    if h.rel.via.is_some() {
                        out.push((k, ListRelation::Via));
                    } else {
                        out.push((k, ListRelation::Many));
                    }
                },
                FieldTy::HasOne(_) => out.push((k, ListRelation::One)),
            }
        }
        k = k + 1;
    }
    out
}

} // verus!
