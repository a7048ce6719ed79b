//! Doc comments for the methods that the derives generate. They use plain
//! code spans rather than links, so that no link warning reaches the user's
//! crate.
use vstd::prelude::*;

use crate::filters::{field_snake, Filter};
use crate::schema::field::field_name;
use crate::schema::model::Model;
use crate::text::concat;

verus! {

/// `a` + `b` + `c` as a new string.
fn concat3(a: &str, b: &str, c: &str) -> (r: String)
    ensures
        r@ == a@ + b@ + c@,
{
    let ab = concat(a, b);
    concat(ab.as_str(), c)
}

/// The doc of `create()`.
pub fn doc_create(model: &str) -> (r: String)
    ensures
        r@ == "Returns a builder that inserts a new `"@ + model@ + "` record.\n\nTypically constructed through the `toasty::create!` macro."@,
{
    concat3("Returns a builder that inserts a new `", model, "` record.\n\nTypically constructed through the `toasty::create!` macro.")
}

/// The doc of `create_many()`.
pub fn doc_create_many(model: &str) -> (r: String)
    ensures
        r@ == "Returns a builder that inserts multiple `"@ + model@ + "` records at once."@,
{
    concat3("Returns a builder that inserts multiple `", model, "` records at once.")
}

/// The doc of `update()`.
pub fn doc_update(model: &str) -> (r: String)
    ensures
        r@ == "Returns a builder that updates this `"@ + model@ + "` record in place."@,
{
    concat3("Returns a builder that updates this `", model, "` record in place.")
}

/// The doc of `all()`.
pub fn doc_all(model: &str) -> (r: String)
    ensures
        r@ == "Returns a query that selects every `"@ + model@ + "` record."@,
{
    concat3("Returns a query that selects every `", model, "` record.")
}

/// The doc of `filter()`.
pub fn doc_filter(model: &str) -> (r: String)
    ensures
        r@ == "Returns a query selecting the `"@ + model@ + "` records matching `expr`."@,
{
    concat3("Returns a query selecting the `", model, "` records matching `expr`.")
}

/// The doc of `delete()`.
pub fn doc_delete(model: &str) -> (r: String)
    ensures
        r@ == "Consumes this `"@ + model@ + "` and returns a statement that deletes its record."@,
{
    concat3("Consumes this `", model, "` and returns a statement that deletes its record.")
}

/// The doc of `fields()`.
pub fn doc_fields(model: &str) -> (r: String)
    ensures
        r@ == "Returns a handle used to reference `"@ + model@ + "`'s fields when building query expressions."@,
{
    concat3("Returns a handle used to reference `", model, "`'s fields when building query expressions.")
}

/// `` `name` `` of the field at position `k`.
pub open spec fn quoted_field(syms: Seq<String>, m: Model, k: int) -> Seq<char> {
    "`"@ + field_snake(syms, m.view().fields, k) + "`"@
}

/// The quoted names of the first `n` fields of `fs`, joined by ` and `.
pub open spec fn joined_names(syms: Seq<String>, m: Model, fs: Seq<usize>, n: int) -> Seq<char>
    decreases n,
{
    if n <= 0 {
        Seq::empty()
    } else if n == 1 {
        quoted_field(syms, m, fs[0] as int)
    } else {
        joined_names(syms, m, fs, n - 1) + " and "@ + quoted_field(syms, m, fs[n - 1] as int)
    }
}

/// A phrase naming the fields a filter matches on: `` `email` matches ``,
/// or `` `a` and `b` match ``.
pub open spec fn fields_phrase(syms: Seq<String>, m: Model, fs: Seq<usize>) -> Seq<char> {
    joined_names(syms, m, fs, fs.len() as int) + if fs.len() == 1 { " matches"@ } else { " match"@ }
}

/// The phrase naming the fields of a filter (see `fields_phrase`).
pub fn filter_fields_phrase(model: &Model, syms: &Vec<String>, filter: &Filter) -> (r: String)
    requires
        forall|j: int| 0 <= j < filter.fields@.len() ==> #[trigger] filter.fields@[j] < model.fields@.len(),
    ensures
        r@ == fields_phrase(syms@, *model, filter.fields@),
{
    let fs = &filter.fields;
    let mut out = String::new();
    assert(out@ =~= joined_names(syms@, *model, fs@, 0));
    let mut j: usize = 0;
    while j < fs.len()
        invariant
            j <= fs@.len(),
            fs == &filter.fields,
            forall|t: int| 0 <= t < fs@.len() ==> #[trigger] fs@[t] < model.fields@.len(),
            out@ == joined_names(syms@, *model, fs@, j as int),
        decreases fs.len() - j,
    {
        let f = &model.fields[fs[j]];
        assert(model.view().fields[fs@[j as int] as int] == f.view());
        let n = field_name(syms, f.name);
        let quoted = concat3("`", n.snake_case.as_str(), "`");
        if j == 0 {
            out = quoted;
        } else {
            out = concat3(out.as_str(), " and ", quoted.as_str());
        }
        j = j + 1;
    }
    if fs.len() == 1 {
        concat(out.as_str(), " matches")
    } else {
        concat(out.as_str(), " match")
    }
}

/// The doc of a `get_by_*` method.
pub fn doc_filter_get(model: &str, phrase: &str) -> (r: String)
    ensures
        r@ == "Fetches the single `"@ + model@ + "` where "@ + phrase@ + ", erroring if none exists."@,
{
    let a = concat3("Fetches the single `", model, "` where ");
    concat3(a.as_str(), phrase, ", erroring if none exists.")
}

/// The doc of an `update_by_*` method.
pub fn doc_filter_update(model: &str, phrase: &str) -> (r: String)
    ensures
        r@ == "Returns a builder that updates the `"@ + model@ + "` where "@ + phrase@ + "."@,
{
    let a = concat3("Returns a builder that updates the `", model, "` where ");
    concat3(a.as_str(), phrase, ".")
}

/// The doc of a `delete_by_*` method.
pub fn doc_filter_delete(model: &str, phrase: &str) -> (r: String)
    ensures
        r@ == "Deletes the `"@ + model@ + "` where "@ + phrase@ + "."@,
{
    let a = concat3("Deletes the `", model, "` where ");
    concat3(a.as_str(), phrase, ".")
}

/// The doc of a `filter_by_*` method.
pub fn doc_filter_query(model: &str, phrase: &str) -> (r: String)
    ensures
        r@ == "Returns a query selecting the `"@ + model@ + "` records where "@ + phrase@ + "."@,
{
    let a = concat3("Returns a query selecting the `", model, "` records where ");
    concat3(a.as_str(), phrase, ".")
}

/// The doc of a `#[belongs_to]` accessor.
pub fn doc_belongs_to(model: &str, field: &str) -> (r: String)
    ensures
        r@ == "Returns a query for the `"@ + field@ + "` record this `"@ + model@ + "` belongs to."@,
{
    let a = concat3("Returns a query for the `", field, "` record this `");
    concat3(a.as_str(), model, "` belongs to.")
}

/// The doc of a `#[has_many]` accessor.
pub fn doc_has_many(model: &str, field: &str) -> (r: String)
    ensures
        r@ == "Returns a query over the `"@ + field@ + "` associated with this `"@ + model@ + "`."@,
{
    let a = concat3("Returns a query over the `", field, "` associated with this `");
    concat3(a.as_str(), model, "`.")
}

/// The doc of a `#[has_many(via = ..)]` accessor.
pub fn doc_has_many_via(model: &str, field: &str) -> (r: String)
    ensures
        r@ == "Returns a query over the `"@ + field@ + "` reached from this `"@ + model@ + "` through its relations."@,
{
    let a = concat3("Returns a query over the `", field, "` reached from this `");
    concat3(a.as_str(), model, "` through its relations.")
}

/// The doc of a `#[has_one]` accessor.
pub fn doc_has_one(model: &str, field: &str) -> (r: String)
    ensures
        r@ == "Returns a query for the `"@ + field@ + "` associated with this `"@ + model@ + "`."@,
{
    let a = concat3("Returns a query for the `", field, "` associated with this `");
    concat3(a.as_str(), model, "`.")
}

} // verus!
