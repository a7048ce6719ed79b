//! The upsert builders of a root model: one per unique index made of plain
//! fields, with its names, documentation and the role of every other field.
use vstd::prelude::*;

use crate::case::{join_strings, join_with, to_upper_camel_case, upper_camel_case_of};
use crate::schema::field::{field_name_src, field_name_string, FieldTy, FieldTyV, FieldV};
use crate::schema::model::{IndexField, IndexV, Model, ModelV};
use crate::text::concat;
use crate::gen::{c, field_ident_at, field_ident_at_exec, gens_view, push_code, push_gen, Gen, GenV};
use crate::tokens::{sym_string, sym_text};

verus! {

/// What an upsert does with a plain field outside its target.
#[derive(Clone, Copy, PartialEq, Eq, Debug, Structural)]
pub enum DefaultAction {
    /// `#[default]` and `#[update]`: the default when the record is
    /// created, the update expression when it is updated.
    CreateAndUpdate,
    /// `#[default]` only: applied when the record is created.
    CreateOnly,
    /// `#[update]` only: applied on both branches.
    Shared,
}

/// The role of a builder method named after a field, for its doc.
#[derive(Clone, Copy, PartialEq, Eq, Debug, Structural)]
pub enum SetterRole {
    /// Assigns on both the create and the update branch.
    Shared,
    /// Sets a value used only on create.
    Create,
    /// Assigns only on update.
    Update,
    /// Refers to the proposed value from `on_update`.
    Incoming,
}

/// One upsert builder of a model.
pub struct UpsertPlan {
    /// The fields of the unique index (positions in the model).
    pub target: Vec<usize>,
    /// `a_and_b`: the target's field names.
    pub target_name: String,
    /// `upsert_by_a_and_b`: the method on the model.
    pub method_name: String,
    /// `<Model>UpsertBy<A>And<B>` and its `Create`, `Update`, `Incoming` and
    /// `OrIgnore` companions.
    pub builder: String,
    pub create_builder: String,
    pub update_builder: String,
    pub incoming_builder: String,
    pub ignore_builder: String,
    /// The docs of the method, the builder and its companions.
    pub method_doc: String,
    pub builder_doc: String,
    pub create_doc: String,
    pub update_doc: String,
    pub incoming_doc: String,
    pub ignore_doc: String,
    /// The plain fields outside the target that carry `#[default]` or
    /// `#[update]`, in field order, with what the upsert does with them.
    pub defaults: Vec<(usize, DefaultAction)>,
    /// The plain fields outside the target, in field order: each gets a
    /// setter on the builder and on its create and update companions.
    pub setters: Vec<usize>,
    /// All plain fields, in field order: each gets an accessor on the
    /// incoming companion.
    pub incoming: Vec<usize>,
}

pub struct UpsertPlanV {
    pub target: Seq<usize>,
    pub target_name: Seq<char>,
    pub method_name: Seq<char>,
    pub builder: Seq<char>,
    pub create_builder: Seq<char>,
    pub update_builder: Seq<char>,
    pub incoming_builder: Seq<char>,
    pub ignore_builder: Seq<char>,
    pub method_doc: Seq<char>,
    pub builder_doc: Seq<char>,
    pub create_doc: Seq<char>,
    pub update_doc: Seq<char>,
    pub incoming_doc: Seq<char>,
    pub ignore_doc: Seq<char>,
    pub defaults: Seq<(usize, DefaultAction)>,
    pub setters: Seq<usize>,
    pub incoming: Seq<usize>,
}

impl UpsertPlan {
    pub open spec fn view(&self) -> UpsertPlanV {
        UpsertPlanV {
            target: self.target@,
            target_name: self.target_name@,
            method_name: self.method_name@,
            builder: self.builder@,
            create_builder: self.create_builder@,
            update_builder: self.update_builder@,
            incoming_builder: self.incoming_builder@,
            ignore_builder: self.ignore_builder@,
            method_doc: self.method_doc@,
            builder_doc: self.builder_doc@,
            create_doc: self.create_doc@,
            update_doc: self.update_doc@,
            incoming_doc: self.incoming_doc@,
            ignore_doc: self.ignore_doc@,
            defaults: self.defaults@,
            setters: self.setters@,
            incoming: self.incoming@,
        }
    }
}

/// Every field of the index is a plain field.
pub open spec fn all_plain(fields: Seq<FieldV>, ix: IndexV) -> bool {
    forall|j: int| 0 <= j < ix.fields.len() ==> (#[trigger] fields[ix.fields[j].field as int]).ty is Primitive
}

/// The field positions of an index.
pub open spec fn index_positions(ix: IndexV) -> Seq<usize> {
    ix.fields.map_values(|f: IndexField| f.field)
}

/// The targets of the first `n` indices: those unique indices made of
/// plain fields, in order.
pub open spec fn targets_from(m: ModelV, n: int) -> Seq<Seq<usize>>
    decreases n,
{
    if n <= 0 {
        Seq::empty()
    } else {
        let rest = targets_from(m, n - 1);
        let ix = m.indices[n - 1];
        if ix.unique && all_plain(m.fields, ix) {
            rest.push(index_positions(ix))
        } else {
            rest
        }
    }
}

/// The upsert targets of a model.
pub open spec fn upsert_targets(m: ModelV) -> Seq<Seq<usize>> {
    targets_from(m, m.indices.len() as int)
}

/// The source names of the target's fields.
pub open spec fn target_names(syms: Seq<String>, fields: Seq<FieldV>, target: Seq<usize>) -> Seq<Seq<char>> {
    target.map_values(|f: usize| field_name_src(syms, fields[f as int].name))
}

/// What the upsert does with a field outside the target, if anything.
pub open spec fn default_action(f: FieldV) -> Option<DefaultAction> {
    if !(f.ty is Primitive) {
        None
    } else {
        match (f.attrs.default_expr, f.attrs.update_expr) {
            (Some(_), Some(_)) => Some(DefaultAction::CreateAndUpdate),
            (Some(_), None) => Some(DefaultAction::CreateOnly),
            (None, Some(_)) => Some(DefaultAction::Shared),
            (None, None) => None,
        }
    }
}

/// The defaults among the first `n` fields.
pub open spec fn defaults_from(fields: Seq<FieldV>, target: Seq<usize>, n: int) -> Seq<(usize, DefaultAction)>
    decreases n,
{
    if n <= 0 {
        Seq::empty()
    } else {
        let rest = defaults_from(fields, target, n - 1);
        let k = (n - 1) as usize;
        if target.contains(k) {
            rest
        } else {
            match default_action(fields[n - 1]) {
                Some(a) => rest.push((k, a)),
                None => rest,
            }
        }
    }
}

/// The plain fields among the first `n`, without those of the target.
pub open spec fn setters_from(fields: Seq<FieldV>, target: Seq<usize>, n: int) -> Seq<usize>
    decreases n,
{
    if n <= 0 {
        Seq::empty()
    } else {
        let rest = setters_from(fields, target, n - 1);
        let k = (n - 1) as usize;
        if !target.contains(k) && fields[n - 1].ty is Primitive {
            rest.push(k)
        } else {
            rest
        }
    }
}

/// The plain fields among the first `n`.
pub open spec fn plain_from(fields: Seq<FieldV>, n: int) -> Seq<usize>
    decreases n,
{
    if n <= 0 {
        Seq::empty()
    } else {
        let rest = plain_from(fields, n - 1);
        if fields[n - 1].ty is Primitive {
            rest.push((n - 1) as usize)
        } else {
            rest
        }
    }
}

/// The upsert builder of `target` in model `m`.
pub open spec fn upsert_plan(m: ModelV, syms: Seq<String>, target: Seq<usize>) -> UpsertPlanV {
    let model = sym_text(syms, m.ident as int);
    let names = target_names(syms, m.fields, target);
    let target_name = join_with(names, "_and_"@);
    let builder = model + "UpsertBy"@ + join_with(names.map_values(|s: Seq<char>| upper_camel_case_of(s)), "And"@);
    UpsertPlanV {
        target,
        target_name,
        method_name: "upsert_by_"@ + target_name,
        builder,
        create_builder: builder + "Create"@,
        update_builder: builder + "Update"@,
        incoming_builder: builder + "Incoming"@,
        ignore_builder: builder + "OrIgnore"@,
        method_doc: "Returns a builder that creates `"@ + model + "` or updates the record whose `"@ + target_name
            + "` constraint matches.\n\nThe target arguments initialize a new record and remain unchanged when an existing record is updated."@,
        builder_doc: "Builds one atomic create-or-update operation for `"@ + model + "` using the `"@ + target_name + "` conflict target."@,
        create_doc: "Sets values used only when the `"@ + model + "` record is created."@,
        update_doc: "Assigns fields only when the `"@ + target_name + "` target matches an existing `"@ + model + "` record."@,
        incoming_doc: "References values proposed for the new `"@ + model + "` record from `on_update`."@,
        ignore_doc: "Builds an insert-or-ignore operation for `"@ + model + "` using the `"@ + target_name + "` conflict target."@,
        defaults: defaults_from(m.fields, target, m.fields.len() as int),
        setters: setters_from(m.fields, target, m.fields.len() as int),
        incoming: plain_from(m.fields, m.fields.len() as int),
    }
}

/// The doc of a builder method named after field `name`.
pub open spec fn setter_doc(role: SetterRole, name: Seq<char>) -> Seq<char> {
    match role {
        SetterRole::Shared => "Assigns `"@ + name + "` on both the create and update branches."@,
        SetterRole::Create => "Sets `"@ + name + "` only when the record is created."@,
        SetterRole::Update => "Assigns `"@ + name + "` only when the conflict target matches an existing record."@,
        SetterRole::Incoming => "Returns an expression referencing the proposed `"@ + name + "` value."@,
    }
}

/// Every plain field of the model is either in an upsert's target or gets
/// its setters, never both; no relation field gets a setter.
pub proof fn lemma_setters_partition(fields: Seq<FieldV>, target: Seq<usize>, n: int)
    requires
        0 <= n <= fields.len(),
        n <= usize::MAX,
    ensures
        forall|k: int| 0 <= k < n ==> (setters_from(fields, target, n).contains(k as usize)
            <==> (fields[k].ty is Primitive && !target.contains(k as usize))),
        forall|i: int| 0 <= i < setters_from(fields, target, n).len() ==> #[trigger] setters_from(fields, target, n)[i] < n,
    decreases n,
{
    if n > 0 {
        lemma_setters_partition(fields, target, n - 1);
        let rest = setters_from(fields, target, n - 1);
        let last = (n - 1) as usize;
        assert(!rest.contains(last));
        assert forall|k: int| 0 <= k < n implies (setters_from(fields, target, n).contains(k as usize)
            <==> (fields[k].ty is Primitive && !target.contains(k as usize))) by {
            if k < n - 1 {
                if setters_from(fields, target, n).contains(k as usize) && !rest.contains(k as usize) {
                    let i = choose|i: int| 0 <= i < setters_from(fields, target, n).len() && setters_from(fields, target, n)[i] == k as usize;
                    assert(i == rest.len());
                }
                if rest.contains(k as usize) {
                    let i = choose|i: int| 0 <= i < rest.len() && rest[i] == k as usize;
                    assert(setters_from(fields, target, n)[i] == k as usize);
                }
            } else {
                if fields[k].ty is Primitive && !target.contains(k as usize) {
                    assert(setters_from(fields, target, n)[rest.len() as int] == last);
                }
            }
        }
    }
}

/// `a` + `b` + `c` as a new string.
fn concat3(a: &str, b: &str, c: &str) -> (r: String)
    ensures
        r@ == a@ + b@ + c@,
{
    let ab = concat(a, b);
    concat(ab.as_str(), c)
}

/// The doc of a builder method named after field `name`.
pub fn upsert_setter_doc(role: SetterRole, name: &str) -> (r: String)
    ensures
        r@ == setter_doc(role, name@),
{
    match role {
        SetterRole::Shared => concat3("Assigns `", name, "` on both the create and update branches."),
        SetterRole::Create => concat3("Sets `", name, "` only when the record is created."),
        SetterRole::Update => concat3("Assigns `", name, "` only when the conflict target matches an existing record."),
        SetterRole::Incoming => concat3("Returns an expression referencing the proposed `", name, "` value."),
    }
}

/// Whether `v` holds `x`.
fn holds(v: &Vec<usize>, x: usize) -> (r: bool)
    ensures
        r == v@.contains(x),
{
    let mut i: usize = 0;
    while i < v.len()
        invariant
            i <= v@.len(),
            forall|j: int| 0 <= j < i ==> v@[j] != x,
        decreases v.len() - i,
    {
        if v[i] == x {
            assert(v@[i as int] == x);
            return true;
        }
        i = i + 1;
    }
    false
}

/// The roles of the fields outside `target`.
fn field_roles(model: &Model, target: &Vec<usize>) -> (r: (Vec<(usize, DefaultAction)>, Vec<usize>, Vec<usize>))
    ensures
        r.0@ == defaults_from(model.view().fields, target@, model.fields@.len() as int),
        r.1@ == setters_from(model.view().fields, target@, model.fields@.len() as int),
        r.2@ == plain_from(model.view().fields, model.fields@.len() as int),
{
    let ghost fv = model.view().fields;
    let mut defaults: Vec<(usize, DefaultAction)> = Vec::new();
    let mut setters: Vec<usize> = Vec::new();
    let mut plain: Vec<usize> = Vec::new();
    let mut k: usize = 0;
    while k < model.fields.len()
        invariant
            k <= model.fields@.len(),
            fv == model.view().fields,
            fv.len() == model.fields@.len(),
            defaults@ == defaults_from(fv, target@, k as int),
            setters@ == setters_from(fv, target@, k as int),
            plain@ == plain_from(fv, k as int),
        decreases model.fields.len() - k,
    {
        let f = &model.fields[k];
        assert(fv[k as int] == f.view());
        let is_plain = match f.ty {
            FieldTy::Primitive => true,
            _ => false,
        };
        let in_target = holds(target, k);
        if is_plain {
            plain.push(k);
            if !in_target {
                setters.push(k);
                let action = match (&f.attrs.default_expr, &f.attrs.update_expr) {
                    (Some(_), Some(_)) => Some(DefaultAction::CreateAndUpdate),
                    (Some(_), None) => Some(DefaultAction::CreateOnly),
                    (None, Some(_)) => Some(DefaultAction::Shared),
                    (None, None) => None,
                };
                match action {
                    Some(a) => defaults.push((k, a)),
                    None => {},
                }
            }
        }
        k = k + 1;
    }
    (defaults, setters, plain)
}

/// The upsert builder of `target`, whose fields are fields of the model.
fn plan(model: &Model, syms: &Vec<String>, target: Vec<usize>) -> (r: UpsertPlan)
    requires
        forall|j: int| 0 <= j < target@.len() ==> #[trigger] target@[j] < model.fields@.len(),
    ensures
        r.view() == upsert_plan(model.view(), syms@, target@),
{
    let ghost fv = model.view().fields;
    let ghost names = target_names(syms@, fv, target@);
    let mut parts: Vec<String> = Vec::new();
    let mut camel: Vec<String> = Vec::new();
    let mut j: usize = 0;
    while j < target.len()
        invariant
            j <= target@.len(),
            fv == model.view().fields,
            fv.len() == model.fields@.len(),
            names == target_names(syms@, fv, target@),
            forall|t: int| 0 <= t < target@.len() ==> #[trigger] target@[t] < model.fields@.len(),
            parts@.len() == j,
            camel@.len() == j,
            forall|t: int| 0 <= t < j ==> #[trigger] parts@[t]@ == names[t],
            forall|t: int| 0 <= t < j ==> #[trigger] camel@[t]@ == upper_camel_case_of(names[t]),
        decreases target.len() - j,
    {
        let f = &model.fields[target[j]];
        assert(fv[target@[j as int] as int] == f.view());
        let n = field_name_string(syms, f.name);
        let c = to_upper_camel_case(n.as_str());
        parts.push(n);
        camel.push(c);
        j = j + 1;
    }
    assert(parts@.map_values(|p: String| p@) =~= names);
    assert(camel@.map_values(|p: String| p@) =~= names.map_values(|s: Seq<char>| upper_camel_case_of(s)));
    let target_name = join_strings(&parts, "_and_");
    let suffix = join_strings(&camel, "And");
    let model_name = sym_string(syms, model.ident);
    let m = model_name.as_str();
    let tn = target_name.as_str();
    let builder = concat3(m, "UpsertBy", suffix.as_str());
    let b = builder.as_str();
    let method_doc = {
        let a = concat3("Returns a builder that creates `", m, "` or updates the record whose `");
        concat3(a.as_str(), tn, "` constraint matches.\n\nThe target arguments initialize a new record \
            and remain unchanged when an existing record is updated.")
    };
    let builder_doc = {
        let a = concat3("Builds one atomic create-or-update operation for `", m, "` using the `");
        concat3(a.as_str(), tn, "` conflict target.")
    };
    let update_doc = {
        let a = concat3("Assigns fields only when the `", tn, "` target matches an existing `");
        concat3(a.as_str(), m, "` record.")
    };
    let ignore_doc = {
        let a = concat3("Builds an insert-or-ignore operation for `", m, "` using the `");
        concat3(a.as_str(), tn, "` conflict target.")
    };
    let (defaults, setters, incoming) = field_roles(model, &target);
    UpsertPlan {
        method_name: concat("upsert_by_", tn),
        create_builder: concat(b, "Create"),
        update_builder: concat(b, "Update"),
        incoming_builder: concat(b, "Incoming"),
        ignore_builder: concat(b, "OrIgnore"),
        method_doc,
        builder_doc,
        create_doc: concat3("Sets values used only when the `", m, "` record is created."),
        update_doc,
        incoming_doc: concat3("References values proposed for the new `", m, "` record from `on_update`."),
        ignore_doc,
        defaults,
        setters,
        incoming,
        builder,
        target_name,
        target,
    }
}

impl UpsertPlan {
    /// The upsert builders of a model: one for each unique index made of
    /// plain fields, in index order.
    pub fn build_model_upserts(model: &Model, syms: &Vec<String>) -> (r: Vec<UpsertPlan>)
        requires
            model.wf(),
        ensures
            r@.len() == upsert_targets(model.view()).len(),
            forall|i: int| 0 <= i < r@.len() ==> (#[trigger] r@[i]).view() == upsert_plan(model.view(), syms@, upsert_targets(model.view())[i]),
    {
        let ghost m = model.view();
        let mut out: Vec<UpsertPlan> = Vec::new();
        let mut k: usize = 0;
        while k < model.indices.len()
            invariant
                k <= model.indices@.len(),
                m == model.view(),
                m.wf(),
                m.indices.len() == model.indices@.len(),
                m.fields.len() == model.fields@.len(),
                out@.len() == targets_from(m, k as int).len(),
                forall|i: int| 0 <= i < out@.len() ==> (#[trigger] out@[i]).view() == upsert_plan(m, syms@, targets_from(m, k as int)[i]),
            decreases model.indices.len() - k,
        {
            let ix = &model.indices[k];
            assert(m.indices[k as int] == ix.view());
            let ghost ixv = ix.view();
            assert(crate::schema::model::index_below(ixv, m.fields.len() as int));
            let mut plain = true;
            let mut fs: Vec<usize> = Vec::new();
            let mut j: usize = 0;
            while j < ix.fields.len()
                invariant
                    j <= ix.fields@.len(),
                    ixv == ix.view(),
                    ixv.fields == ix.fields@,
                    m == model.view(),
                    m.fields.len() == model.fields@.len(),
                    crate::schema::model::index_below(ixv, m.fields.len() as int),
                    fs@ == ixv.fields.subrange(0, j as int).map_values(|f: IndexField| f.field),
                    plain == (forall|t: int| 0 <= t < j ==> (#[trigger] m.fields[ixv.fields[t].field as int]).ty is Primitive),
                decreases ix.fields.len() - j,
            {
                let p = ix.fields[j].field;
                assert(ixv.fields[j as int].field < m.fields.len());
                assert(m.fields[p as int] == model.fields@[p as int].view());
                let is_plain = match model.fields[p].ty {
                    FieldTy::Primitive => true,
                    _ => false,
                };
                proof {
                    assert(ixv.fields.subrange(0, j + 1).map_values(|f: IndexField| f.field)
                        =~= ixv.fields.subrange(0, j as int).map_values(|f: IndexField| f.field).push(p));
                }
                if !is_plain {
                    assert(!(m.fields[ixv.fields[j as int].field as int].ty is Primitive));
                }
                plain = plain && is_plain;
                fs.push(p);
                j = j + 1;
            }
            assert(ixv.fields.subrange(0, j as int) =~= ixv.fields);
            let ghost before = out@;
            if ix.unique && plain {
                proof {
                    assert(forall|t: int| 0 <= t < fs@.len() ==> #[trigger] fs@[t] == ixv.fields[t].field);
                    assert(fs@ == index_positions(ixv));
                }
                let p = plan(model, syms, fs);
                out.push(p);
                proof {
                    assert(targets_from(m, k + 1) == targets_from(m, k as int).push(index_positions(ixv)));
                    assert forall|i: int| 0 <= i < out@.len() implies (#[trigger] out@[i]).view() == upsert_plan(m, syms@, targets_from(m, k + 1)[i]) by {
                        if i < before.len() {
                            assert(out@[i] == before[i]);
                        }
                    }
                }
            } else {
                assert(targets_from(m, k + 1) == targets_from(m, k as int));
            }
            k = k + 1;
        }
        out
    }
}

/// The pieces of an upsert builder that repeat per field.
#[derive(Clone, Copy, PartialEq, Eq, Debug, Structural)]
pub enum UpsertItem {
    TargetArg,
    TargetIndex,
    TargetSet,
    Shared,
    Create,
    Update,
    Incoming,
}

/// The code of one repeated piece for field `k`.
pub open spec fn upsert_item(syms: Seq<String>, fields: Seq<FieldV>, kind: UpsertItem, k: usize) -> Seq<GenV> {
    match kind {
        UpsertItem::TargetArg => seq![GenV::Text(field_ident_at(syms, fields, k as int))]
            + c(": impl IntoExpr<FieldExprTarget<"@)
            + seq![GenV::FieldTy(k)]
            + c(">>, "@),
        UpsertItem::TargetIndex => seq![GenV::Int(k)] + c(", "@),
        UpsertItem::TargetSet => c("stmt.set_create("@)
            + seq![GenV::Int(k)]
            + c(", _toasty::codegen_support::into_untyped_expr::<<"@)
            + seq![GenV::FieldTy(k)]
            + c(" as _toasty::codegen_support::Field>::ExprTarget, _>("@)
            + seq![GenV::Text(field_ident_at(syms, fields, k as int))]
            + c(")); "@),
        UpsertItem::Shared => c("#[doc = "@)
            + seq![GenV::Str(setter_doc(SetterRole::Shared, field_ident_at(syms, fields, k as int)))]
            + c("] pub fn "@)
            + seq![GenV::Text(field_ident_at(syms, fields, k as int))]
            + c("(mut self, "@)
            + seq![GenV::Text(field_ident_at(syms, fields, k as int))]
            + c(": impl Assign<FieldExprTarget<"@)
            + seq![GenV::FieldTy(k)]
            + c(">>) -> Self { "@)
            + seq![GenV::Text(field_ident_at(syms, fields, k as int))]
            + c(".assign(self.stmt.update_assignments_mut(), _toasty::codegen_support::stmt::Projection::from_index("@)
            + seq![GenV::Int(k)]
            + c(")); self.stmt.sync_create_from_update("@)
            + seq![GenV::Int(k)]
            + c("); self } "@),
        UpsertItem::Create => c("#[doc = "@)
            + seq![GenV::Str(setter_doc(SetterRole::Create, field_ident_at(syms, fields, k as int)))]
            + c("] pub fn "@)
            + seq![GenV::Text(field_ident_at(syms, fields, k as int))]
            + c("(mut self, "@)
            + seq![GenV::Text(field_ident_at(syms, fields, k as int))]
            + c(": impl IntoExpr<FieldExprTarget<"@)
            + seq![GenV::FieldTy(k)]
            + c(">>) -> Self { self.stmt.set_create("@)
            + seq![GenV::Int(k)]
            + c(", _toasty::codegen_support::into_untyped_expr::<<"@)
            + seq![GenV::FieldTy(k)]
            + c(" as _toasty::codegen_support::Field>::ExprTarget, _>("@)
            + seq![GenV::Text(field_ident_at(syms, fields, k as int))]
            + c(")); self } "@),
        UpsertItem::Update => c("#[doc = "@)
            + seq![GenV::Str(setter_doc(SetterRole::Update, field_ident_at(syms, fields, k as int)))]
            + c("] pub fn "@)
            + seq![GenV::Text(field_ident_at(syms, fields, k as int))]
            + c("(mut self, "@)
            + seq![GenV::Text(field_ident_at(syms, fields, k as int))]
            + c(": impl Assign<FieldExprTarget<"@)
            + seq![GenV::FieldTy(k)]
            + c(">>) -> Self { "@)
            + seq![GenV::Text(field_ident_at(syms, fields, k as int))]
            + c(".assign(self.stmt.update_assignments_mut(), _toasty::codegen_support::stmt::Projection::from_index("@)
            + seq![GenV::Int(k)]
            + c(")); self } "@),
        UpsertItem::Incoming => c("#[doc = "@)
            + seq![GenV::Str(setter_doc(SetterRole::Incoming, field_ident_at(syms, fields, k as int)))]
            + c("] pub fn "@)
            + seq![GenV::Text(field_ident_at(syms, fields, k as int))]
            + c("(self) -> _toasty::codegen_support::stmt::Expr<FieldExprTarget<"@)
            + seq![GenV::FieldTy(k)]
            + c(">> { _toasty::codegen_support::stmt::Expr::from_untyped(_toasty::codegen_support::core::stmt::FuncIncoming::field("@)
            + seq![GenV::Int(k)]
            + c(", <"@)
            + seq![GenV::FieldTy(k)]
            + c(" as _toasty::codegen_support::Load>::ty())) } "@),
    }
}

pub open spec fn upsert_items(syms: Seq<String>, fields: Seq<FieldV>, kind: UpsertItem, ks: Seq<usize>) -> Seq<GenV>
    decreases ks.len(),
{
    if ks.len() == 0 { Seq::empty() } else { upsert_items(syms, fields, kind, ks.drop_last()) + upsert_item(syms, fields, kind, ks.last()) }
}

/// The statements that apply a field's `#[default]` / `#[update]`.
pub open spec fn default_item(k: usize, a: DefaultAction) -> Seq<GenV> {
    match a {
        DefaultAction::CreateAndUpdate => c("stmt.set_create_default("@)
            + seq![GenV::Int(k)]
            + c(", _toasty::codegen_support::into_untyped_expr::<<"@)
            + seq![GenV::FieldTy(k)]
            + c(" as _toasty::codegen_support::Field>::ExprTarget, _>("@)
            + seq![GenV::DefaultExpr(k)]
            + c(")); stmt.update_assignments_mut().set(_toasty::codegen_support::stmt::Projection::from_index("@)
            + seq![GenV::Int(k)]
            + c("), _toasty::codegen_support::into_untyped_expr::<<"@)
            + seq![GenV::FieldTy(k)]
            + c(" as _toasty::codegen_support::Field>::ExprTarget, _>("@)
            + seq![GenV::UpdateExpr(k)]
            + c(")); "@),
        DefaultAction::CreateOnly => c("stmt.set_create_default("@)
            + seq![GenV::Int(k)]
            + c(", _toasty::codegen_support::into_untyped_expr::<<"@)
            + seq![GenV::FieldTy(k)]
            + c(" as _toasty::codegen_support::Field>::ExprTarget, _>("@)
            + seq![GenV::DefaultExpr(k)]
            + c(")); "@),
        DefaultAction::Shared => c("stmt.set_shared("@)
            + seq![GenV::Int(k)]
            + c(", _toasty::codegen_support::into_untyped_expr::<<"@)
            + seq![GenV::FieldTy(k)]
            + c(" as _toasty::codegen_support::Field>::ExprTarget, _>("@)
            + seq![GenV::UpdateExpr(k)]
            + c(")); "@),
    }
}

pub open spec fn default_items(ds: Seq<(usize, DefaultAction)>) -> Seq<GenV>
    decreases ds.len(),
{
    if ds.len() == 0 { Seq::empty() } else { default_items(ds.drop_last()) + default_item(ds.last().0, ds.last().1) }
}

/// The upsert method of the model and its builder types.
#[verifier::opaque]
pub open spec fn upsert_builder_out(m: ModelV, p: UpsertPlanV, syms: Seq<String>) -> Seq<GenV> {
    c("impl "@)
        + seq![GenV::Sym(m.ident)]
        + c(" { #[doc = "@)
        + seq![GenV::Str(p.method_doc)]
        + c("] pub fn "@)
        + seq![GenV::Text(p.method_name)]
        + c("("@)
        + upsert_items(syms, m.fields, UpsertItem::TargetArg, p.target)
        + c(") -> "@)
        + seq![GenV::Text(p.builder)]
        + c(" { let mut stmt = _toasty::codegen_support::stmt::Upsert::<"@)
        + seq![GenV::Sym(m.ident)]
        + c(">::blank(["@)
        + upsert_items(syms, m.fields, UpsertItem::TargetIndex, p.target)
        + c("]); "@)
        + default_items(p.defaults)
        + upsert_items(syms, m.fields, UpsertItem::TargetSet, p.target)
        + seq![GenV::Text(p.builder)]
        + c(" { stmt } } } #[derive(Clone)] #[doc = "@)
        + seq![GenV::Str(p.builder_doc)]
        + c("] pub struct "@)
        + seq![GenV::Text(p.builder)]
        + c(" { stmt: _toasty::codegen_support::stmt::Upsert<"@)
        + seq![GenV::Sym(m.ident)]
        + c(">, } impl "@)
        + seq![GenV::Text(p.builder)]
        + c(" { "@)
        + upsert_items(syms, m.fields, UpsertItem::Shared, p.setters)
        + c("#[doc = \"Adds assignments used only when the record is created.\\n\\nDatabase drivers that \
            do not support branch-specific upsert assignments return `unsupported_feature` at execution.\"] \
            pub fn on_create(mut self, f: impl for<'a> FnOnce("@)
        + seq![GenV::Text(p.create_builder)]
        + c("<'a>) -> "@)
        + seq![GenV::Text(p.create_builder)]
        + c("<'a>) -> Self { self.stmt.mark_explicit_create(); let branch = "@)
        + seq![GenV::Text(p.create_builder)]
        + c(" { stmt: &mut self.stmt }; let _ = f(branch); self } #[doc = \"Adds assignments used only \
            when the conflict target matches an existing record.\\n\\nThe closure accepts the same assignment \
            operators as a normal update. Database drivers that do not support branch-specific upsert \
            assignments return `unsupported_feature` at execution.\"] pub fn on_update(mut self, f: impl \
            for<'a> FnOnce("@)
        + seq![GenV::Text(p.update_builder)]
        + c("<'a>) -> "@)
        + seq![GenV::Text(p.update_builder)]
        + c("<'a>) -> Self { self.stmt.mark_explicit_update(); let branch = "@)
        + seq![GenV::Text(p.update_builder)]
        + c(" { stmt: &mut self.stmt }; let _ = f(branch); self } #[doc = \"Leaves a record unchanged \
            when the selected conflict target matches.\\n\\nThe returned builder's `exec` method produces \
            `Some(model)` after an insert and `None` after a conflict.\"] pub fn or_ignore(mut self) \
            -> "@)
        + seq![GenV::Text(p.ignore_builder)]
        + c(" { self.stmt.set_ignore(); "@)
        + seq![GenV::Text(p.ignore_builder)]
        + c(" { stmt: self.stmt } } #[doc = \"Executes the upsert and returns the record stored by the \
            database.\"] pub async fn exec(self, executor: &mut dyn _toasty::codegen_support::Executor) \
            -> _toasty::codegen_support::Result<"@)
        + seq![GenV::Sym(m.ident)]
        + c("> { executor.exec(self.stmt.into()).await } } #[doc = "@)
        + seq![GenV::Str(p.create_doc)]
        + c("] pub struct "@)
        + seq![GenV::Text(p.create_builder)]
        + c("<'a> { stmt: &'a mut _toasty::codegen_support::stmt::Upsert<"@)
        + seq![GenV::Sym(m.ident)]
        + c(">, } impl<'a> "@)
        + seq![GenV::Text(p.create_builder)]
        + c("<'a> { "@)
        + upsert_items(syms, m.fields, UpsertItem::Create, p.setters)
        + c("} #[doc = "@)
        + seq![GenV::Str(p.update_doc)]
        + c("] pub struct "@)
        + seq![GenV::Text(p.update_builder)]
        + c("<'a> { stmt: &'a mut _toasty::codegen_support::stmt::Upsert<"@)
        + seq![GenV::Sym(m.ident)]
        + c(">, } impl<'a> "@)
        + seq![GenV::Text(p.update_builder)]
        + c("<'a> { #[doc = \"Returns field expressions for values proposed by the create branch.\"] pub fn incoming(&self) -> "@)
        + seq![GenV::Text(p.incoming_builder)]
        + c(" { "@)
        + seq![GenV::Text(p.incoming_builder)]
        + c(" } "@)
        + upsert_items(syms, m.fields, UpsertItem::Update, p.setters)
        + c("} #[derive(Clone, Copy)] #[doc = "@)
        + seq![GenV::Str(p.incoming_doc)]
        + c("] pub struct "@)
        + seq![GenV::Text(p.incoming_builder)]
        + c("; impl "@)
        + seq![GenV::Text(p.incoming_builder)]
        + c(" { "@)
        + upsert_items(syms, m.fields, UpsertItem::Incoming, p.incoming)
        + c("} #[doc = "@)
        + seq![GenV::Str(p.ignore_doc)]
        + c("] pub struct "@)
        + seq![GenV::Text(p.ignore_builder)]
        + c(" { stmt: _toasty::codegen_support::stmt::Upsert<"@)
        + seq![GenV::Sym(m.ident)]
        + c(">, } impl "@)
        + seq![GenV::Text(p.ignore_builder)]
        + c(" { #[doc = \"Executes the insert-or-ignore operation.\\n\\nReturns `Some(model)` when the \
            record is inserted and `None` when the selected target conflicts.\"] pub async fn exec(self, \
            executor: &mut dyn _toasty::codegen_support::Executor) -> _toasty::codegen_support::Result<Option<"@)
        + seq![GenV::Sym(m.ident)]
        + c(">> { let stmt = _toasty::codegen_support::Statement::<Option<"@)
        + seq![GenV::Sym(m.ident)]
        + c(">>::from_untyped_stmt(self.stmt.into_untyped()); executor.exec(stmt).await } } "@)
}

fn push_upsert_item(out: &mut Vec<Gen>, model: &Model, syms: &Vec<String>, kind: UpsertItem, k: usize)
    ensures
        gens_view(final(out)@) == gens_view(old(out)@) + upsert_item(syms@, model.view().fields, kind, k),
{
    let ghost start = gens_view(out@);
    match kind {
        UpsertItem::TargetArg => {
            push_gen(out, Gen::Text(field_ident_at_exec(model, syms, k)));
            push_code(out, ": impl IntoExpr<FieldExprTarget<");
            push_gen(out, Gen::FieldTy(k));
            push_code(out, ">>, ");
        },
        UpsertItem::TargetIndex => {
            push_gen(out, Gen::Int(k));
            push_code(out, ", ");
        },
        UpsertItem::TargetSet => {
            push_code(out, "stmt.set_create(");
            push_gen(out, Gen::Int(k));
            push_code(out, ", _toasty::codegen_support::into_untyped_expr::<<");
            push_gen(out, Gen::FieldTy(k));
            push_code(out, " as _toasty::codegen_support::Field>::ExprTarget, _>(");
            push_gen(out, Gen::Text(field_ident_at_exec(model, syms, k)));
            push_code(out, ")); ");
        },
        UpsertItem::Shared => {
            push_code(out, "#[doc = ");
            { let n = field_ident_at_exec(model, syms, k); push_gen(out, Gen::Str(upsert_setter_doc(SetterRole::Shared, n.as_str()))); }
            push_code(out, "] pub fn ");
            push_gen(out, Gen::Text(field_ident_at_exec(model, syms, k)));
            push_code(out, "(mut self, ");
            push_gen(out, Gen::Text(field_ident_at_exec(model, syms, k)));
            push_code(out, ": impl Assign<FieldExprTarget<");
            push_gen(out, Gen::FieldTy(k));
            push_code(out, ">>) -> Self { ");
            push_gen(out, Gen::Text(field_ident_at_exec(model, syms, k)));
            push_code(out, ".assign(self.stmt.update_assignments_mut(), _toasty::codegen_support::stmt::Projection::from_index(");
            push_gen(out, Gen::Int(k));
            push_code(out, ")); self.stmt.sync_create_from_update(");
            push_gen(out, Gen::Int(k));
            push_code(out, "); self } ");
        },
        UpsertItem::Create => {
            push_code(out, "#[doc = ");
            { let n = field_ident_at_exec(model, syms, k); push_gen(out, Gen::Str(upsert_setter_doc(SetterRole::Create, n.as_str()))); }
            push_code(out, "] pub fn ");
            push_gen(out, Gen::Text(field_ident_at_exec(model, syms, k)));
            push_code(out, "(mut self, ");
            push_gen(out, Gen::Text(field_ident_at_exec(model, syms, k)));
            push_code(out, ": impl IntoExpr<FieldExprTarget<");
            push_gen(out, Gen::FieldTy(k));
            push_code(out, ">>) -> Self { self.stmt.set_create(");
            push_gen(out, Gen::Int(k));
            push_code(out, ", _toasty::codegen_support::into_untyped_expr::<<");
            push_gen(out, Gen::FieldTy(k));
            push_code(out, " as _toasty::codegen_support::Field>::ExprTarget, _>(");
            push_gen(out, Gen::Text(field_ident_at_exec(model, syms, k)));
            push_code(out, ")); self } ");
        },
        UpsertItem::Update => {
            push_code(out, "#[doc = ");
            { let n = field_ident_at_exec(model, syms, k); push_gen(out, Gen::Str(upsert_setter_doc(SetterRole::Update, n.as_str()))); }
            push_code(out, "] pub fn ");
            push_gen(out, Gen::Text(field_ident_at_exec(model, syms, k)));
            push_code(out, "(mut self, ");
            push_gen(out, Gen::Text(field_ident_at_exec(model, syms, k)));
            push_code(out, ": impl Assign<FieldExprTarget<");
            push_gen(out, Gen::FieldTy(k));
            push_code(out, ">>) -> Self { ");
            push_gen(out, Gen::Text(field_ident_at_exec(model, syms, k)));
            push_code(out, ".assign(self.stmt.update_assignments_mut(), _toasty::codegen_support::stmt::Projection::from_index(");
            push_gen(out, Gen::Int(k));
            push_code(out, ")); self } ");
        },
        UpsertItem::Incoming => {
            push_code(out, "#[doc = ");
            { let n = field_ident_at_exec(model, syms, k); push_gen(out, Gen::Str(upsert_setter_doc(SetterRole::Incoming, n.as_str()))); }
            push_code(out, "] pub fn ");
            push_gen(out, Gen::Text(field_ident_at_exec(model, syms, k)));
            push_code(out, "(self) -> _toasty::codegen_support::stmt::Expr<FieldExprTarget<");
            push_gen(out, Gen::FieldTy(k));
            push_code(out, ">> { _toasty::codegen_support::stmt::Expr::from_untyped(_toasty::codegen_support::core::stmt::FuncIncoming::field(");
            push_gen(out, Gen::Int(k));
            push_code(out, ", <");
            push_gen(out, Gen::FieldTy(k));
            push_code(out, " as _toasty::codegen_support::Load>::ty())) } ");
        },
    }
    assert(gens_view(out@) =~= start + upsert_item(syms@, model.view().fields, kind, k));
}

fn push_upsert_items(out: &mut Vec<Gen>, model: &Model, syms: &Vec<String>, kind: UpsertItem, ks: &Vec<usize>)
    ensures
        gens_view(final(out)@) == gens_view(old(out)@) + upsert_items(syms@, model.view().fields, kind, ks@),
{
    let ghost start = gens_view(out@);
    let ghost fv = model.view().fields;
    let mut i: usize = 0;
    while i < ks.len()
        invariant
            i <= ks@.len(),
            fv == model.view().fields,
            gens_view(out@) == start + upsert_items(syms@, fv, kind, ks@.subrange(0, i as int)),
        decreases ks.len() - i,
    {
        push_upsert_item(out, model, syms, kind, ks[i]);
        assert(ks@.subrange(0, i + 1).drop_last() =~= ks@.subrange(0, i as int));
        i = i + 1;
        assert(gens_view(out@) =~= start + upsert_items(syms@, fv, kind, ks@.subrange(0, i as int)));
    }
    assert(ks@.subrange(0, i as int) =~= ks@);
}

fn push_default_item(out: &mut Vec<Gen>, k: usize, a: DefaultAction)
    ensures
        gens_view(final(out)@) == gens_view(old(out)@) + default_item(k, a),
{
    let ghost start = gens_view(out@);
    match a {
        DefaultAction::CreateAndUpdate => {
            push_code(out, "stmt.set_create_default(");
            push_gen(out, Gen::Int(k));
            push_code(out, ", _toasty::codegen_support::into_untyped_expr::<<");
            push_gen(out, Gen::FieldTy(k));
            push_code(out, " as _toasty::codegen_support::Field>::ExprTarget, _>(");
            push_gen(out, Gen::DefaultExpr(k));
            push_code(out, ")); stmt.update_assignments_mut().set(_toasty::codegen_support::stmt::Projection::from_index(");
            push_gen(out, Gen::Int(k));
            push_code(out, "), _toasty::codegen_support::into_untyped_expr::<<");
            push_gen(out, Gen::FieldTy(k));
            push_code(out, " as _toasty::codegen_support::Field>::ExprTarget, _>(");
            push_gen(out, Gen::UpdateExpr(k));
            push_code(out, ")); ");
        },
        DefaultAction::CreateOnly => {
            push_code(out, "stmt.set_create_default(");
            push_gen(out, Gen::Int(k));
            push_code(out, ", _toasty::codegen_support::into_untyped_expr::<<");
            push_gen(out, Gen::FieldTy(k));
            push_code(out, " as _toasty::codegen_support::Field>::ExprTarget, _>(");
            push_gen(out, Gen::DefaultExpr(k));
            push_code(out, ")); ");
        },
        DefaultAction::Shared => {
            push_code(out, "stmt.set_shared(");
            push_gen(out, Gen::Int(k));
            push_code(out, ", _toasty::codegen_support::into_untyped_expr::<<");
            push_gen(out, Gen::FieldTy(k));
            push_code(out, " as _toasty::codegen_support::Field>::ExprTarget, _>(");
            push_gen(out, Gen::UpdateExpr(k));
            push_code(out, ")); ");
        },
    }
    assert(gens_view(out@) =~= start + default_item(k, a));
}

fn push_default_items(out: &mut Vec<Gen>, ds: &Vec<(usize, DefaultAction)>)
    ensures
        gens_view(final(out)@) == gens_view(old(out)@) + default_items(ds@),
{
    let ghost start = gens_view(out@);
    let mut i: usize = 0;
    while i < ds.len()
        invariant
            i <= ds@.len(),
            gens_view(out@) == start + default_items(ds@.subrange(0, i as int)),
        decreases ds.len() - i,
    {
        push_default_item(out, ds[i].0, ds[i].1);
        assert(ds@.subrange(0, i + 1).drop_last() =~= ds@.subrange(0, i as int));
        i = i + 1;
        assert(gens_view(out@) =~= start + default_items(ds@.subrange(0, i as int)));
    }
    assert(ds@.subrange(0, i as int) =~= ds@);
}

/// The upsert method of the model for one plan, and its builder types.
#[verifier::rlimit(100)]
#[verifier::spinoff_prover]
pub fn expand_upsert_builder(model: &Model, plan: &UpsertPlan, syms: &Vec<String>) -> (r: Vec<Gen>)
    ensures
        gens_view(r@) == upsert_builder_out(model.view(), plan.view(), syms@),
{
    proof {
        reveal(upsert_builder_out);
    }
    let ghost m = model.view();
    let ghost p = plan.view();
    let mut out: Vec<Gen> = Vec::new();
    proof {
        crate::gen::lemma_gens_empty(out@);
    }

    push_code(&mut out, "impl ");
    push_gen(&mut out, Gen::Sym(model.ident));
    push_code(&mut out, " { #[doc = ");
    push_gen(&mut out, Gen::Str(crate::text::string_of(plan.method_doc.as_str())));
    push_code(&mut out, "] pub fn ");
    push_gen(&mut out, Gen::Text(crate::text::string_of(plan.method_name.as_str())));
    push_code(&mut out, "(");
    push_upsert_items(&mut out, model, syms, UpsertItem::TargetArg, &plan.target);
    push_code(&mut out, ") -> ");
    push_gen(&mut out, Gen::Text(crate::text::string_of(plan.builder.as_str())));
    push_code(&mut out, " { let mut stmt = _toasty::codegen_support::stmt::Upsert::<");
    push_gen(&mut out, Gen::Sym(model.ident));
    push_code(&mut out, ">::blank([");
    push_upsert_items(&mut out, model, syms, UpsertItem::TargetIndex, &plan.target);
    push_code(&mut out, "]); ");
    push_default_items(&mut out, &plan.defaults);
    push_upsert_items(&mut out, model, syms, UpsertItem::TargetSet, &plan.target);
    push_gen(&mut out, Gen::Text(crate::text::string_of(plan.builder.as_str())));
    push_code(&mut out, " { stmt } } } #[derive(Clone)] #[doc = ");
    push_gen(&mut out, Gen::Str(crate::text::string_of(plan.builder_doc.as_str())));
    push_code(&mut out, "] pub struct ");
    push_gen(&mut out, Gen::Text(crate::text::string_of(plan.builder.as_str())));
    push_code(&mut out, " { stmt: _toasty::codegen_support::stmt::Upsert<");
    push_gen(&mut out, Gen::Sym(model.ident));
    push_code(&mut out, ">, } impl ");
    push_gen(&mut out, Gen::Text(crate::text::string_of(plan.builder.as_str())));
    push_code(&mut out, " { ");
    push_upsert_items(&mut out, model, syms, UpsertItem::Shared, &plan.setters);
    push_code(&mut out, "#[doc = \"Adds assignments used only when the record is created.\\n\\nDatabase drivers \
    that do not support branch-specific upsert assignments return `unsupported_feature` at execution.\"] \
    pub fn on_create(mut self, f: impl for<'a> FnOnce(");
    push_gen(&mut out, Gen::Text(crate::text::string_of(plan.create_builder.as_str())));
    push_code(&mut out, "<'a>) -> ");
    push_gen(&mut out, Gen::Text(crate::text::string_of(plan.create_builder.as_str())));
    push_code(&mut out, "<'a>) -> Self { self.stmt.mark_explicit_create(); let branch = ");
    push_gen(&mut out, Gen::Text(crate::text::string_of(plan.create_builder.as_str())));
    push_code(&mut out, " { stmt: &mut self.stmt }; let _ = f(branch); self } #[doc = \"Adds assignments \
    used only when the conflict target matches an existing record.\\n\\nThe closure accepts the same \
    assignment operators as a normal update. Database drivers that do not support branch-specific upsert \
    assignments return `unsupported_feature` at execution.\"] pub fn on_update(mut self, f: impl for<'a> \
    FnOnce(");
    push_gen(&mut out, Gen::Text(crate::text::string_of(plan.update_builder.as_str())));
    push_code(&mut out, "<'a>) -> ");
    push_gen(&mut out, Gen::Text(crate::text::string_of(plan.update_builder.as_str())));
    push_code(&mut out, "<'a>) -> Self { self.stmt.mark_explicit_update(); let branch = ");
    push_gen(&mut out, Gen::Text(crate::text::string_of(plan.update_builder.as_str())));
    push_code(&mut out, " { stmt: &mut self.stmt }; let _ = f(branch); self } #[doc = \"Leaves a record unchanged \
    when the selected conflict target matches.\\n\\nThe returned builder's `exec` method produces `Some(model)` \
    after an insert and `None` after a conflict.\"] pub fn or_ignore(mut self) -> ");
    push_gen(&mut out, Gen::Text(crate::text::string_of(plan.ignore_builder.as_str())));
    push_code(&mut out, " { self.stmt.set_ignore(); ");
    push_gen(&mut out, Gen::Text(crate::text::string_of(plan.ignore_builder.as_str())));
    push_code(&mut out, " { stmt: self.stmt } } #[doc = \"Executes the upsert and returns the record stored \
    by the database.\"] pub async fn exec(self, executor: &mut dyn _toasty::codegen_support::Executor) \
    -> _toasty::codegen_support::Result<");
    push_gen(&mut out, Gen::Sym(model.ident));
    push_code(&mut out, "> { executor.exec(self.stmt.into()).await } } #[doc = ");
    push_gen(&mut out, Gen::Str(crate::text::string_of(plan.create_doc.as_str())));
    push_code(&mut out, "] pub struct ");
    push_gen(&mut out, Gen::Text(crate::text::string_of(plan.create_builder.as_str())));
    push_code(&mut out, "<'a> { stmt: &'a mut _toasty::codegen_support::stmt::Upsert<");
    push_gen(&mut out, Gen::Sym(model.ident));
    push_code(&mut out, ">, } impl<'a> ");
    push_gen(&mut out, Gen::Text(crate::text::string_of(plan.create_builder.as_str())));
    push_code(&mut out, "<'a> { ");
    push_upsert_items(&mut out, model, syms, UpsertItem::Create, &plan.setters);
    push_code(&mut out, "} #[doc = ");
    push_gen(&mut out, Gen::Str(crate::text::string_of(plan.update_doc.as_str())));
    push_code(&mut out, "] pub struct ");
    push_gen(&mut out, Gen::Text(crate::text::string_of(plan.update_builder.as_str())));
    push_code(&mut out, "<'a> { stmt: &'a mut _toasty::codegen_support::stmt::Upsert<");
    push_gen(&mut out, Gen::Sym(model.ident));
    push_code(&mut out, ">, } impl<'a> ");
    push_gen(&mut out, Gen::Text(crate::text::string_of(plan.update_builder.as_str())));
    push_code(&mut out, "<'a> { #[doc = \"Returns field expressions for values proposed by the create branch.\"] pub fn incoming(&self) -> ");
    push_gen(&mut out, Gen::Text(crate::text::string_of(plan.incoming_builder.as_str())));
    push_code(&mut out, " { ");
    push_gen(&mut out, Gen::Text(crate::text::string_of(plan.incoming_builder.as_str())));
    push_code(&mut out, " } ");
    push_upsert_items(&mut out, model, syms, UpsertItem::Update, &plan.setters);
    push_code(&mut out, "} #[derive(Clone, Copy)] #[doc = ");
    push_gen(&mut out, Gen::Str(crate::text::string_of(plan.incoming_doc.as_str())));
    push_code(&mut out, "] pub struct ");
    push_gen(&mut out, Gen::Text(crate::text::string_of(plan.incoming_builder.as_str())));
    push_code(&mut out, "; impl ");
    push_gen(&mut out, Gen::Text(crate::text::string_of(plan.incoming_builder.as_str())));
    push_code(&mut out, " { ");
    push_upsert_items(&mut out, model, syms, UpsertItem::Incoming, &plan.incoming);
    push_code(&mut out, "} #[doc = ");
    push_gen(&mut out, Gen::Str(crate::text::string_of(plan.ignore_doc.as_str())));
    push_code(&mut out, "] pub struct ");
    push_gen(&mut out, Gen::Text(crate::text::string_of(plan.ignore_builder.as_str())));
    push_code(&mut out, " { stmt: _toasty::codegen_support::stmt::Upsert<");
    push_gen(&mut out, Gen::Sym(model.ident));
    push_code(&mut out, ">, } impl ");
    push_gen(&mut out, Gen::Text(crate::text::string_of(plan.ignore_builder.as_str())));
    push_code(&mut out, " { #[doc = \"Executes the insert-or-ignore operation.\\n\\nReturns `Some(model)` \
    when the record is inserted and `None` when the selected target conflicts.\"] pub async fn exec(self, \
    executor: &mut dyn _toasty::codegen_support::Executor) -> _toasty::codegen_support::Result<Option<");
    push_gen(&mut out, Gen::Sym(model.ident));
    push_code(&mut out, ">> { let stmt = _toasty::codegen_support::Statement::<Option<");
    push_gen(&mut out, Gen::Sym(model.ident));
    push_code(&mut out, ">>::from_untyped_stmt(self.stmt.into_untyped()); executor.exec(stmt).await } } ");
    assert(gens_view(out@) =~= upsert_builder_out(m, p, syms@));
    out
}

} // verus!
