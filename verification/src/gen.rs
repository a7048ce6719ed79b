//! Code generated for a validated model, as a sequence of pieces: fixed
//! source text, computed identifiers, string literals, and references to
//! the model's own symbols, field types and attribute expressions. The
//! pieces are joined without separators, so fixed text carries its own
//! spaces.
use vstd::prelude::*;

use crate::case::has_raw_prefix;
use crate::schema::field::{field_name, field_name_src, FieldV};
use crate::schema::name::{ident_text_of, snake_name};

verus! {

/// One piece of generated code.
#[derive(Debug)]
pub enum Gen {
    /// Fixed source text.
    Code(&'static str),
    /// Computed text, such as an identifier.
    Text(String),
    /// A string literal with this value.
    Str(String),
    /// The text of a symbol (an identifier of the input).
    Sym(usize),
    /// The type of the model's field at this position, as written (with
    /// `Self` replaced by the model's name).
    FieldTy(usize),
    /// The `#[default]` expression of the field at this position.
    DefaultExpr(usize),
    /// The `#[update]` expression of the field at this position.
    UpdateExpr(usize),
    /// An integer literal.
    Int(usize),
    /// An integer literal of a wider value.
    Num(u64),
}

pub enum GenV {
    Code(Seq<char>),
    Text(Seq<char>),
    Str(Seq<char>),
    Sym(usize),
    FieldTy(usize),
    DefaultExpr(usize),
    UpdateExpr(usize),
    Int(usize),
    Num(u64),
}

impl Gen {
    pub open spec fn view(&self) -> GenV {
        match self {
            Gen::Code(s) => GenV::Code(s@),
            Gen::Text(s) => GenV::Text(s@),
            Gen::Str(s) => GenV::Str(s@),
            Gen::Sym(k) => GenV::Sym(*k),
            Gen::FieldTy(k) => GenV::FieldTy(*k),
            Gen::DefaultExpr(k) => GenV::DefaultExpr(*k),
            Gen::UpdateExpr(k) => GenV::UpdateExpr(*k),
            Gen::Int(n) => GenV::Int(*n),
            Gen::Num(n) => GenV::Num(*n),
        }
    }
}

#[verifier::opaque]
pub open spec fn gens_view(v: Seq<Gen>) -> Seq<GenV> {
    v.map_values(|g: Gen| g.view())
}

/// No pieces.
pub proof fn lemma_gens_empty(v: Seq<Gen>)
    requires
        v.len() == 0,
    ensures
        gens_view(v) == Seq::<GenV>::empty(),
{
    reveal(gens_view);
    assert(gens_view(v) =~= Seq::<GenV>::empty());
}

/// Fixed text.
pub open spec fn c(s: Seq<char>) -> Seq<GenV> {
    seq![GenV::Code(s)]
}

/// The path prefix of the runtime support items.
pub open spec fn toasty() -> Seq<char> {
    "_toasty::codegen_support"@
}

/// The identifier of a field's name: its snake-case form, raw when the
/// field's identifier is.
pub open spec fn field_ident_text(syms: Seq<String>, f: FieldV) -> Seq<char> {
    let src = field_name_src(syms, f.name);
    ident_text_of(snake_name(src), has_raw_prefix(src))
}

/// Appends one piece.
pub fn push_gen(out: &mut Vec<Gen>, g: Gen)
    ensures
        gens_view(final(out)@) == gens_view(old(out)@) + seq![g.view()],
{
    let ghost v = g.view();
    out.push(g);
    proof {
        reveal(gens_view);
    }
    assert(gens_view(out@) =~= gens_view(old(out)@) + seq![v]);
}

/// Appends fixed text.
pub fn push_code(out: &mut Vec<Gen>, s: &'static str)
    ensures
        gens_view(final(out)@) == gens_view(old(out)@) + c(s@),
{
    push_gen(out, Gen::Code(s));
}

/// The identifier text of a field's name.
pub fn field_ident_string(syms: &Vec<String>, f: &crate::schema::field::Field) -> (r: String)
    ensures
        r@ == field_ident_text(syms@, f.view()),
{
    let n = field_name(syms, f.name);
    n.ident_text()
}

/// The identifier text of the field at `k`, or nothing when there is no
/// such field.
pub open spec fn field_ident_at(syms: Seq<String>, fields: Seq<FieldV>, k: int) -> Seq<char> {
    if 0 <= k < fields.len() { field_ident_text(syms, fields[k]) } else { Seq::empty() }
}

pub fn field_ident_at_exec(model: &crate::schema::model::Model, syms: &Vec<String>, k: usize) -> (r: String)
    ensures
        r@ == field_ident_at(syms@, model.view().fields, k as int),
{
    if k < model.fields.len() {
        assert(model.view().fields[k as int] == model.fields@[k as int].view());
        field_ident_string(syms, &model.fields[k])
    } else {
        String::new()
    }
}

} // verus!
