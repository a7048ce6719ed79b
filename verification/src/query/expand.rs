//! Expanding a parsed `query!` into query-builder calls:
//!
//! ```text
//! query!(User)                       User::all()
//! query!(User FILTER .name == "A")   User::filter(User::fields().name().eq("A"))
//! query!(User ORDER BY .name ASC)    { let mut q = User::all(); q = q.order_by(User::fields().name().asc()); q }
//! query!(User OFFSET 5 LIMIT 10)     { let mut q = User::all(); q = q.limit(10); q = q.offset(5); q }
//! ```
//!
//! `limit` is applied before `offset`, as the builder requires.
use vstd::prelude::*;

use super::parse::{CompareOpKind, Expr, FieldPath, LitRef, OrderDirection, PaginationExpr, QueryInput};
use crate::emit::{
    copies, method_call, parens, path_sep, punct, push_copies, push_empty_call, push_path_sep,
    push_punct, push_word, OutTok, Word,
};
use crate::tokens::Delim;

verus! {

/// `.seg()` for each segment identifier at `j`, `j + 2`, ... below `end`.
pub open spec fn segs_out(j: int, end: int) -> Seq<OutTok>
    decreases end + 1 - j,
{
    if j < end {
        method_call_copy(j) + segs_out(j + 2, end)
    } else {
        Seq::empty()
    }
}

/// `.x()` for the input identifier at `j`.
pub open spec fn method_call_copy(j: int) -> Seq<OutTok> {
    punct('.') + seq![OutTok::Copy(j as usize)] + parens(Seq::empty())
}

/// `Source::fields().a().b()` for the field path `.a.b`.
pub open spec fn field_out(s: int, e: int, fp: FieldPath) -> Seq<OutTok> {
    copies(s, e) + path_sep() + seq![OutTok::Word(Word::Fields)] + parens(Seq::empty()) + segs_out(fp.dot + 1, fp.end as int)
}

/// A literal as written (a `true` / `false` keyword in any case becomes the
/// boolean literal).
pub open spec fn lit_out(l: LitRef) -> Seq<OutTok> {
    match l {
        LitRef::Token(i) => seq![OutTok::Copy(i)],
        LitRef::Negative { minus, lit } => seq![OutTok::Copy(minus), OutTok::Copy(lit)],
        LitRef::Bool { value, .. } => seq![OutTok::Word(if value { Word::True } else { Word::False })],
    }
}

/// The method a comparison operator calls.
pub open spec fn compare_word(k: CompareOpKind) -> Word {
    match k {
        CompareOpKind::Eq => Word::Eq,
        CompareOpKind::Ne => Word::Ne,
        CompareOpKind::Gt => Word::Gt,
        CompareOpKind::Ge => Word::Ge,
        CompareOpKind::Lt => Word::Lt,
        CompareOpKind::Le => Word::Le,
    }
}

/// The builder expression of a filter; the model path is the input tokens
/// `s..e`.
pub open spec fn filter_out(s: int, e: int, x: Expr) -> Seq<OutTok>
    decreases x,
{
    match x {
        Expr::And(l, r) => filter_out(s, e, *l) + method_call(Word::And, filter_out(s, e, *r)),
        Expr::Or(l, r) => filter_out(s, e, *l) + method_call(Word::Or, filter_out(s, e, *r)),
        Expr::Not(y) => parens(filter_out(s, e, *y)) + method_call(Word::Not, Seq::empty()),
        Expr::BinaryOp(l, op, r) => filter_out(s, e, *l) + method_call(compare_word(op.kind), filter_out(s, e, *r)),
        Expr::Paren(y) => filter_out(s, e, *y),
        Expr::Field(fp) => field_out(s, e, fp),
        Expr::Lit(l) => lit_out(l),
        Expr::Var(i) => seq![OutTok::Copy(i)],
        Expr::RustExpr { start, end } => copies(start as int, end as int),
    }
}

/// A LIMIT / OFFSET value as written.
pub open spec fn page_out(p: PaginationExpr) -> Seq<OutTok> {
    match p {
        PaginationExpr::Lit(l) => lit_out(l),
        PaginationExpr::Var(i) => seq![OutTok::Copy(i)],
        PaginationExpr::RustExpr { start, end } => copies(start as int, end as int),
    }
}

/// `Source::filter(..)`, or `Source::all()` without a filter.
pub open spec fn base_out(q: QueryInput) -> Seq<OutTok> {
    let s = q.source_start as int;
    let e = q.source_end as int;
    match q.filter {
        Some(f) => copies(s, e) + path_sep() + seq![OutTok::Word(Word::Filter)] + parens(filter_out(s, e, f)),
        None => copies(s, e) + path_sep() + seq![OutTok::Word(Word::All)] + parens(Seq::empty()),
    }
}

/// `q = q.w(args);`
pub open spec fn stmt_out(w: Word, args: Seq<OutTok>) -> Seq<OutTok> {
    seq![OutTok::Word(Word::Q)] + punct('=') + seq![OutTok::Word(Word::Q)] + method_call(w, args) + punct(';')
}

/// The ORDER BY statement, if any.
pub open spec fn order_out(q: QueryInput) -> Seq<OutTok> {
    match q.order_by {
        Some(o) => stmt_out(Word::OrderBy, field_out(q.source_start as int, q.source_end as int, o.field) + method_call(
            if o.direction == OrderDirection::Asc { Word::Asc } else { Word::Desc },
            Seq::empty(),
        )),
        None => Seq::empty(),
    }
}

/// The statement applying an optional LIMIT / OFFSET value.
pub open spec fn page_stmt(w: Word, p: Option<PaginationExpr>) -> Seq<OutTok> {
    match p {
        Some(v) => stmt_out(w, page_out(v)),
        None => Seq::empty(),
    }
}

/// What `query!` expands to.
pub open spec fn query_out(q: QueryInput) -> Seq<OutTok> {
    if q.order_by is None && q.offset is None && q.limit is None {
        base_out(q)
    } else {
        seq![OutTok::Open(Delim::Brace), OutTok::Word(Word::Let), OutTok::Word(Word::Mut), OutTok::Word(Word::Q)] + punct('=') + base_out(q) + punct(';')
            + order_out(q) + page_stmt(Word::Limit, q.limit) + page_stmt(Word::Offset, q.offset)
            + seq![OutTok::Word(Word::Q), OutTok::Close(Delim::Brace)]
    }
}

fn push_field(s: usize, e: usize, fp: FieldPath, out: &mut Vec<OutTok>)
    ensures
        final(out)@ == old(out)@ + field_out(s as int, e as int, fp),
{
    let ghost start = out@;
    push_copies(s, e, out);
    push_path_sep(out);
    push_word(Word::Fields, out);
    out.push(OutTok::Open(Delim::Paren));
    out.push(OutTok::Close(Delim::Paren));
    let ghost head = out@;
    assert(head =~= start + copies(s as int, e as int) + path_sep() + seq![OutTok::Word(Word::Fields)] + parens(Seq::empty()));
    if fp.dot >= fp.end {
        assert(segs_out(fp.dot + 1, fp.end as int) =~= Seq::empty());
        assert(out@ =~= head + segs_out(fp.dot + 1, fp.end as int));
        return;
    }
    let mut j: usize = fp.dot + 1;
    while j < fp.end
        invariant
            out@ + segs_out(j as int, fp.end as int) == head + segs_out(fp.dot + 1, fp.end as int),
        decreases fp.end - j,
    {
        let ghost before = out@;
        out.push(OutTok::Punct { ch: '.', joint: false });
        out.push(OutTok::Copy(j));
        out.push(OutTok::Open(Delim::Paren));
        out.push(OutTok::Close(Delim::Paren));
        assert(out@ =~= before + method_call_copy(j as int));
        assert(segs_out(j as int, fp.end as int) == method_call_copy(j as int) + segs_out(j + 2, fp.end as int));
        if fp.end - j <= 2 {
            assert(segs_out(j + 2, fp.end as int) =~= Seq::empty());
            assert(segs_out(fp.end as int, fp.end as int) =~= Seq::empty());
            j = fp.end;
        } else {
            j = j + 2;
        }
        assert(out@ + segs_out(j as int, fp.end as int) =~= head + segs_out(fp.dot + 1, fp.end as int));
    }
    assert(segs_out(j as int, fp.end as int) =~= Seq::empty());
    assert(out@ =~= head + segs_out(fp.dot + 1, fp.end as int));
}

fn push_lit(l: LitRef, out: &mut Vec<OutTok>)
    ensures
        final(out)@ == old(out)@ + lit_out(l),
{
    match l {
        LitRef::Token(i) => {
            out.push(OutTok::Copy(i));
        },
        LitRef::Negative { minus, lit } => {
            out.push(OutTok::Copy(minus));
            out.push(OutTok::Copy(lit));
        },
        LitRef::Bool { value, .. } => {
            out.push(OutTok::Word(if value { Word::True } else { Word::False }));
        },
    }
    assert(out@ =~= old(out)@ + lit_out(l));
}

fn compare_method(k: CompareOpKind) -> (r: Word)
    ensures
        r == compare_word(k),
{
    match k {
        CompareOpKind::Eq => Word::Eq,
        CompareOpKind::Ne => Word::Ne,
        CompareOpKind::Gt => Word::Gt,
        CompareOpKind::Ge => Word::Ge,
        CompareOpKind::Lt => Word::Lt,
        CompareOpKind::Le => Word::Le,
    }
}

/// Appends `.w(` + the filter `y` + `)`.
fn push_call_with(s: usize, e: usize, w: Word, y: &Expr, out: &mut Vec<OutTok>)
    ensures
        final(out)@ == old(out)@ + method_call(w, filter_out(s as int, e as int, *y)),
    decreases *y, 1int,
{
    let ghost start = out@;
    out.push(OutTok::Punct { ch: '.', joint: false });
    out.push(OutTok::Word(w));
    out.push(OutTok::Open(Delim::Paren));
    let ghost mid = out@;
    expand_filter(s, e, y, out);
    out.push(OutTok::Close(Delim::Paren));
    assert(out@ =~= start + method_call(w, filter_out(s as int, e as int, *y)));
}

/// Appends the builder expression of a filter.
pub fn expand_filter(s: usize, e: usize, x: &Expr, out: &mut Vec<OutTok>)
    ensures
        final(out)@ == old(out)@ + filter_out(s as int, e as int, *x),
    decreases *x, 0int,
{
    let ghost start = out@;
    match x {
        Expr::And(l, r) => {
            expand_filter(s, e, l, out);
            push_call_with(s, e, Word::And, r, out);
            assert(out@ =~= start + filter_out(s as int, e as int, *x));
        },
        Expr::Or(l, r) => {
            expand_filter(s, e, l, out);
            push_call_with(s, e, Word::Or, r, out);
            assert(out@ =~= start + filter_out(s as int, e as int, *x));
        },
        Expr::Not(y) => {
            out.push(OutTok::Open(Delim::Paren));
            expand_filter(s, e, y, out);
            out.push(OutTok::Close(Delim::Paren));
            push_empty_call(Word::Not, out);
            assert(out@ =~= start + filter_out(s as int, e as int, *x));
        },
        Expr::BinaryOp(l, op, r) => {
            expand_filter(s, e, l, out);
            let w = compare_method(op.kind);
            push_call_with(s, e, w, r, out);
            assert(out@ =~= start + filter_out(s as int, e as int, *x));
        },
        Expr::Paren(y) => {
            expand_filter(s, e, y, out);
        },
        Expr::Field(fp) => {
            push_field(s, e, *fp, out);
        },
        Expr::Lit(l) => {
            push_lit(*l, out);
        },
        Expr::Var(i) => {
            out.push(OutTok::Copy(*i));
            assert(out@ =~= start + filter_out(s as int, e as int, *x));
        },
        Expr::RustExpr { start, end } => {
            push_copies(*start, *end, out);
        },
    }
}

fn push_page(p: PaginationExpr, out: &mut Vec<OutTok>)
    ensures
        final(out)@ == old(out)@ + page_out(p),
{
    match p {
        PaginationExpr::Lit(l) => push_lit(l, out),
        PaginationExpr::Var(i) => {
            out.push(OutTok::Copy(i));
            assert(out@ =~= old(out)@ + page_out(p));
        },
        PaginationExpr::RustExpr { start, end } => {
            push_copies(start, end, out);
        },
    }
}

fn push_page_stmt(w: Word, p: Option<PaginationExpr>, out: &mut Vec<OutTok>)
    ensures
        final(out)@ == old(out)@ + page_stmt(w, p),
{
    match p {
        Some(v) => {
            let ghost start = out@;
            out.push(OutTok::Word(Word::Q));
            push_punct('=', out);
            out.push(OutTok::Word(Word::Q));
            out.push(OutTok::Punct { ch: '.', joint: false });
            out.push(OutTok::Word(w));
            out.push(OutTok::Open(Delim::Paren));
            let ghost mid = out@;
            push_page(v, out);
            out.push(OutTok::Close(Delim::Paren));
            push_punct(';', out);
            assert(out@ =~= start + page_stmt(w, p));
        },
        None => {
            assert(out@ =~= old(out)@ + page_stmt(w, p));
        },
    }
}

fn push_base(q: &QueryInput, out: &mut Vec<OutTok>)
    ensures
        final(out)@ == old(out)@ + base_out(*q),
{
    let s = q.source_start;
    let e = q.source_end;
    push_copies(s, e, out);
    push_path_sep(out);
    match &q.filter {
        Some(f) => {
            out.push(OutTok::Word(Word::Filter));
            out.push(OutTok::Open(Delim::Paren));
            expand_filter(s, e, f, out);
            out.push(OutTok::Close(Delim::Paren));
        },
        None => {
            out.push(OutTok::Word(Word::All));
            out.push(OutTok::Open(Delim::Paren));
            out.push(OutTok::Close(Delim::Paren));
        },
    }
    assert(out@ =~= old(out)@ + base_out(*q));
}

fn push_order(q: &QueryInput, out: &mut Vec<OutTok>)
    ensures
        final(out)@ == old(out)@ + order_out(*q),
{
    match q.order_by {
        Some(o) => {
            out.push(OutTok::Word(Word::Q));
            push_punct('=', out);
            out.push(OutTok::Word(Word::Q));
            out.push(OutTok::Punct { ch: '.', joint: false });
            out.push(OutTok::Word(Word::OrderBy));
            out.push(OutTok::Open(Delim::Paren));
            push_field(q.source_start, q.source_end, o.field, out);
            let dw = if o.direction == OrderDirection::Asc { Word::Asc } else { Word::Desc };
            push_empty_call(dw, out);
            out.push(OutTok::Close(Delim::Paren));
            push_punct(';', out);
        },
        None => {},
    }
    assert(out@ =~= old(out)@ + order_out(*q));
}

/// What `query!` expands to.
pub fn expand(q: &QueryInput) -> (r: Vec<OutTok>)
    ensures
        r@ == query_out(*q),
        q.filter is Some ==> !r@.contains(OutTok::Word(Word::All)),
        q.filter is None ==> !r@.contains(OutTok::Word(Word::Filter)),
{
    proof {
        super::laws::lemma_filter_kept(*q);
    }
    let mut out: Vec<OutTok> = Vec::new();
    let wrapped = q.order_by.is_some() || q.offset.is_some() || q.limit.is_some();
    if !wrapped {
        push_base(q, &mut out);
        assert(out@ =~= query_out(*q));
        return out;
    }
    out.push(OutTok::Open(Delim::Brace));
    out.push(OutTok::Word(Word::Let));
    out.push(OutTok::Word(Word::Mut));
    out.push(OutTok::Word(Word::Q));
    push_punct('=', &mut out);
    push_base(q, &mut out);
    push_punct(';', &mut out);
    push_order(q, &mut out);
    push_page_stmt(Word::Limit, q.limit, &mut out);
    push_page_stmt(Word::Offset, q.offset, &mut out);
    out.push(OutTok::Word(Word::Q));
    out.push(OutTok::Close(Delim::Brace));
    assert(out@ =~= query_out(*q));
    out
}

} // verus!
