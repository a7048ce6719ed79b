//! What every parsed `query!` filter looks like: `NOT` binds tightest,
//! then `AND`, then `OR`; both binary operators group to the left; a
//! comparison joins two operands that are neither logical expressions nor
//! comparisons; anything else stands in parentheses. And what every
//! expansion is built from: `Source::filter(..)` exactly when the query has
//! a filter, `Source::all()` otherwise, whatever clauses follow.
use vstd::prelude::*;

use super::expand::{
    base_out, field_out, filter_out, lit_out, method_call_copy, order_out, page_out, page_stmt,
    query_out, segs_out, stmt_out,
};
use super::parse::{
    and_at, and_rest, atom_at, filter_clause, or_at, or_rest, primary_at, query_spec, unary_at,
    Expr, LitRef, PaginationExpr, QueryInput,
};
use crate::diag::Diag;
use crate::emit::{
    copies, free_of, lemma_before, lemma_contains_concat, lemma_free_of_concat,
    lemma_free_of_method_call, lemma_free_of_plain, lemma_occurs_whole, method_call, occurs_in,
    parens, path_sep, punct, OutTok, Word,
};
use crate::tokens::{Delim, Tok};

verus! {

/// A field, literal, `#var` or `#(expr)`.
pub open spec fn is_operand(e: Expr) -> bool {
    e is Field || e is Lit || e is Var || e is RustExpr
}

/// An operand, a comparison of two operands, or a parenthesized filter.
pub open spec fn atom_level(e: Expr) -> bool
    decreases e, 0int,
{
    match e {
        Expr::Paren(x) => or_level(*x),
        Expr::BinaryOp(l, _, r) => is_operand(*l) && is_operand(*r),
        _ => is_operand(e),
    }
}

/// `NOT`s before an atom.
pub open spec fn unary_level(e: Expr) -> bool
    decreases e, 1int,
{
    match e {
        Expr::Not(x) => unary_level(*x),
        _ => atom_level(e),
    }
}

/// Unary expressions joined by `AND`, grouped to the left.
pub open spec fn and_level(e: Expr) -> bool
    decreases e, 2int,
{
    match e {
        Expr::And(l, r) => and_level(*l) && unary_level(*r),
        _ => unary_level(e),
    }
}

/// `AND` expressions joined by `OR`, grouped to the left.
pub open spec fn or_level(e: Expr) -> bool
    decreases e, 3int,
{
    match e {
        Expr::Or(l, r) => or_level(*l) && and_level(*r),
        _ => and_level(e),
    }
}

/// Each level includes the tighter ones.
proof fn lemma_levels(e: Expr)
    ensures
        atom_level(e) ==> unary_level(e),
        unary_level(e) ==> and_level(e),
        and_level(e) ==> or_level(e),
{
    match e {
        Expr::Or(l, r) => {
            assert(!atom_level(e));
            assert(!unary_level(e));
            assert(!and_level(e));
        },
        Expr::And(l, r) => {
            assert(!atom_level(e));
            assert(!unary_level(e));
        },
        Expr::Not(x) => {
            assert(!atom_level(e));
        },
        _ => {},
    }
}

proof fn lemma_primary(toks: Seq<Tok>, syms: Seq<String>, i: int, hi: int, scope: usize)
    ensures
        primary_at(toks, syms, i, hi, scope) matches Ok((e, _)) ==> is_operand(e),
{
}

#[verifier::rlimit(40)]
proof fn lemma_or_at(toks: Seq<Tok>, syms: Seq<String>, i: int, hi: int, scope: usize)
    ensures
        or_at(toks, syms, i, hi, scope) matches Ok((e, _)) ==> or_level(e),
    decreases hi - i, 4int,
{
    lemma_and_at(toks, syms, i, hi, scope);
    match and_at(toks, syms, i, hi, scope) {
        Err(_) => {},
        Ok((lhs, j)) => {
            lemma_levels(lhs);
            if !(j <= i || j > hi) {
                lemma_or_rest(toks, syms, lhs, j, hi, scope);
            }
        },
    }
}

proof fn lemma_or_rest(toks: Seq<Tok>, syms: Seq<String>, lhs: Expr, j: int, hi: int, scope: usize)
    requires
        or_level(lhs),
    ensures
        or_rest(toks, syms, lhs, j, hi, scope) matches Ok((e, _)) ==> or_level(e),
    decreases hi - j, 4int,
{
    if super::parse::query_kw(toks, syms, j, hi, "or"@) {
        lemma_and_at(toks, syms, j + 1, hi, scope);
        match and_at(toks, syms, j + 1, hi, scope) {
            Err(_) => {},
            Ok((rhs, k)) => {
                let e = Expr::Or(Box::new(lhs), Box::new(rhs));
                assert(or_level(e));
                if !(k <= j || k > hi) {
                    lemma_or_rest(toks, syms, e, k, hi, scope);
                }
            },
        }
    }
}

#[verifier::rlimit(40)]
proof fn lemma_and_at(toks: Seq<Tok>, syms: Seq<String>, i: int, hi: int, scope: usize)
    ensures
        and_at(toks, syms, i, hi, scope) matches Ok((e, _)) ==> and_level(e),
    decreases hi - i, 3int,
{
    lemma_unary_at(toks, syms, i, hi, scope);
    match unary_at(toks, syms, i, hi, scope) {
        Err(_) => {},
        Ok((lhs, j)) => {
            lemma_levels(lhs);
            if !(j <= i || j > hi) {
                lemma_and_rest(toks, syms, lhs, j, hi, scope);
            }
        },
    }
}

proof fn lemma_and_rest(toks: Seq<Tok>, syms: Seq<String>, lhs: Expr, j: int, hi: int, scope: usize)
    requires
        and_level(lhs),
    ensures
        and_rest(toks, syms, lhs, j, hi, scope) matches Ok((e, _)) ==> and_level(e),
    decreases hi - j, 3int,
{
    if super::parse::query_kw(toks, syms, j, hi, "and"@) {
        lemma_unary_at(toks, syms, j + 1, hi, scope);
        match unary_at(toks, syms, j + 1, hi, scope) {
            Err(_) => {},
            Ok((rhs, k)) => {
                let e = Expr::And(Box::new(lhs), Box::new(rhs));
                assert(and_level(e));
                if !(k <= j || k > hi) {
                    lemma_and_rest(toks, syms, e, k, hi, scope);
                }
            },
        }
    }
}

proof fn lemma_unary_at(toks: Seq<Tok>, syms: Seq<String>, i: int, hi: int, scope: usize)
    ensures
        unary_at(toks, syms, i, hi, scope) matches Ok((e, _)) ==> unary_level(e),
    decreases hi - i, 2int,
{
    if super::parse::query_kw(toks, syms, i, hi, "not"@) {
        lemma_unary_at(toks, syms, i + 1, hi, scope);
    } else {
        lemma_atom_at(toks, syms, i, hi, scope);
        match atom_at(toks, syms, i, hi, scope) {
            Ok((e, _)) => lemma_levels(e),
            Err(_) => {},
        }
    }
}

proof fn lemma_atom_at(toks: Seq<Tok>, syms: Seq<String>, i: int, hi: int, scope: usize)
    ensures
        atom_at(toks, syms, i, hi, scope) matches Ok((e, _)) ==> atom_level(e),
    decreases hi - i, 1int,
{
    if crate::tokens::is_open(toks, i, hi, crate::tokens::Delim::Paren) {
        match crate::schema::attr::group_at(toks, i, hi, scope, crate::tokens::Delim::Paren, crate::diag::Want::Parens) {
            Err(_) => {},
            Ok(c) => {
                if !(c <= i || c >= hi) {
                    lemma_or_at(toks, syms, i + 1, c, crate::schema::attr::close_span(toks, c));
                }
            },
        }
    } else {
        lemma_primary(toks, syms, i, hi, scope);
        match primary_at(toks, syms, i, hi, scope) {
            Err(_) => {},
            Ok((lhs, j)) => {
                match super::parse::compare_op_at(toks, j, hi) {
                    None => {},
                    Some((_, j2)) => lemma_primary(toks, syms, j2, hi, scope),
                }
            },
        }
    }
}

/// Query keywords match in any ASCII case: an identifier that spells a
/// keyword in any mix of upper and lower case (and is not a reserved word
/// of Rust) is that keyword, and one that spells it otherwise is not.
pub proof fn lemma_keywords_ignore_case(toks: Seq<Tok>, syms: Seq<String>, i: int, hi: int, kw: Seq<char>)
    requires
        0 <= i < hi <= toks.len(),
        toks[i] is Ident,
        !crate::schema::attr::is_reserved_word(crate::tokens::sym_text(syms, toks[i]->sym as int)),
    ensures
        super::parse::query_kw(toks, syms, i, hi, kw)
            <==> crate::text::eq_ignore_ascii_case(crate::tokens::sym_text(syms, toks[i]->sym as int), kw),
{
}

/// The filter of every accepted query is nested by precedence: `NOT`
/// binds tightest, then `AND`, then `OR`, both binary operators group to
/// the left, and a comparison joins two plain operands; anything else is
/// parenthesized.
pub proof fn lemma_filter_precedence(toks: Seq<Tok>, syms: Seq<String>, scope: usize)
    ensures
        query_spec(toks, syms, scope) matches Ok(q) ==> (q.filter matches Some(e) ==> or_level(e)),
{
    let hi = toks.len() as int;
    match super::parse::source_path_at(toks, syms, 0, hi, scope) {
        Err(_) => {},
        Ok(p) => {
            if super::parse::query_kw(toks, syms, p, hi, "filter"@) {
                lemma_or_at(toks, syms, p + 1, hi, scope);
            }
        },
    }
}

/// The two words a query is built from: `all` and `filter`.
pub open spec fn is_source_word(w: Word) -> bool {
    w == Word::All || w == Word::Filter
}

/// The words of a query's builder calls: `all`, `filter`, `order_by`,
/// `limit` and `offset`; a filter, a field path or a value holds none.
pub open spec fn is_query_word(w: Word) -> bool {
    is_source_word(w) || w == Word::OrderBy || w == Word::Limit || w == Word::Offset
}

proof fn lemma_segs_free(j: int, end: int, w: Word)
    ensures
        free_of(segs_out(j, end), OutTok::Word(w)),
    decreases end + 1 - j,
{
    let t = OutTok::Word(w);
    if j < end {
        lemma_segs_free(j + 2, end, w);
        lemma_free_of_plain(0, 0, '.', Seq::empty(), w);
        assert(free_of(seq![OutTok::Copy(j as usize)], t));
        lemma_free_of_concat(punct('.'), seq![OutTok::Copy(j as usize)], t);
        lemma_free_of_concat(punct('.') + seq![OutTok::Copy(j as usize)], parens(Seq::empty()), t);
        assert(method_call_copy(j) == punct('.') + seq![OutTok::Copy(j as usize)] + parens(Seq::empty()));
        lemma_free_of_concat(method_call_copy(j), segs_out(j + 2, end), t);
    } else {
        assert(segs_out(j, end) =~= Seq::empty());
    }
}

proof fn lemma_field_free(s: int, e: int, fp: super::parse::FieldPath, w: Word)
    requires
        is_query_word(w),
    ensures
        free_of(field_out(s, e, fp), OutTok::Word(w)),
{
    let t = OutTok::Word(w);
    lemma_free_of_plain(s, e, '.', Seq::empty(), w);
    lemma_segs_free(fp.dot + 1, fp.end as int, w);
    assert(free_of(seq![OutTok::Word(Word::Fields)], t));
    lemma_free_of_concat(copies(s, e), path_sep(), t);
    lemma_free_of_concat(copies(s, e) + path_sep(), seq![OutTok::Word(Word::Fields)], t);
    lemma_free_of_concat(copies(s, e) + path_sep() + seq![OutTok::Word(Word::Fields)], parens(Seq::empty()), t);
    lemma_free_of_concat(
        copies(s, e) + path_sep() + seq![OutTok::Word(Word::Fields)] + parens(Seq::empty()),
        segs_out(fp.dot + 1, fp.end as int),
        t,
    );
}

proof fn lemma_lit_free(l: LitRef, w: Word)
    requires
        is_query_word(w),
    ensures
        free_of(lit_out(l), OutTok::Word(w)),
{
}

proof fn lemma_filter_free(s: int, e: int, x: Expr, w: Word)
    requires
        is_query_word(w),
    ensures
        free_of(filter_out(s, e, x), OutTok::Word(w)),
    decreases x,
{
    let t = OutTok::Word(w);
    match x {
        Expr::And(l, r) => {
            lemma_filter_free(s, e, *l, w);
            lemma_filter_free(s, e, *r, w);
            lemma_free_of_method_call(Word::And, filter_out(s, e, *r), w);
            lemma_free_of_concat(filter_out(s, e, *l), method_call(Word::And, filter_out(s, e, *r)), t);
        },
        Expr::Or(l, r) => {
            lemma_filter_free(s, e, *l, w);
            lemma_filter_free(s, e, *r, w);
            lemma_free_of_method_call(Word::Or, filter_out(s, e, *r), w);
            lemma_free_of_concat(filter_out(s, e, *l), method_call(Word::Or, filter_out(s, e, *r)), t);
        },
        Expr::Not(y) => {
            lemma_filter_free(s, e, *y, w);
            lemma_free_of_plain(0, 0, '.', filter_out(s, e, *y), w);
            lemma_free_of_method_call(Word::Not, Seq::empty(), w);
            lemma_free_of_concat(parens(filter_out(s, e, *y)), method_call(Word::Not, Seq::empty()), t);
        },
        Expr::BinaryOp(l, op, r) => {
            lemma_filter_free(s, e, *l, w);
            lemma_filter_free(s, e, *r, w);
            let m = super::expand::compare_word(op.kind);
            lemma_free_of_method_call(m, filter_out(s, e, *r), w);
            lemma_free_of_concat(filter_out(s, e, *l), method_call(m, filter_out(s, e, *r)), t);
        },
        Expr::Paren(y) => {
            lemma_filter_free(s, e, *y, w);
        },
        Expr::Field(fp) => {
            lemma_field_free(s, e, fp, w);
        },
        Expr::Lit(l) => {
            lemma_lit_free(l, w);
        },
        Expr::Var(i) => {
            assert(free_of(seq![OutTok::Copy(i)], t));
        },
        Expr::RustExpr { start, end } => {
            lemma_free_of_plain(start as int, end as int, '.', Seq::empty(), w);
        },
    }
}

proof fn lemma_stmt_free(m: Word, args: Seq<OutTok>, w: Word)
    requires
        is_query_word(w),
        m != w,
        free_of(args, OutTok::Word(w)),
    ensures
        free_of(stmt_out(m, args), OutTok::Word(w)),
{
    let t = OutTok::Word(w);
    let q = seq![OutTok::Word(Word::Q)];
    assert(free_of(q, t));
    lemma_free_of_plain(0, 0, '=', Seq::empty(), w);
    lemma_free_of_plain(0, 0, ';', Seq::empty(), w);
    lemma_free_of_method_call(m, args, w);
    lemma_free_of_concat(q, punct('='), t);
    lemma_free_of_concat(q + punct('='), q, t);
    lemma_free_of_concat(q + punct('=') + q, method_call(m, args), t);
    lemma_free_of_concat(q + punct('=') + q + method_call(m, args), punct(';'), t);
}

proof fn lemma_clauses_free(q: QueryInput, w: Word)
    requires
        is_source_word(w),
    ensures
        free_of(order_out(q), OutTok::Word(w)),
        free_of(page_stmt(Word::Limit, q.limit), OutTok::Word(w)),
        free_of(page_stmt(Word::Offset, q.offset), OutTok::Word(w)),
{
    let t = OutTok::Word(w);
    match q.order_by {
        Some(o) => {
            let s = q.source_start as int;
            let e = q.source_end as int;
            let d = if o.direction == super::parse::OrderDirection::Asc { Word::Asc } else { Word::Desc };
            lemma_field_free(s, e, o.field, w);
            lemma_free_of_method_call(d, Seq::empty(), w);
            lemma_free_of_concat(field_out(s, e, o.field), method_call(d, Seq::empty()), t);
            lemma_stmt_free(Word::OrderBy, field_out(s, e, o.field) + method_call(d, Seq::empty()), w);
        },
        None => {},
    }
    match q.limit {
        Some(v) => {
            lemma_page_free(v, w);
            lemma_stmt_free(Word::Limit, page_out(v), w);
        },
        None => {},
    }
    match q.offset {
        Some(v) => {
            lemma_page_free(v, w);
            lemma_stmt_free(Word::Offset, page_out(v), w);
        },
        None => {},
    }
}

proof fn lemma_page_free(p: PaginationExpr, w: Word)
    requires
        is_query_word(w),
    ensures
        free_of(page_out(p), OutTok::Word(w)),
{
    match p {
        PaginationExpr::Lit(l) => lemma_lit_free(l, w),
        PaginationExpr::Var(i) => assert(free_of(seq![OutTok::Copy(i)], OutTok::Word(w))),
        PaginationExpr::RustExpr { start, end } => lemma_free_of_plain(start as int, end as int, '.', Seq::empty(), w),
    }
}

/// `query!` builds its query from `Source::filter(<the filter>)` whenever
/// the query has a filter, and then never from `Source::all()`; without a
/// filter it builds it from `Source::all()` and never calls `filter`. Both
/// hold whether or not ORDER BY, OFFSET or LIMIT follow.
pub proof fn lemma_filter_kept(q: QueryInput)
    ensures
        q.filter matches Some(f) ==> occurs_in(
            copies(q.source_start as int, q.source_end as int) + path_sep() + seq![OutTok::Word(Word::Filter)]
                + parens(filter_out(q.source_start as int, q.source_end as int, f)),
            query_out(q),
        ),
        q.filter is Some ==> !query_out(q).contains(OutTok::Word(Word::All)),
        q.filter is None ==> occurs_in(
            copies(q.source_start as int, q.source_end as int) + path_sep() + seq![OutTok::Word(Word::All)] + parens(Seq::empty()),
            query_out(q),
        ),
        q.filter is None ==> !query_out(q).contains(OutTok::Word(Word::Filter)),
{
    let s = q.source_start as int;
    let e = q.source_end as int;
    let absent = if q.filter is Some { Word::All } else { Word::Filter };
    let t = OutTok::Word(absent);
    lemma_free_of_plain(s, e, '.', Seq::empty(), absent);
    let head = copies(s, e) + path_sep();
    lemma_free_of_concat(copies(s, e), path_sep(), t);
    match q.filter {
        Some(f) => {
            lemma_filter_free(s, e, f, absent);
            lemma_free_of_plain(0, 0, '.', filter_out(s, e, f), absent);
            assert(free_of(seq![OutTok::Word(Word::Filter)], t));
            lemma_free_of_concat(head, seq![OutTok::Word(Word::Filter)], t);
            lemma_free_of_concat(head + seq![OutTok::Word(Word::Filter)], parens(filter_out(s, e, f)), t);
        },
        None => {
            assert(free_of(seq![OutTok::Word(Word::All)], t));
            lemma_free_of_concat(head, seq![OutTok::Word(Word::All)], t);
            lemma_free_of_concat(head + seq![OutTok::Word(Word::All)], parens(Seq::empty()), t);
        },
    }
    assert(free_of(base_out(q), t));
    let base = base_out(q);
    if q.order_by is None && q.offset is None && q.limit is None {
        lemma_occurs_whole(Seq::empty(), base, Seq::empty());
        assert(Seq::<OutTok>::empty() + base + Seq::<OutTok>::empty() =~= query_out(q));
    } else {
        let pre = seq![OutTok::Open(Delim::Brace), OutTok::Word(Word::Let), OutTok::Word(Word::Mut), OutTok::Word(Word::Q)] + punct('=');
        let tail = seq![OutTok::Word(Word::Q), OutTok::Close(Delim::Brace)];
        let post = punct(';') + order_out(q) + page_stmt(Word::Limit, q.limit) + page_stmt(Word::Offset, q.offset) + tail;
        assert(query_out(q) =~= pre + base + post);
        lemma_occurs_whole(pre, base, post);
        lemma_clauses_free(q, absent);
        lemma_free_of_plain(0, 0, '=', Seq::empty(), absent);
        lemma_free_of_plain(0, 0, ';', Seq::empty(), absent);
        let lead = seq![OutTok::Open(Delim::Brace), OutTok::Word(Word::Let), OutTok::Word(Word::Mut), OutTok::Word(Word::Q)];
        assert(free_of(lead, t));
        assert(free_of(tail, t));
        lemma_free_of_concat(lead, punct('='), t);
        lemma_free_of_concat(punct(';'), order_out(q), t);
        lemma_free_of_concat(punct(';') + order_out(q), page_stmt(Word::Limit, q.limit), t);
        lemma_free_of_concat(punct(';') + order_out(q) + page_stmt(Word::Limit, q.limit), page_stmt(Word::Offset, q.offset), t);
        lemma_free_of_concat(
            punct(';') + order_out(q) + page_stmt(Word::Limit, q.limit) + page_stmt(Word::Offset, q.offset),
            tail,
            t,
        );
        lemma_free_of_concat(pre, base, t);
        lemma_free_of_concat(pre + base, post, t);
    }
    assert(free_of(query_out(q), t));
}

/// `{ let mut q = <base>;`
spec fn wrap_head(q: QueryInput) -> Seq<OutTok> {
    seq![OutTok::Open(Delim::Brace), OutTok::Word(Word::Let), OutTok::Word(Word::Mut), OutTok::Word(Word::Q)] + punct('=')
        + base_out(q) + punct(';')
}

/// `q }`
spec fn wrap_tail() -> Seq<OutTok> {
    seq![OutTok::Word(Word::Q), OutTok::Close(Delim::Brace)]
}

/// A clause word: `order_by`, `limit` or `offset`.
spec fn is_clause_word(w: Word) -> bool {
    w == Word::OrderBy || w == Word::Limit || w == Word::Offset
}

proof fn lemma_frame_free(q: QueryInput, w: Word)
    requires
        is_clause_word(w),
    ensures
        free_of(base_out(q), OutTok::Word(w)),
        free_of(wrap_head(q), OutTok::Word(w)),
        free_of(wrap_tail(), OutTok::Word(w)),
{
    let s = q.source_start as int;
    let e = q.source_end as int;
    let t = OutTok::Word(w);
    lemma_free_of_plain(s, e, '=', Seq::empty(), w);
    lemma_free_of_plain(s, e, ';', Seq::empty(), w);
    lemma_free_of_concat(copies(s, e), path_sep(), t);
    match q.filter {
        Some(f) => {
            lemma_filter_free(s, e, f, w);
            lemma_free_of_plain(0, 0, '.', filter_out(s, e, f), w);
            assert(free_of(seq![OutTok::Word(Word::Filter)], t));
            lemma_free_of_concat(copies(s, e) + path_sep(), seq![OutTok::Word(Word::Filter)], t);
            lemma_free_of_concat(copies(s, e) + path_sep() + seq![OutTok::Word(Word::Filter)], parens(filter_out(s, e, f)), t);
        },
        None => {
            assert(free_of(seq![OutTok::Word(Word::All)], t));
            lemma_free_of_concat(copies(s, e) + path_sep(), seq![OutTok::Word(Word::All)], t);
            lemma_free_of_concat(copies(s, e) + path_sep() + seq![OutTok::Word(Word::All)], parens(Seq::empty()), t);
        },
    }
    let lead = seq![OutTok::Open(Delim::Brace), OutTok::Word(Word::Let), OutTok::Word(Word::Mut), OutTok::Word(Word::Q)];
    assert(free_of(lead, t));
    assert(free_of(wrap_tail(), t));
    lemma_free_of_concat(lead, punct('='), t);
    lemma_free_of_concat(lead + punct('='), base_out(q), t);
    lemma_free_of_concat(lead + punct('=') + base_out(q), punct(';'), t);
}

/// The ORDER BY statement holds `order_by` exactly when the clause is
/// there, and never `limit` or `offset`.
proof fn lemma_order_stmt_words(q: QueryInput)
    ensures
        order_out(q).contains(OutTok::Word(Word::OrderBy)) <==> q.order_by is Some,
        free_of(order_out(q), OutTok::Word(Word::Limit)),
        free_of(order_out(q), OutTok::Word(Word::Offset)),
{
    let s = q.source_start as int;
    let e = q.source_end as int;
    match q.order_by {
        Some(o) => {
            let d_w = if o.direction == super::parse::OrderDirection::Asc { Word::Asc } else { Word::Desc };
            let args = field_out(s, e, o.field) + method_call(d_w, Seq::empty());
            lemma_field_free(s, e, o.field, Word::Limit);
            lemma_field_free(s, e, o.field, Word::Offset);
            lemma_free_of_method_call(d_w, Seq::empty(), Word::Limit);
            lemma_free_of_method_call(d_w, Seq::empty(), Word::Offset);
            lemma_free_of_concat(field_out(s, e, o.field), method_call(d_w, Seq::empty()), OutTok::Word(Word::Limit));
            lemma_free_of_concat(field_out(s, e, o.field), method_call(d_w, Seq::empty()), OutTok::Word(Word::Offset));
            lemma_stmt_free(Word::OrderBy, args, Word::Limit);
            lemma_stmt_free(Word::OrderBy, args, Word::Offset);
            assert(order_out(q)[4] == OutTok::Word(Word::OrderBy));
        },
        None => {},
    }
}

/// A LIMIT / OFFSET statement holds its own word exactly when the clause
/// is there, and never another clause word.
proof fn lemma_page_stmt_words(m: Word, p: Option<PaginationExpr>, w: Word)
    requires
        is_clause_word(m),
        is_clause_word(w),
        m != w,
    ensures
        page_stmt(m, p).contains(OutTok::Word(m)) <==> p is Some,
        free_of(page_stmt(m, p), OutTok::Word(w)),
{
    match p {
        Some(v) => {
            lemma_page_free(v, w);
            lemma_stmt_free(m, page_out(v), w);
            assert(page_stmt(m, p)[4] == OutTok::Word(m));
        },
        None => {},
    }
}

/// ORDER BY, LIMIT and OFFSET each become a builder call exactly when the
/// query has that clause, and the calls come in the order `order_by`,
/// `limit`, `offset`: `limit` is applied before `offset`, as the builder
/// requires, although OFFSET is written before LIMIT.
pub proof fn lemma_clause_order(q: QueryInput)
    ensures
        query_out(q).contains(OutTok::Word(Word::OrderBy)) <==> q.order_by is Some,
        query_out(q).contains(OutTok::Word(Word::Limit)) <==> q.limit is Some,
        query_out(q).contains(OutTok::Word(Word::Offset)) <==> q.offset is Some,
        forall|i: int, j: int|
            0 <= i < query_out(q).len() && 0 <= j < query_out(q).len() && #[trigger] query_out(q)[i] == OutTok::Word(Word::OrderBy)
                && #[trigger] query_out(q)[j] == OutTok::Word(Word::Limit) ==> i < j,
        forall|i: int, j: int|
            0 <= i < query_out(q).len() && 0 <= j < query_out(q).len() && #[trigger] query_out(q)[i] == OutTok::Word(Word::Limit)
                && #[trigger] query_out(q)[j] == OutTok::Word(Word::Offset) ==> i < j,
        forall|i: int, j: int|
            0 <= i < query_out(q).len() && 0 <= j < query_out(q).len() && #[trigger] query_out(q)[i] == OutTok::Word(Word::OrderBy)
                && #[trigger] query_out(q)[j] == OutTok::Word(Word::Offset) ==> i < j,
{
    let ob = OutTok::Word(Word::OrderBy);
    let li = OutTok::Word(Word::Limit);
    let of = OutTok::Word(Word::Offset);
    lemma_frame_free(q, Word::OrderBy);
    lemma_frame_free(q, Word::Limit);
    lemma_frame_free(q, Word::Offset);
    lemma_order_stmt_words(q);
    lemma_page_stmt_words(Word::Limit, q.limit, Word::OrderBy);
    lemma_page_stmt_words(Word::Limit, q.limit, Word::Offset);
    lemma_page_stmt_words(Word::Offset, q.offset, Word::OrderBy);
    lemma_page_stmt_words(Word::Offset, q.offset, Word::Limit);
    if q.order_by is None && q.offset is None && q.limit is None {
        assert(query_out(q) == base_out(q));
    } else {
        lemma_wrapped_order(q);
    }
}

proof fn lemma_wrapped_order(q: QueryInput)
    requires
        !(q.order_by is None && q.offset is None && q.limit is None),
        free_of(wrap_head(q), OutTok::Word(Word::OrderBy)),
        free_of(wrap_head(q), OutTok::Word(Word::Limit)),
        free_of(wrap_head(q), OutTok::Word(Word::Offset)),
        free_of(wrap_tail(), OutTok::Word(Word::OrderBy)),
        free_of(wrap_tail(), OutTok::Word(Word::Limit)),
        free_of(wrap_tail(), OutTok::Word(Word::Offset)),
        order_out(q).contains(OutTok::Word(Word::OrderBy)) <==> q.order_by is Some,
        free_of(order_out(q), OutTok::Word(Word::Limit)),
        free_of(order_out(q), OutTok::Word(Word::Offset)),
        page_stmt(Word::Limit, q.limit).contains(OutTok::Word(Word::Limit)) <==> q.limit is Some,
        free_of(page_stmt(Word::Limit, q.limit), OutTok::Word(Word::OrderBy)),
        free_of(page_stmt(Word::Limit, q.limit), OutTok::Word(Word::Offset)),
        page_stmt(Word::Offset, q.offset).contains(OutTok::Word(Word::Offset)) <==> q.offset is Some,
        free_of(page_stmt(Word::Offset, q.offset), OutTok::Word(Word::OrderBy)),
        free_of(page_stmt(Word::Offset, q.offset), OutTok::Word(Word::Limit)),
    ensures
        query_out(q).contains(OutTok::Word(Word::OrderBy)) <==> q.order_by is Some,
        query_out(q).contains(OutTok::Word(Word::Limit)) <==> q.limit is Some,
        query_out(q).contains(OutTok::Word(Word::Offset)) <==> q.offset is Some,
        forall|i: int, j: int|
            0 <= i < query_out(q).len() && 0 <= j < query_out(q).len() && #[trigger] query_out(q)[i] == OutTok::Word(Word::OrderBy)
                && #[trigger] query_out(q)[j] == OutTok::Word(Word::Limit) ==> i < j,
        forall|i: int, j: int|
            0 <= i < query_out(q).len() && 0 <= j < query_out(q).len() && #[trigger] query_out(q)[i] == OutTok::Word(Word::Limit)
                && #[trigger] query_out(q)[j] == OutTok::Word(Word::Offset) ==> i < j,
        forall|i: int, j: int|
            0 <= i < query_out(q).len() && 0 <= j < query_out(q).len() && #[trigger] query_out(q)[i] == OutTok::Word(Word::OrderBy)
                && #[trigger] query_out(q)[j] == OutTok::Word(Word::Offset) ==> i < j,
{
    let ob = OutTok::Word(Word::OrderBy);
    let li = OutTok::Word(Word::Limit);
    let of = OutTok::Word(Word::Offset);
    let a = wrap_head(q);
    let b = order_out(q);
    let c = page_stmt(Word::Limit, q.limit);
    let d = page_stmt(Word::Offset, q.offset);
    let z = wrap_tail();
    let out = a + b + c + d + z;
    assert(query_out(q) =~= out);
    lemma_contains_concat(a, b, ob);
    lemma_contains_concat(a + b, c, ob);
    lemma_contains_concat(a + b + c, d, ob);
    lemma_contains_concat(a + b + c + d, z, ob);
    lemma_contains_concat(a, b, li);
    lemma_contains_concat(a + b, c, li);
    lemma_contains_concat(a + b + c, d, li);
    lemma_contains_concat(a + b + c + d, z, li);
    lemma_contains_concat(a, b, of);
    lemma_contains_concat(a + b, c, of);
    lemma_contains_concat(a + b + c, d, of);
    lemma_contains_concat(a + b + c + d, z, of);
    lemma_free_of_concat(a, b, li);
    lemma_free_of_concat(c, d, ob);
    lemma_free_of_concat(c + d, z, ob);
    lemma_before(a + b, c + d + z, ob, li);
    assert(a + b + (c + d + z) =~= out);
    lemma_free_of_concat(a, b, of);
    lemma_free_of_concat(a + b, c, of);
    lemma_free_of_concat(d, z, li);
    lemma_before(a + b + c, d + z, li, of);
    lemma_free_of_concat(d, z, ob);
    lemma_before(a + b + c, d + z, ob, of);
    assert(a + b + c + (d + z) =~= out);
}

} // verus!
