//! Reading field types as token sequences: `Self` substitution and the
//! inner type of `Deferred<T>`.
use vstd::prelude::*;

use super::attr::{is_reserved_word, is_reserved_word_exec};
use crate::diag::{Diag, ErrorKind};
use crate::text::str_eq;
use crate::tokens::{
    close_from, is_open, is_open_exec, is_punct, is_punct2, is_punct2_exec, is_punct_exec,
    lemma_tree_end, sym_string, sym_text, tree_end_exec, Delim, Tok,
};

verus! {

/// The token at `i` is the identifier `Self` standing alone as a path: not
/// after `::` and not before `::`.
pub open spec fn self_path_at(toks: Seq<Tok>, syms: Seq<String>, i: int) -> bool {
    let n = toks.len() as int;
    &&& 0 <= i < n
    &&& toks[i] is Ident
    &&& sym_text(syms, toks[i]->sym as int) == "Self"@
    &&& !(i >= 2 && is_punct2(toks, i - 2, n, ':', ':'))
    &&& !is_punct2(toks, i + 1, n, ':', ':')
}

/// The type with every standalone `Self` replaced by the model identifier
/// `model` (spanned at `span`).
pub open spec fn rewrite_self_spec(toks: Seq<Tok>, syms: Seq<String>, model: usize, span: usize) -> Seq<Tok> {
    Seq::new(toks.len(), |i: int| if self_path_at(toks, syms, i) {
        Tok::Ident { sym: model, span }
    } else {
        toks[i]
    })
}

/// Replaces `Self` in a field type by the model's identifier, so that
/// self-referential relations name the model.
pub fn rewrite_self(toks: &Vec<Tok>, syms: &Vec<String>, model: usize, span: usize) -> (r: Vec<Tok>)
    ensures
        r@ == rewrite_self_spec(toks@, syms@, model, span),
{
    let n = toks.len();
    let mut out: Vec<Tok> = Vec::new();
    let mut i: usize = 0;
    while i < n
        invariant
            n == toks@.len(),
            i <= n,
            out@ == rewrite_self_spec(toks@, syms@, model, span).subrange(0, i as int),
        decreases n - i,
    {
        let t = toks[i];
        let is_self = match t {
            Tok::Ident { sym, .. } => {
                let s = sym_string(syms, sym);
                str_eq(s.as_str(), "Self") && !(i >= 2 && is_punct2_exec(toks, i - 2, n, ':', ':'))
                    && !is_punct2_exec(toks, i + 1, n, ':', ':')
            },
            _ => false,
        };
        if is_self {
            out.push(Tok::Ident { sym: model, span });
        } else {
            out.push(t);
        }
        i = i + 1;
        assert(out@ =~= rewrite_self_spec(toks@, syms@, model, span).subrange(0, i as int));
    }
    assert(out@ =~= rewrite_self_spec(toks@, syms@, model, span));
    out
}

/// The token at `j` is a `>` that does not end an `->` arrow.
pub open spec fn closes_angle(toks: Seq<Tok>, j: int) -> bool {
    &&& is_punct(toks, j, toks.len() as int, '>')
    &&& !(j >= 1 && (toks[j - 1] matches Tok::Punct { ch, joint, .. } && ch == '-' && joint))
}

/// Nesting change at `j`: groups and angle brackets.
pub open spec fn nest_delta(toks: Seq<Tok>, j: int) -> int {
    if toks[j] is Open || is_punct(toks, j, toks.len() as int, '<') {
        1
    } else if toks[j] is Close || closes_angle(toks, j) {
        -1
    } else {
        0
    }
}

/// Index of the `>` that closes an angle bracket whose contents start at `j`
/// at nesting `depth`; `hi` when there is none.
pub open spec fn angle_close(toks: Seq<Tok>, j: int, depth: int, hi: int) -> int
    decreases hi - j,
{
    if j >= hi || j >= toks.len() || j < 0 {
        hi
    } else if nest_delta(toks, j) < 0 && depth <= 1 {
        j
    } else {
        angle_close(toks, j + 1, depth + nest_delta(toks, j), hi)
    }
}

proof fn lemma_angle_close_bounds(toks: Seq<Tok>, j: int, depth: int, hi: int)
    ensures
        angle_close(toks, j, depth, hi) == hi || (j <= angle_close(toks, j, depth, hi) < hi && angle_close(toks, j, depth, hi) < toks.len()),
    decreases hi - j,
{
    if !(j >= hi || j >= toks.len() || j < 0) && !(nest_delta(toks, j) < 0 && depth <= 1) {
        lemma_angle_close_bounds(toks, j + 1, depth + nest_delta(toks, j), hi);
    }
}

fn nest_delta_exec(toks: &Vec<Tok>, j: usize) -> (r: i8)
    requires
        j < toks@.len(),
    ensures
        r as int == nest_delta(toks@, j as int),
{
    let n = toks.len();
    match toks[j] {
        Tok::Open { .. } => 1,
        Tok::Close { .. } => -1,
        Tok::Punct { ch, .. } => {
            if ch == '<' {
                1
            } else if ch == '>' {
                let arrow = j >= 1 && match toks[j - 1] {
                    Tok::Punct { ch: c, joint, .. } => c == '-' && joint,
                    _ => false,
                };
                if arrow {
                    0
                } else {
                    -1
                }
            } else {
                0
            }
        },
        _ => 0,
    }
}

fn angle_close_exec(toks: &Vec<Tok>, j0: usize, hi: usize) -> (r: usize)
    requires
        hi <= toks@.len(),
    ensures
        r as int == angle_close(toks@, j0 as int, 1, hi as int),
        r == hi || (j0 <= r < hi),
{
    proof {
        lemma_angle_close_bounds(toks@, j0 as int, 1, hi as int);
    }
    if j0 >= hi {
        return hi;
    }
    let mut j = j0;
    let mut depth: i128 = 1;
    while j < hi
        invariant
            hi <= toks@.len(),
            j0 <= j <= hi,
            1 <= depth <= j - j0 + 1,
            angle_close(toks@, j0 as int, 1, hi as int) == angle_close(toks@, j as int, depth as int, hi as int),
        decreases hi - j,
    {
        let d = nest_delta_exec(toks, j);
        if d < 0 && depth <= 1 {
            return j;
        }
        depth = depth + d as i128;
        j = j + 1;
    }
    hi
}

/// How a path segment's arguments are written.
#[derive(Clone, Copy, PartialEq, Eq, Debug, Structural)]
pub enum SegArgs {
    Bare,
    /// `<..>` with contents `start..end`.
    Angle { start: usize, end: usize },
    /// `(..)`, the function sugar.
    Paren,
}

/// The last segment of the path that starts with the identifier at `p` and
/// runs to the end `n` of the type: its identifier's position and arguments.
/// `None` when the tokens are not such a path.
pub open spec fn path_walk(toks: Seq<Tok>, p: int, n: int) -> Option<(int, SegArgs)>
    decreases n - p,
{
    if !(0 <= p < n && n <= toks.len() && toks[p] is Ident) {
        None
    } else {
        let step: Option<(int, SegArgs)> = if is_punct(toks, p + 1, n, '<') {
            let g = angle_close(toks, p + 2, 1, n);
            if g < n {
                Some((g + 1, SegArgs::Angle { start: (p + 2) as usize, end: g as usize }))
            } else {
                None
            }
        } else if is_punct2(toks, p + 1, n, ':', ':') && is_punct(toks, p + 3, n, '<') {
            let g = angle_close(toks, p + 4, 1, n);
            if g < n {
                Some((g + 1, SegArgs::Angle { start: (p + 4) as usize, end: g as usize }))
            } else {
                None
            }
        } else if is_open(toks, p + 1, n, Delim::Paren) {
            let c = close_from(toks, p + 2, 1, n);
            if c < n {
                Some((c + 1, SegArgs::Paren))
            } else {
                None
            }
        } else {
            Some((p + 1, SegArgs::Bare))
        };
        match step {
            None => None,
            Some((q, args)) => if q == n {
                Some((p, args))
            } else if q > p && is_punct2(toks, q, n, ':', ':') && q + 2 < n && toks[q + 2] is Ident {
                path_walk(toks, q + 2, n)
            } else {
                None
            },
        }
    }
}

/// Identifiers that begin a type that is not a path.
pub open spec fn starts_non_path(t: Seq<char>) -> bool {
    t == "dyn"@ || t == "impl"@ || t == "fn"@ || t == "unsafe"@ || t == "extern"@ || t == "for"@ || t == "_"@
}

/// First index in `j..g` of a comma at nesting `depth` zero (relative),
/// or `g`.
pub open spec fn first_top_comma(toks: Seq<Tok>, j: int, g: int, depth: int) -> int
    decreases g - j,
{
    if j >= g || j < 0 || j >= toks.len() {
        g
    } else if depth == 0 && is_punct(toks, j, g, ',') {
        j
    } else {
        first_top_comma(toks, j + 1, g, depth + nest_delta(toks, j))
    }
}

/// The type argument `s..t` has a top-level `=` or a single `:`.
pub open spec fn has_top_binding(toks: Seq<Tok>, j: int, t: int, depth: int) -> bool
    decreases t - j,
{
    if j >= t || j < 0 || j >= toks.len() {
        false
    } else if depth == 0 && is_binding_punct(toks, j) {
        true
    } else {
        has_top_binding(toks, j + 1, t, depth + nest_delta(toks, j))
    }
}

/// A lone `=`, or a lone `:` (not part of `::`).
pub open spec fn is_binding_punct(toks: Seq<Tok>, j: int) -> bool {
    let n = toks.len() as int;
    let prev_joint = j >= 1 && (toks[j - 1] matches Tok::Punct { joint, .. } && joint);
    (is_punct(toks, j, n, '=') && !prev_joint && !(toks[j] matches Tok::Punct { joint, .. } && joint))
        || (is_punct(toks, j, n, ':') && !is_punct2(toks, j, n, ':', ':') && !(j >= 1 && is_punct2(toks, j - 1, n, ':', ':')))
}

/// The generic argument `s..t` is a type (not a lifetime, a constant or a
/// binding).
pub open spec fn is_type_arg(toks: Seq<Tok>, s: int, t: int) -> bool {
    &&& s < t
    &&& !is_punct(toks, s, t, '\'')
    &&& !(toks[s] is Lit)
    &&& !is_open(toks, s, t, Delim::Brace)
    &&& !has_top_binding(toks, s, t, 0)
}

/// The inner type of a field type `Deferred<T>` (the whole of `toks`): the
/// token range of `T`, or the error `#[item_parent]` reports.
pub open spec fn deferred_inner_spec(toks: Seq<Tok>, syms: Seq<String>, field: Option<usize>, ty_span: usize) -> Result<(int, int), Diag> {
    let n = toks.len() as int;
    let p = if is_punct2(toks, 0, n, ':', ':') { 2int } else { 0int };
    let not_path = Diag::at(ty_span, ErrorKind::ItemParentNotPath { field });
    if !(p < n && toks[p] is Ident) || starts_non_path(sym_text(syms, toks[p]->sym as int)) {
        Err(not_path)
    } else {
        match path_walk(toks, p, n) {
            None => Err(not_path),
            Some((l, args)) => if sym_text(syms, toks[l]->sym as int) != "Deferred"@ {
                Err(Diag::at(ty_span, ErrorKind::ItemParentNotDeferred { field }))
            } else {
                match args {
                    SegArgs::Angle { start, end } => {
                        let a = start as int;
                        let g = end as int;
                        let e = first_top_comma(toks, a, g, 0);
                        let count_err = Diag::at(ty_span, ErrorKind::DeferredArgCount { field });
                        if a >= g {
                            Err(count_err)
                        } else {
                            let t = if e == g { g } else if e + 1 == g { e } else { -1 };
                            if t < 0 {
                                Err(count_err)
                            } else if !is_type_arg(toks, a, t) {
                                Err(Diag::at(ty_span, ErrorKind::DeferredArgNotType))
                            } else {
                                Ok((a, t))
                            }
                        }
                    },
                    _ => Err(Diag::at(ty_span, ErrorKind::DeferredArgCount { field })),
                }
            },
        }
    }
}

fn ident_is(toks: &Vec<Tok>, syms: &Vec<String>, i: usize, text: &str) -> (r: bool)
    requires
        i < toks@.len(),
        toks@[i as int] is Ident,
    ensures
        r == (sym_text(syms@, toks@[i as int]->sym as int) == text@),
{
    match toks[i] {
        Tok::Ident { sym, .. } => {
            let s = sym_string(syms, sym);
            str_eq(s.as_str(), text)
        },
        _ => false,
    }
}

pub(crate) fn path_walk_exec(toks: &Vec<Tok>, p0: usize, n: usize) -> (r: Option<(usize, SegArgs)>)
    requires
        n <= toks@.len(),
    ensures
        r matches Some((l, a)) ==> path_walk(toks@, p0 as int, n as int) == Some((l as int, a)) && l < n,
        r is None ==> path_walk(toks@, p0 as int, n as int) is None,
{
    let mut p = p0;
    loop
        invariant
            n <= toks@.len(),
            path_walk(toks@, p0 as int, n as int) == path_walk(toks@, p as int, n as int),
        decreases n - p,
    {
        if !(p < n) {
            return None;
        }
        match toks[p] {
            Tok::Ident { .. } => {},
            _ => return None,
        }
        let q: usize;
        let args: SegArgs;
        if is_punct_exec(toks, p + 1, n, '<') {
            let g = angle_close_exec(toks, p + 2, n);
            if g < n {
                q = g + 1;
                args = SegArgs::Angle { start: p + 2, end: g };
            } else {
                return None;
            }
        } else if is_punct2_exec(toks, p + 1, n, ':', ':') && is_punct_exec(toks, p + 3, n, '<') {
            let g = angle_close_exec(toks, p + 4, n);
            if g < n {
                q = g + 1;
                args = SegArgs::Angle { start: p + 4, end: g };
            } else {
                return None;
            }
        } else if is_open_exec(toks, p + 1, n, Delim::Paren) {
            match tree_end_exec(toks, p + 1, n) {
                Some(e) => {
                    proof {
                        lemma_tree_end(toks@, p + 1, n as int);
                    }
                    q = e;
                    args = SegArgs::Paren;
                },
                None => return None,
            }
        } else {
            q = p + 1;
            args = SegArgs::Bare;
        }
        if q == n {
            return Some((p, args));
        }
        if q > p && is_punct2_exec(toks, q, n, ':', ':') && q + 2 < n {
            match toks[q + 2] {
                Tok::Ident { .. } => {
                    p = q + 2;
                },
                _ => return None,
            }
        } else {
            return None;
        }
    }
}

pub(crate) fn first_top_comma_exec(toks: &Vec<Tok>, a: usize, g: usize) -> (r: usize)
    requires
        g <= toks@.len(),
        a <= g,
    ensures
        r as int == first_top_comma(toks@, a as int, g as int, 0),
        a <= r <= g,
{
    let mut j = a;
    let mut depth: i128 = 0;
    while j < g
        invariant
            g <= toks@.len(),
            a <= j <= g,
            -(j as int) <= depth <= j as int,
            first_top_comma(toks@, a as int, g as int, 0) == first_top_comma(toks@, j as int, g as int, depth as int),
        decreases g - j,
    {
        if depth == 0 && is_punct_exec(toks, j, g, ',') {
            return j;
        }
        let d = nest_delta_exec(toks, j);
        depth = depth + d as i128;
        j = j + 1;
    }
    g
}

fn is_binding_punct_exec(toks: &Vec<Tok>, j: usize) -> (r: bool)
    requires
        j < toks@.len(),
    ensures
        r == is_binding_punct(toks@, j as int),
{
    let n = toks.len();
    let prev_joint = j >= 1 && match toks[j - 1] {
        Tok::Punct { joint, .. } => joint,
        _ => false,
    };
    let self_joint = match toks[j] {
        Tok::Punct { joint, .. } => joint,
        _ => false,
    };
    (is_punct_exec(toks, j, n, '=') && !prev_joint && !self_joint) || (is_punct_exec(toks, j, n, ':')
        && !is_punct2_exec(toks, j, n, ':', ':') && !(j >= 1 && is_punct2_exec(toks, j - 1, n, ':', ':')))
}

fn has_top_binding_exec(toks: &Vec<Tok>, s: usize, t: usize) -> (r: bool)
    requires
        t <= toks@.len(),
    ensures
        r == has_top_binding(toks@, s as int, t as int, 0),
{
    let mut j = s;
    let mut depth: i128 = 0;
    while j < t
        invariant
            t <= toks@.len(),
            s <= j,
            -(j as int) <= depth <= j as int,
            has_top_binding(toks@, s as int, t as int, 0) == has_top_binding(toks@, j as int, t as int, depth as int),
        decreases t - j,
    {
        if depth == 0 && is_binding_punct_exec(toks, j) {
            return true;
        }
        let d = nest_delta_exec(toks, j);
        depth = depth + d as i128;
        j = j + 1;
    }
    false
}

/// The token range of `T` in a field type `Deferred<T>`.
pub fn deferred_inner(toks: &Vec<Tok>, syms: &Vec<String>, field: Option<usize>, ty_span: usize) -> (r: Result<(usize, usize), Diag>)
    ensures
        r matches Ok((a, t)) ==> deferred_inner_spec(toks@, syms@, field, ty_span) == Ok::<(int, int), Diag>((a as int, t as int)) && a < t <= toks@.len(),
        r matches Err(e) ==> deferred_inner_spec(toks@, syms@, field, ty_span) == Err::<(int, int), Diag>(e),
{
    let n = toks.len();
    let p: usize = if is_punct2_exec(toks, 0, n, ':', ':') { 2 } else { 0 };
    let not_path = Diag { span: ty_span, kind: ErrorKind::ItemParentNotPath { field } };
    if !(p < n) {
        return Err(not_path);
    }
    match toks[p] {
        Tok::Ident { .. } => {},
        _ => return Err(not_path),
    }
    if ident_is(toks, syms, p, "dyn") || ident_is(toks, syms, p, "impl") || ident_is(toks, syms, p, "fn") || ident_is(toks, syms, p, "unsafe")
        || ident_is(toks, syms, p, "extern") || ident_is(toks, syms, p, "for") || ident_is(toks, syms, p, "_") {
        return Err(not_path);
    }
    let (l, args) = match path_walk_exec(toks, p, n) {
        None => return Err(not_path),
        Some(la) => la,
    };
    proof {
        lemma_path_walk_ident(toks@, p as int, n as int);
    }
    if !ident_is(toks, syms, l, "Deferred") {
        return Err(Diag { span: ty_span, kind: ErrorKind::ItemParentNotDeferred { field } });
    }
    let count_err = Diag { span: ty_span, kind: ErrorKind::DeferredArgCount { field } };
    match args {
        SegArgs::Angle { start, end } => {
            proof {
                lemma_path_walk_args(toks@, p as int, n as int);
            }
            let a = start;
            let g = end;
            if a >= g {
                return Err(count_err);
            }
            let e = first_top_comma_exec(toks, a, g);
            let t: usize = if e == g {
                g
            } else if e + 1 == g {
                e
            } else {
                return Err(count_err);
            };
            let ok = a < t && !is_punct_exec(toks, a, t, '\'') && match toks[a] {
                Tok::Lit { .. } => false,
                _ => true,
            } && !is_open_exec(toks, a, t, Delim::Brace) && !has_top_binding_exec(toks, a, t);
            if !ok {
                return Err(Diag { span: ty_span, kind: ErrorKind::DeferredArgNotType });
            }
            Ok((a, t))
        },
        _ => Err(count_err),
    }
}

pub proof fn lemma_path_walk_ident(toks: Seq<Tok>, p: int, n: int)
    ensures
        path_walk(toks, p, n) matches Some((l, _)) ==> 0 <= l < n && n <= toks.len() && toks[l] is Ident,
    decreases n - p,
{
    if 0 <= p < n && n <= toks.len() && toks[p] is Ident {
        if is_punct(toks, p + 1, n, '<') {
            lemma_angle_close_bounds(toks, p + 2, 1, n);
        } else if is_punct2(toks, p + 1, n, ':', ':') && is_punct(toks, p + 3, n, '<') {
            lemma_angle_close_bounds(toks, p + 4, 1, n);
        }
        lemma_path_walk_ident_step(toks, p, n);
    }
}

proof fn lemma_path_walk_ident_step(toks: Seq<Tok>, p: int, n: int)
    requires
        0 <= p < n && n <= toks.len() && toks[p] is Ident,
    ensures
        path_walk(toks, p, n) matches Some((l, _)) ==> 0 <= l < n && toks[l] is Ident,
    decreases n - p,
{
    let step: Option<(int, SegArgs)> = if is_punct(toks, p + 1, n, '<') {
        let g = angle_close(toks, p + 2, 1, n);
        if g < n {
            Some((g + 1, SegArgs::Angle { start: (p + 2) as usize, end: g as usize }))
        } else {
            None
        }
    } else if is_punct2(toks, p + 1, n, ':', ':') && is_punct(toks, p + 3, n, '<') {
        let g = angle_close(toks, p + 4, 1, n);
        if g < n {
            Some((g + 1, SegArgs::Angle { start: (p + 4) as usize, end: g as usize }))
        } else {
            None
        }
    } else if is_open(toks, p + 1, n, Delim::Paren) {
        let c = close_from(toks, p + 2, 1, n);
        if c < n {
            Some((c + 1, SegArgs::Paren))
        } else {
            None
        }
    } else {
        Some((p + 1, SegArgs::Bare))
    };
    if let Some((q, args)) = step {
        if q != n && q > p && is_punct2(toks, q, n, ':', ':') && q + 2 < n && toks[q + 2] is Ident {
            lemma_path_walk_ident_step(toks, q + 2, n);
        }
    }
}

pub proof fn lemma_path_walk_args(toks: Seq<Tok>, p: int, n: int)
    requires
        toks.len() <= usize::MAX,
    ensures
        path_walk(toks, p, n) matches Some((_, SegArgs::Angle { start, end })) ==> start <= end < n && n <= toks.len(),
    decreases n - p,
{
    if 0 <= p < n && n <= toks.len() && toks[p] is Ident {
        if is_punct(toks, p + 1, n, '<') {
            lemma_angle_close_bounds(toks, p + 2, 1, n);
        } else if is_punct2(toks, p + 1, n, ':', ':') && is_punct(toks, p + 3, n, '<') {
            lemma_angle_close_bounds(toks, p + 4, 1, n);
        }
        let step: Option<(int, SegArgs)> = if is_punct(toks, p + 1, n, '<') {
            let g = angle_close(toks, p + 2, 1, n);
            if g < n {
                Some((g + 1, SegArgs::Angle { start: (p + 2) as usize, end: g as usize }))
            } else {
                None
            }
        } else if is_punct2(toks, p + 1, n, ':', ':') && is_punct(toks, p + 3, n, '<') {
            let g = angle_close(toks, p + 4, 1, n);
            if g < n {
                Some((g + 1, SegArgs::Angle { start: (p + 4) as usize, end: g as usize }))
            } else {
                None
            }
        } else if is_open(toks, p + 1, n, Delim::Paren) {
            let c = close_from(toks, p + 2, 1, n);
            if c < n {
                Some((c + 1, SegArgs::Paren))
            } else {
                None
            }
        } else {
            Some((p + 1, SegArgs::Bare))
        };
        if let Some((q, args)) = step {
            if q != n && q > p && is_punct2(toks, q, n, ':', ':') && q + 2 < n && toks[q + 2] is Ident {
                lemma_path_walk_args(toks, q + 2, n);
            }
        }
    }
}

} // verus!
