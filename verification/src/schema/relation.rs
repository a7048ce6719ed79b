//! Relation attributes: `#[belongs_to(..)]`, `#[has_many(..)]`,
//! `#[has_one(..)]` and `#[item_parent]`.
use vstd::prelude::*;

use super::attr::{
    close_span, close_span_exec, eq_at, eq_at_exec, expect_err, expect_err_exec, group_at,
    group_at_exec, ident_at, ident_at_exec, meta_path_at, meta_path_at_exec, nested_next,
    nested_next_exec, Attr, MetaKind,
};
use super::model_attr::{find_name, ident_list, name_position};
use crate::diag::{Diag, ErrorKind, Want};
use crate::text::concat;
use crate::tokens::{is_open, is_open_exec, is_punct, is_punct_exec, sym_string, sym_text, Delim, Tok};

verus! {

/// A foreign key source field named in `key = ..`, or the default
/// `<field>_id`.
#[derive(Clone, Copy, PartialEq, Eq, Debug, Structural)]
pub struct SourceRef {
    /// The symbol of the name, or of the relation field for the default.
    pub sym: usize,
    /// Whether this is the `<field>_id` default.
    pub default_id: bool,
    pub span: usize,
}

/// The text of a foreign key source name.
pub open spec fn source_text(syms: Seq<String>, s: SourceRef) -> Seq<char> {
    if s.default_id {
        sym_text(syms, s.sym as int) + "_id"@
    } else {
        sym_text(syms, s.sym as int)
    }
}

pub fn source_string(syms: &Vec<String>, s: SourceRef) -> (r: String)
    ensures
        r@ == source_text(syms@, s),
{
    let t = sym_string(syms, s.sym);
    if s.default_id {
        concat(t.as_str(), "_id")
    } else {
        t
    }
}

/// One field of a foreign key: the position of the source field on this
/// model, and the referenced field on the target (its symbol, or `None`
/// for the default `id`).
#[derive(Clone, Copy, PartialEq, Eq, Debug, Structural)]
pub struct ForeignKeyField {
    pub source: usize,
    pub target: Option<usize>,
}

/// A `#[belongs_to]` relation: its foreign key.
#[derive(Clone, Debug)]
pub struct BelongsTo {
    pub foreign_key: Vec<ForeignKeyField>,
}

/// The token positions of the identifier or bracketed identifier list after
/// `key =` / `references =` at `j`, and the index after it.
pub open spec fn idents_value(toks: Seq<Tok>, syms: Seq<String>, j: int, hi: int, scope: usize) -> Result<(Seq<int>, int), Diag> {
    if is_open(toks, j, hi, Delim::Bracket) {
        match group_at(toks, j, hi, scope, Delim::Bracket, Want::Brackets) {
            Err(e) => Err(e),
            Ok(c) => match ident_list(toks, syms, j + 1, c, close_span(toks, c)) {
                Err(e) => Err(e),
                Ok(ps) => Ok((ps, c + 1)),
            },
        }
    } else {
        match ident_at(toks, syms, j, hi, scope) {
            Err(e) => Err(e),
            Ok(_) => Ok((seq![j], j + 1)),
        }
    }
}

/// Token positions as integers.
pub open spec fn opt_pos(o: Option<Vec<usize>>) -> Option<Seq<int>> {
    match o {
        Some(v) => Some(v@.map_values(|x: usize| x as int)),
        None => None,
    }
}

/// The state of a `#[belongs_to(..)]` list being read.
pub struct FkState {
    pub keys: Option<Seq<int>>,
    pub refs: Option<Seq<int>>,
}

pub open spec fn fk_item(toks: Seq<Tok>, syms: Seq<String>, i: int, hi: int, scope: usize, st: FkState) -> Result<(FkState, int), Diag> {
    match meta_path_at(toks, i, hi, scope) {
        Err(e) => Err(e),
        Ok((p, j)) => if p.is(syms, "key"@) {
            if st.keys is Some {
                Err(Diag::at(p.span, ErrorKind::DuplicateFkKey))
            } else {
                match eq_at(toks, j, hi, scope) {
                    Err(e) => Err(e),
                    Ok(_) => match idents_value(toks, syms, j + 1, hi, scope) {
                        Err(e) => Err(e),
                        Ok((ps, k)) => Ok((FkState { keys: Some(ps), ..st }, k)),
                    },
                }
            }
        } else if p.is(syms, "references"@) {
            if st.refs is Some {
                Err(Diag::at(p.span, ErrorKind::DuplicateFkReferences))
            } else {
                match eq_at(toks, j, hi, scope) {
                    Err(e) => Err(e),
                    Ok(_) => match idents_value(toks, syms, j + 1, hi, scope) {
                        Err(e) => Err(e),
                        Ok((ps, k)) => Ok((FkState { refs: Some(ps), ..st }, k)),
                    },
                }
            }
        } else {
            Err(Diag::at(p.span, ErrorKind::ExpectedKeyOrReferences))
        },
    }
}

pub open spec fn fk_items(toks: Seq<Tok>, syms: Seq<String>, i: int, hi: int, scope: usize, st: FkState) -> Result<FkState, Diag>
    decreases hi - i,
{
    match fk_item(toks, syms, i, hi, scope, st) {
        Err(e) => Err(e),
        Ok((st2, j)) => if j <= i {
            Ok(st2)
        } else {
            match nested_next(toks, j, hi, scope) {
                Err(e) => Err(e),
                Ok(None) => Ok(st2),
                Ok(Some(k)) => fk_items(toks, syms, k, hi, scope, st2),
            }
        },
    }
}

/// The `key` and `references` lists of the attribute (token positions in
/// its arguments), before defaults.
pub open spec fn fk_lists(a: Attr, syms: Seq<String>) -> Result<FkState, Diag> {
    let st0 = FkState { keys: None, refs: None };
    match a.kind {
        MetaKind::Path => Ok(st0),
        MetaKind::NameValue => Err(Diag::at(a.span, ErrorKind::ParensRequired { name: a.name.unwrap_or(0) })),
        MetaKind::List => if a.args@.len() == 0 {
            Ok(st0)
        } else {
            fk_items(a.args@, syms, 0, a.args@.len() as int, a.close_span, st0)
        },
    }
}

/// The foreign key sources: the listed names, or `<field>_id`.
pub open spec fn fk_sources(a: Attr, st: FkState, field: usize, field_span: usize) -> Seq<SourceRef> {
    match st.keys {
        Some(ps) => Seq::new(ps.len(), |q: int| SourceRef { sym: a.args@[ps[q]]->sym, default_id: false, span: a.args@[ps[q]].span_of() }),
        None => seq![SourceRef { sym: field, default_id: true, span: field_span }],
    }
}

/// The foreign key targets after the count checks: the listed names, or
/// `id` for a single inferred source.
pub open spec fn fk_targets(a: Attr, st: FkState, nsrc: int) -> Result<Seq<Option<usize>>, Diag> {
    match st.refs {
        Some(ps) => if ps.len() == 0 {
            Err(Diag::at(a.span, ErrorKind::EmptyFkReferences))
        } else if nsrc != ps.len() {
            Err(Diag::at(a.span, ErrorKind::FkCountMismatch { keys: nsrc as usize, refs: ps.len() as usize }))
        } else {
            Ok(Seq::new(ps.len(), |q: int| Some(a.args@[ps[q]]->sym)))
        },
        None => if nsrc != 1 {
            Err(Diag::at(a.span, ErrorKind::ReferencesNotInferable))
        } else {
            Ok(seq![None])
        },
    }
}

/// Pairs sources with targets, resolving each source among `names`, from
/// `q` on, after `acc`.
pub open spec fn fk_resolve(syms: Seq<String>, names: Seq<usize>, srcs: Seq<SourceRef>, tgts: Seq<Option<usize>>, q: int, acc: Seq<ForeignKeyField>) -> Result<Seq<ForeignKeyField>, Diag>
    decreases srcs.len() - q,
{
    if q >= srcs.len() || q >= tgts.len() || q < 0 {
        Ok(acc)
    } else {
        let s = srcs[q];
        let pos = name_position(syms, names, source_text(syms, s), 0);
        if pos >= names.len() {
            Err(Diag::at(s.span, ErrorKind::FkFieldNotFound { sym: s.sym, default_id: s.default_id }))
        } else {
            fk_resolve(syms, names, srcs, tgts, q + 1, acc.push(ForeignKeyField { source: pos as usize, target: tgts[q] }))
        }
    }
}

/// The foreign key a `#[belongs_to ..]` attribute on the field named `field`
/// declares, given the model's field names.
pub open spec fn belongs_to_spec(a: Attr, syms: Seq<String>, field: usize, field_span: usize, names: Seq<usize>) -> Result<Seq<ForeignKeyField>, Diag> {
    match fk_lists(a, syms) {
        Err(e) => Err(e),
        Ok(st) => {
            let srcs = fk_sources(a, st, field, field_span);
            if srcs.len() == 0 {
                Err(Diag::at(a.span, ErrorKind::EmptyFkKey))
            } else {
                match fk_targets(a, st, srcs.len() as int) {
                    Err(e) => Err(e),
                    Ok(tgts) => fk_resolve(syms, names, srcs, tgts, 0, Seq::empty()),
                }
            }
        },
    }
}

fn idents_value_exec(toks: &Vec<Tok>, syms: &Vec<String>, j: usize, hi: usize, scope: usize) -> (r: Result<(Vec<usize>, usize), Diag>)
    requires
        hi <= toks@.len(),
    ensures
        r matches Ok((v, k)) ==> idents_value(toks@, syms@, j as int, hi as int, scope) == Ok::<(Seq<int>, int), Diag>((v@.map_values(|x: usize| x as int), k as int)) && j < k <= hi,
        r matches Ok((v, k)) ==> forall|q: int| 0 <= q < v@.len() ==> #[trigger] v@[q] < toks@.len() && toks@[v@[q] as int] is Ident,
        r matches Err(e) ==> idents_value(toks@, syms@, j as int, hi as int, scope) == Err::<(Seq<int>, int), Diag>(e),
{
    if is_open_exec(toks, j, hi, Delim::Bracket) {
        let c = match group_at_exec(toks, j, hi, scope, Delim::Bracket, Want::Brackets) {
            Err(e) => return Err(e),
            Ok(c) => c,
        };
        let cs = close_span_exec(toks, c);
        let ps = match ident_list_positions(toks, syms, j + 1, c, cs) {
            Err(e) => return Err(e),
            Ok(ps) => ps,
        };
        Ok((ps, c + 1))
    } else {
        match ident_at_exec(toks, syms, j, hi, scope) {
            Err(e) => return Err(e),
            Ok(_) => {},
        }
        let mut v = Vec::new();
        v.push(j);
        proof {
            assert(v@.map_values(|x: usize| x as int) =~= seq![j as int]);
        }
        Ok((v, j + 1))
    }
}

/// The token positions of a comma-separated identifier list in `k..c`.
pub fn ident_list_positions(toks: &Vec<Tok>, syms: &Vec<String>, k0: usize, c: usize, scope: usize) -> (r: Result<Vec<usize>, Diag>)
    requires
        c <= toks@.len(),
    ensures
        r matches Ok(v) ==> ident_list(toks@, syms@, k0 as int, c as int, scope) == Ok::<Seq<int>, Diag>(v@.map_values(|x: usize| x as int)),
        r matches Ok(v) ==> forall|q: int| 0 <= q < v@.len() ==> #[trigger] v@[q] < toks@.len() && toks@[v@[q] as int] is Ident,
        r matches Err(e) ==> ident_list(toks@, syms@, k0 as int, c as int, scope) == Err::<Seq<int>, Diag>(e),
    decreases c - k0,
{
    if k0 >= c {
        let v: Vec<usize> = Vec::new();
        proof {
            assert(v@.map_values(|x: usize| x as int) =~= Seq::<int>::empty());
        }
        return Ok(v);
    }
    match ident_at_exec(toks, syms, k0, c, scope) {
        Err(e) => return Err(e),
        Ok(_) => {},
    }
    if k0 + 1 >= c {
        let mut v = Vec::new();
        v.push(k0);
        proof {
            assert(v@.map_values(|x: usize| x as int) =~= seq![k0 as int]);
        }
        return Ok(v);
    }
    if !is_punct_exec(toks, k0 + 1, c, ',') {
        return Err(expect_err_exec(toks, k0 + 1, c, scope, Want::Comma));
    }
    let rest = match ident_list_positions(toks, syms, k0 + 2, c, scope) {
        Err(e) => return Err(e),
        Ok(rest) => rest,
    };
    let mut v = Vec::new();
    v.push(k0);
    let mut q: usize = 0;
    while q < rest.len()
        invariant
            v@ == seq![k0] + rest@.subrange(0, q as int),
            q <= rest@.len(),
        decreases rest.len() - q,
    {
        v.push(rest[q]);
        q = q + 1;
        assert(v@ =~= seq![k0] + rest@.subrange(0, q as int));
    }
    proof {
        assert(rest@.subrange(0, q as int) =~= rest@);
        assert(v@.map_values(|x: usize| x as int) =~= seq![k0 as int] + rest@.map_values(|x: usize| x as int));
        assert forall|q2: int| 0 <= q2 < v@.len() implies #[trigger] v@[q2] < toks@.len() && toks@[v@[q2] as int] is Ident by {
            if q2 > 0 {
                assert(v@[q2] == rest@[q2 - 1]);
            }
        }
    }
    Ok(v)
}

impl BelongsTo {
    /// Reads `#[belongs_to ..]` on the field named `field` (a symbol, with
    /// span `field_span`), given the model's field names.
    pub fn from_ast(a: &Attr, syms: &Vec<String>, field: usize, field_span: usize, names: &Vec<usize>) -> (r: Result<BelongsTo, Diag>)
        ensures
            r matches Ok(b) ==> belongs_to_spec(*a, syms@, field, field_span, names@) == Ok::<Seq<ForeignKeyField>, Diag>(b.foreign_key@),
            r matches Err(e) ==> belongs_to_spec(*a, syms@, field, field_span, names@) == Err::<Seq<ForeignKeyField>, Diag>(e),
    {
        let toks = &a.args;
        let hi = toks.len();
        let scope = a.close_span;
        let mut keys: Option<Vec<usize>> = None;
        let mut refs: Option<Vec<usize>> = None;
        let ghost st0 = FkState { keys: None, refs: None };
        match a.kind {
            MetaKind::Path => {},
            MetaKind::NameValue => {
                let name = match a.name {
                    Some(s) => s,
                    None => 0,
                };
                return Err(Diag { span: a.span, kind: ErrorKind::ParensRequired { name } });
            },
            MetaKind::List => {
                if hi > 0 {
                    let mut i: usize = 0;
                    loop
                        invariant_except_break
                            i < hi,
                            fk_items(toks@, syms@, 0, hi as int, scope, st0) == fk_items(toks@, syms@, i as int, hi as int, scope, FkState {
                                keys: opt_pos(keys),
                                refs: opt_pos(refs),
                            }),
                        invariant
                            toks == &a.args,
                            hi == toks@.len(),
                            scope == a.close_span,
                            hi > 0,
                            a.kind == MetaKind::List,
                            st0 == (FkState { keys: None, refs: None }),
                            keys matches Some(v) ==> forall|q: int| 0 <= q < v@.len() ==> #[trigger] v@[q] < toks@.len() && toks@[v@[q] as int] is Ident,
                            refs matches Some(v) ==> forall|q: int| 0 <= q < v@.len() ==> #[trigger] v@[q] < toks@.len() && toks@[v@[q] as int] is Ident,
                        ensures
                            fk_items(toks@, syms@, 0, hi as int, scope, st0) == Ok::<FkState, Diag>(FkState {
                                keys: opt_pos(keys),
                                refs: opt_pos(refs),
                            }),
                        decreases hi - i,
                    {
                        let (p, j) = match meta_path_at_exec(toks, i, hi, scope) {
                            Err(e) => return Err(e),
                            Ok(pj) => pj,
                        };
                        let k;
                        if p.is_exec(syms, "key") {
                            if keys.is_some() {
                                return Err(Diag { span: p.span, kind: ErrorKind::DuplicateFkKey });
                            }
                            match eq_at_exec(toks, j, hi, scope) {
                                Err(e) => return Err(e),
                                Ok(_) => {},
                            }
                            let (v, k1) = match idents_value_exec(toks, syms, j + 1, hi, scope) {
                                Err(e) => return Err(e),
                                Ok(vk) => vk,
                            };
                            keys = Some(v);
                            k = k1;
                        } else if p.is_exec(syms, "references") {
                            if refs.is_some() {
                                return Err(Diag { span: p.span, kind: ErrorKind::DuplicateFkReferences });
                            }
                            match eq_at_exec(toks, j, hi, scope) {
                                Err(e) => return Err(e),
                                Ok(_) => {},
                            }
                            let (v, k1) = match idents_value_exec(toks, syms, j + 1, hi, scope) {
                                Err(e) => return Err(e),
                                Ok(vk) => vk,
                            };
                            refs = Some(v);
                            k = k1;
                        } else {
                            return Err(Diag { span: p.span, kind: ErrorKind::ExpectedKeyOrReferences });
                        }
                        match nested_next_exec(toks, k, hi, scope) {
                            Err(e) => return Err(e),
                            Ok(None) => break,
                            Ok(Some(k2)) => {
                                i = k2;
                            },
                        }
                    }
                }
            },
        }
        let ghost st = FkState {
            keys: opt_pos(keys),
            refs: opt_pos(refs),
        };
        assert(fk_lists(*a, syms@) == Ok::<FkState, Diag>(st));
        // sources
        let mut srcs: Vec<SourceRef> = Vec::new();
        match &keys {
            Some(ps) => {
                let mut q: usize = 0;
                while q < ps.len()
                    invariant
                        toks == &a.args,
                        keys == Some(*ps),
                        st.keys == Some(ps@.map_values(|x: usize| x as int)),
                        forall|t: int| 0 <= t < ps@.len() ==> #[trigger] ps@[t] < toks@.len() && toks@[ps@[t] as int] is Ident,
                        q <= ps@.len(),
                        srcs@ == fk_sources(*a, st, field, field_span).subrange(0, q as int),
                        fk_sources(*a, st, field, field_span).len() == ps@.len(),
                    decreases ps.len() - q,
                {
                    let t = toks[ps[q]];
                    let (sym, span) = match t {
                        Tok::Ident { sym, span } => (sym, span),
                        _ => (0, 0),
                    };
                    srcs.push(SourceRef { sym, default_id: false, span });
                    q = q + 1;
                    assert(srcs@ =~= fk_sources(*a, st, field, field_span).subrange(0, q as int));
                }
                assert(srcs@ =~= fk_sources(*a, st, field, field_span));
            },
            None => {
                srcs.push(SourceRef { sym: field, default_id: true, span: field_span });
                assert(srcs@ =~= fk_sources(*a, st, field, field_span));
            },
        }
        if srcs.len() == 0 {
            return Err(Diag { span: a.span, kind: ErrorKind::EmptyFkKey });
        }
        // targets
        let mut tgts: Vec<Option<usize>> = Vec::new();
        match &refs {
            Some(ps) => {
                if ps.len() == 0 {
                    return Err(Diag { span: a.span, kind: ErrorKind::EmptyFkReferences });
                }
                if srcs.len() != ps.len() {
                    return Err(Diag { span: a.span, kind: ErrorKind::FkCountMismatch { keys: srcs.len(), refs: ps.len() } });
                }
                let ghost want = Seq::new(ps@.len(), |q: int| Some(a.args@[ps@[q] as int]->sym));
                let mut q: usize = 0;
                while q < ps.len()
                    invariant
                        toks == &a.args,
                        forall|t: int| 0 <= t < ps@.len() ==> #[trigger] ps@[t] < toks@.len() && toks@[ps@[t] as int] is Ident,
                        q <= ps@.len(),
                        want == Seq::new(ps@.len(), |q: int| Some(a.args@[ps@[q] as int]->sym)),
                        tgts@ == want.subrange(0, q as int),
                    decreases ps.len() - q,
                {
                    let t = toks[ps[q]];
                    let sym = match t {
                        Tok::Ident { sym, .. } => sym,
                        _ => 0,
                    };
                    tgts.push(Some(sym));
                    q = q + 1;
                    assert(tgts@ =~= want.subrange(0, q as int));
                }
                assert(tgts@ =~= want);
                assert(st.refs == Some(ps@.map_values(|x: usize| x as int)));
                assert(want =~= Seq::new(ps@.map_values(|x: usize| x as int).len(), |q: int| Some(a.args@[ps@.map_values(|x: usize| x as int)[q]]->sym)));
            },
            None => {
                if srcs.len() != 1 {
                    return Err(Diag { span: a.span, kind: ErrorKind::ReferencesNotInferable });
                }
                tgts.push(None);
                assert(tgts@ =~= seq![None::<usize>]);
            },
        }
        assert(fk_targets(*a, st, srcs@.len() as int) == Ok::<Seq<Option<usize>>, Diag>(tgts@));
        assert(belongs_to_spec(*a, syms@, field, field_span, names@) == fk_resolve(syms@, names@, srcs@, tgts@, 0, Seq::empty()));
        // resolve
        let mut fk: Vec<ForeignKeyField> = Vec::new();
        let mut q: usize = 0;
        while q < srcs.len()
            invariant
                q <= srcs@.len(),
                srcs@.len() == tgts@.len(),
                belongs_to_spec(*a, syms@, field, field_span, names@) == fk_resolve(syms@, names@, srcs@, tgts@, 0, Seq::empty()),
                fk_resolve(syms@, names@, srcs@, tgts@, 0, Seq::empty()) == fk_resolve(syms@, names@, srcs@, tgts@, q as int, fk@),
            decreases srcs.len() - q,
        {
            let s = srcs[q];
            let text = source_string(syms, s);
            let pos = find_name(syms, names, text.as_str());
            if pos >= names.len() {
                return Err(Diag { span: s.span, kind: ErrorKind::FkFieldNotFound { sym: s.sym, default_id: s.default_id } });
            }
            fk.push(ForeignKeyField { source: pos, target: tgts[q] });
            q = q + 1;
        }
        Ok(BelongsTo { foreign_key: fk })
    }
}

/// The `pair = a.b` and `via = a.b` settings of `#[has_many(..)]` and
/// `#[has_one(..)]` (symbols of the path's identifiers).
#[derive(Clone, Debug)]
pub struct RelationAttrs {
    pub pair: Option<Vec<usize>>,
    pub via: Option<Vec<usize>>,
}

/// A dot-separated identifier path at `j` (at least one identifier): the
/// symbols from `acc` on, and the index after it.
pub open spec fn dotted_rest(toks: Seq<Tok>, syms: Seq<String>, j: int, hi: int, scope: usize, acc: Seq<usize>) -> Result<(Seq<usize>, int), Diag>
    decreases hi - j,
{
    match ident_at(toks, syms, j, hi, scope) {
        Err(e) => Err(e),
        Ok(s) => if j + 1 < hi && is_punct(toks, j + 1, hi, '.') && j + 2 > j {
            dotted_rest(toks, syms, j + 2, hi, scope, acc.push(s))
        } else {
            Ok((acc.push(s), j + 1))
        },
    }
}

pub struct PairVia {
    pub pair: Option<Seq<usize>>,
    pub via: Option<Seq<usize>>,
}

pub open spec fn pair_via_item(toks: Seq<Tok>, syms: Seq<String>, i: int, hi: int, scope: usize, st: PairVia) -> Result<(PairVia, int), Diag> {
    match meta_path_at(toks, i, hi, scope) {
        Err(e) => Err(e),
        Ok((p, j)) => if p.is(syms, "pair"@) || p.is(syms, "via"@) {
            match eq_at(toks, j, hi, scope) {
                Err(e) => Err(e),
                Ok(_) => match dotted_rest(toks, syms, j + 1, hi, scope, Seq::empty()) {
                    Err(e) => Err(e),
                    Ok((v, k)) => Ok((if p.is(syms, "pair"@) {
                        PairVia { pair: Some(v), ..st }
                    } else {
                        PairVia { via: Some(v), ..st }
                    }, k)),
                },
            }
        } else {
            Err(Diag::at(p.span, ErrorKind::ExpectedPairOrVia))
        },
    }
}

pub open spec fn pair_via_items(toks: Seq<Tok>, syms: Seq<String>, i: int, hi: int, scope: usize, st: PairVia) -> Result<PairVia, Diag>
    decreases hi - i,
{
    match pair_via_item(toks, syms, i, hi, scope, st) {
        Err(e) => Err(e),
        Ok((st2, j)) => if j <= i {
            Ok(st2)
        } else {
            match nested_next(toks, j, hi, scope) {
                Err(e) => Err(e),
                Ok(None) => Ok(st2),
                Ok(Some(k)) => pair_via_items(toks, syms, k, hi, scope, st2),
            }
        },
    }
}

/// What the arguments of `#[has_many ..]` / `#[has_one ..]` say: only a
/// list is read; `pair` and `via` exclude each other.
pub open spec fn relation_attrs_spec(a: Attr, syms: Seq<String>) -> Result<PairVia, Diag> {
    let st0 = PairVia { pair: None, via: None };
    let r = if a.kind == MetaKind::List && a.args@.len() > 0 {
        pair_via_items(a.args@, syms, 0, a.args@.len() as int, a.close_span, st0)
    } else {
        Ok(st0)
    };
    match r {
        Err(e) => Err(e),
        Ok(st) => if st.pair is Some && st.via is Some {
            Err(Diag::at(a.span, ErrorKind::PairAndVia))
        } else {
            Ok(st)
        },
    }
}

impl RelationAttrs {
    pub open spec fn view(&self) -> PairVia {
        PairVia {
            pair: match self.pair { Some(v) => Some(v@), None => None },
            via: match self.via { Some(v) => Some(v@), None => None },
        }
    }
}

fn dotted_exec(toks: &Vec<Tok>, syms: &Vec<String>, j0: usize, hi: usize, scope: usize) -> (r: Result<(Vec<usize>, usize), Diag>)
    requires
        hi <= toks@.len(),
    ensures
        r matches Ok((v, k)) ==> dotted_rest(toks@, syms@, j0 as int, hi as int, scope, Seq::empty()) == Ok::<(Seq<usize>, int), Diag>((v@, k as int)) && j0 < k <= hi,
        r matches Err(e) ==> dotted_rest(toks@, syms@, j0 as int, hi as int, scope, Seq::empty()) == Err::<(Seq<usize>, int), Diag>(e),
{
    let mut acc: Vec<usize> = Vec::new();
    let mut j = j0;
    loop
        invariant
            hi <= toks@.len(),
            j0 <= j,
            dotted_rest(toks@, syms@, j0 as int, hi as int, scope, Seq::empty()) == dotted_rest(toks@, syms@, j as int, hi as int, scope, acc@),
        decreases hi - j,
    {
        let s = match ident_at_exec(toks, syms, j, hi, scope) {
            Err(e) => return Err(e),
            Ok(s) => s,
        };
        acc.push(s);
        if j + 1 < hi && is_punct_exec(toks, j + 1, hi, '.') {
            j = j + 2;
        } else {
            return Ok((acc, j + 1));
        }
    }
}

/// Reads the arguments of `#[has_many ..]` / `#[has_one ..]`.
pub fn parse_has_relation_attrs(a: &Attr, syms: &Vec<String>) -> (r: Result<RelationAttrs, Diag>)
    ensures
        r matches Ok(v) ==> relation_attrs_spec(*a, syms@) == Ok::<PairVia, Diag>(v.view()),
        r matches Err(e) ==> relation_attrs_spec(*a, syms@) == Err::<PairVia, Diag>(e),
{
    let toks = &a.args;
    let hi = toks.len();
    let scope = a.close_span;
    let mut pair: Option<Vec<usize>> = None;
    let mut via: Option<Vec<usize>> = None;
    let ghost st0 = PairVia { pair: None, via: None };
    if a.kind == MetaKind::List && hi > 0 {
        let mut i: usize = 0;
        loop
            invariant_except_break
                i < hi,
                pair_via_items(toks@, syms@, 0, hi as int, scope, st0) == pair_via_items(toks@, syms@, i as int, hi as int, scope, (RelationAttrs { pair, via }).view()),
            invariant
                toks == &a.args,
                hi == toks@.len(),
                scope == a.close_span,
                a.kind == MetaKind::List,
                hi > 0,
                st0 == (PairVia { pair: None, via: None }),
            ensures
                pair_via_items(toks@, syms@, 0, hi as int, scope, st0) == Ok::<PairVia, Diag>((RelationAttrs { pair, via }).view()),
            decreases hi - i,
        {
            let (p, j) = match meta_path_at_exec(toks, i, hi, scope) {
                Err(e) => return Err(e),
                Ok(pj) => pj,
            };
            if p.is_exec(syms, "pair") || p.is_exec(syms, "via") {
                match eq_at_exec(toks, j, hi, scope) {
                    Err(e) => return Err(e),
                    Ok(_) => {},
                }
                let (v, k) = match dotted_exec(toks, syms, j + 1, hi, scope) {
                    Err(e) => return Err(e),
                    Ok(vk) => vk,
                };
                if p.is_exec(syms, "pair") {
                    pair = Some(v);
                } else {
                    via = Some(v);
                }
                match nested_next_exec(toks, k, hi, scope) {
                    Err(e) => return Err(e),
                    Ok(None) => break,
                    Ok(Some(k2)) => {
                        i = k2;
                    },
                }
            } else {
                return Err(Diag { span: p.span, kind: ErrorKind::ExpectedPairOrVia });
            }
        }
    }
    if pair.is_some() && via.is_some() {
        return Err(Diag { span: a.span, kind: ErrorKind::PairAndVia });
    }
    Ok(RelationAttrs { pair, via })
}

/// `#[item_parent]` takes no arguments: the span of the attribute, or an
/// error.
pub open spec fn item_parent_spec(a: Attr) -> Result<usize, Diag> {
    if a.kind == MetaKind::Path {
        Ok(a.span)
    } else {
        Err(Diag::at(a.span, ErrorKind::ItemParentArgs))
    }
}

/// Reads `#[item_parent]`.
pub fn item_parent_from_ast(a: &Attr) -> (r: Result<usize, Diag>)
    ensures
        r == item_parent_spec(*a),
{
    if a.kind == MetaKind::Path {
        Ok(a.span)
    } else {
        Err(Diag { span: a.span, kind: ErrorKind::ItemParentArgs })
    }
}

} // verus!
