//! Struct-level attributes: `#[key(..)]`, `#[index(..)]`, `#[unique(..)]`,
//! `#[table ..]` and table comments.
use vstd::prelude::*;

use super::attr::{
    attr_is, attr_is_exec, close_span, close_span_exec, eq_at, eq_at_exec, expect_err,
    expect_err_exec, group_at, group_at_exec, ident_at, ident_at_exec, leftover_err,
    lit_str_at, lit_str_at_exec, meta_path_at, meta_path_at_exec, nested_next,
    nested_next_exec, Attr, MetaKind, MetaPath,
};
use crate::case::{char_is_whitespace, is_whitespace};
use crate::diag::{Diag, ErrorKind, Want};
use crate::text::{contains_char, str_eq};
use crate::tokens::{
    is_ident, is_ident_exec, is_lit, is_lit_exec, is_open, is_open_exec, is_punct,
    is_punct_exec, sym_string, sym_text, Delim, LitKind, Tok,
};

verus! {

/// A comment is acceptable: not only whitespace, and without a NUL
/// character.
pub open spec fn comment_check(syms: Seq<String>, value: usize, span: usize) -> Result<usize, Diag> {
    let t = sym_text(syms, value as int);
    if forall|k: int| 0 <= k < t.len() ==> is_whitespace(#[trigger] t[k]) {
        Err(Diag::at(span, ErrorKind::EmptyComment))
    } else if t.contains('\0') {
        Err(Diag::at(span, ErrorKind::NulInComment))
    } else {
        Ok(value)
    }
}

/// Checks a table comment (the value of the string literal with span
/// `span`).
pub fn validate_comment(syms: &Vec<String>, value: usize, span: usize) -> (r: Result<usize, Diag>)
    ensures
        r == comment_check(syms@, value, span),
{
    let t = sym_string(syms, value);
    let s = t.as_str();
    let n = s.unicode_len();
    let mut i: usize = 0;
    let mut blank = true;
    while i < n
        invariant
            n == s@.len(),
            s@ == sym_text(syms@, value as int),
            i <= n,
            blank == forall|k: int| 0 <= k < i ==> is_whitespace(#[trigger] s@[k]),
        decreases n - i,
    {
        let w = char_is_whitespace(s.get_char(i));
        proof {
            if !w {
                assert(!is_whitespace(s@[i as int]));
            }
        }
        blank = blank && w;
        i = i + 1;
    }
    if blank {
        return Err(Diag { span, kind: ErrorKind::EmptyComment });
    }
    if contains_char(s, '\0') {
        return Err(Diag { span, kind: ErrorKind::NulInComment });
    }
    Ok(value)
}

/// The name and comment of a `#[table ..]` attribute (symbols of string
/// literal values).
#[derive(Clone, Copy, PartialEq, Eq, Debug, Structural)]
pub struct TableAttr {
    pub name: Option<usize>,
    pub comment: Option<usize>,
}

/// One item of a `#[table(..)]` list at `i`, added to `acc`.
pub open spec fn table_item(toks: Seq<Tok>, syms: Seq<String>, i: int, n: int, scope: usize, acc: TableAttr) -> Result<(TableAttr, int), Diag> {
    if is_lit(toks, i, n, LitKind::Str) {
        if acc.name is Some {
            Err(Diag::at(toks[i].span_of(), ErrorKind::DuplicateTableName))
        } else {
            Ok((TableAttr { name: Some(toks[i]->value), ..acc }, i + 1))
        }
    } else if is_ident(toks, syms, i, n, "name"@) {
        if acc.name is Some {
            Err(Diag::at(toks[i].span_of(), ErrorKind::DuplicateTableName))
        } else {
            match eq_at(toks, i + 1, n, scope) {
                Err(e) => Err(e),
                Ok(_) => match lit_str_at(toks, i + 2, n, scope) {
                    Err(e) => Err(e),
                    Ok(v) => Ok((TableAttr { name: Some(v), ..acc }, i + 3)),
                },
            }
        }
    } else if is_ident(toks, syms, i, n, "comment"@) {
        if acc.comment is Some {
            Err(Diag::at(toks[i].span_of(), ErrorKind::DuplicateTableComment))
        } else {
            match eq_at(toks, i + 1, n, scope) {
                Err(e) => Err(e),
                Ok(_) => match lit_str_at(toks, i + 2, n, scope) {
                    Err(e) => Err(e),
                    Ok(v) => match comment_check(syms, v, toks[i + 2].span_of()) {
                        Err(e) => Err(e),
                        Ok(v) => Ok((TableAttr { comment: Some(v), ..acc }, i + 3)),
                    },
                },
            }
        }
    } else {
        Err(expect_err(toks, i, n, scope, Want::TableArg))
    }
}

pub open spec fn table_items(toks: Seq<Tok>, syms: Seq<String>, i: int, n: int, scope: usize, acc: TableAttr) -> Result<TableAttr, Diag>
    decreases n - i,
{
    match table_item(toks, syms, i, n, scope, acc) {
        Err(e) => Err(e),
        Ok((t, j)) => if j >= n || j <= i {
            Ok(t)
        } else if !is_punct(toks, j, n, ',') {
            Err(expect_err(toks, j, n, scope, Want::Comma))
        } else {
            table_items(toks, syms, j + 1, n, scope, t)
        },
    }
}

/// What a `#[table ..]` attribute says: `#[table = "name"]` or
/// `#[table("name", comment = "..")]` and the like.
pub open spec fn table_from_attr_spec(a: Attr, syms: Seq<String>) -> Result<TableAttr, Diag> {
    match a.kind {
        MetaKind::NameValue => if a.args@.len() == 1 && is_lit(a.args@, 0, 1, LitKind::Str) {
            Ok(TableAttr { name: Some(a.args@[0]->value), comment: None })
        } else {
            Err(Diag::at(a.span, ErrorKind::ExpectedTableAttr))
        },
        MetaKind::List => table_items(a.args@, syms, 0, a.args@.len() as int, a.close_span, TableAttr { name: None, comment: None }),
        MetaKind::Path => Err(Diag::at(a.span, ErrorKind::ExpectedTableAttr)),
    }
}

fn table_item_exec(toks: &Vec<Tok>, syms: &Vec<String>, i: usize, scope: usize, acc: TableAttr) -> (r: Result<(TableAttr, usize), Diag>)
    ensures
        r matches Ok((t, j)) ==> table_item(toks@, syms@, i as int, toks@.len() as int, scope, acc) == Ok::<(TableAttr, int), Diag>((t, j as int)) && i < j,
        r matches Err(e) ==> table_item(toks@, syms@, i as int, toks@.len() as int, scope, acc) == Err::<(TableAttr, int), Diag>(e),
{
    let n = toks.len();
    if is_lit_exec(toks, i, n, LitKind::Str) {
        if acc.name.is_some() {
            return Err(Diag { span: toks[i].span(), kind: ErrorKind::DuplicateTableName });
        }
        let v = match toks[i] {
            Tok::Lit { value, .. } => value,
            _ => 0,
        };
        return Ok((TableAttr { name: Some(v), ..acc }, i + 1));
    }
    if is_ident_exec(toks, syms, i, n, "name") {
        if acc.name.is_some() {
            return Err(Diag { span: toks[i].span(), kind: ErrorKind::DuplicateTableName });
        }
        match eq_at_exec(toks, i + 1, n, scope) {
            Err(e) => return Err(e),
            Ok(_) => {},
        }
        let v = match lit_str_at_exec(toks, i + 2, n, scope) {
            Err(e) => return Err(e),
            Ok(v) => v,
        };
        return Ok((TableAttr { name: Some(v), ..acc }, i + 3));
    }
    if is_ident_exec(toks, syms, i, n, "comment") {
        if acc.comment.is_some() {
            return Err(Diag { span: toks[i].span(), kind: ErrorKind::DuplicateTableComment });
        }
        match eq_at_exec(toks, i + 1, n, scope) {
            Err(e) => return Err(e),
            Ok(_) => {},
        }
        let v = match lit_str_at_exec(toks, i + 2, n, scope) {
            Err(e) => return Err(e),
            Ok(v) => v,
        };
        let v = match validate_comment(syms, v, toks[i + 2].span()) {
            Err(e) => return Err(e),
            Ok(v) => v,
        };
        return Ok((TableAttr { comment: Some(v), ..acc }, i + 3));
    }
    Err(expect_err_exec(toks, i, n, scope, Want::TableArg))
}

impl TableAttr {
    /// Reads a `#[table ..]` attribute.
    pub fn from_ast(a: &Attr, syms: &Vec<String>) -> (r: Result<TableAttr, Diag>)
        ensures
            r == table_from_attr_spec(*a, syms@),
    {
        match a.kind {
            MetaKind::NameValue => {
                if a.args.len() == 1 && is_lit_exec(&a.args, 0, 1, LitKind::Str) {
                    let v = match a.args[0] {
                        Tok::Lit { value, .. } => value,
                        _ => 0,
                    };
                    Ok(TableAttr { name: Some(v), comment: None })
                } else {
                    Err(Diag { span: a.span, kind: ErrorKind::ExpectedTableAttr })
                }
            },
            MetaKind::Path => Err(Diag { span: a.span, kind: ErrorKind::ExpectedTableAttr }),
            MetaKind::List => {
                let toks = &a.args;
                let scope = a.close_span;
                let n = toks.len();
                let mut acc = TableAttr { name: None, comment: None };
                let mut i: usize = 0;
                loop
                    invariant
                        toks == &a.args,
                        scope == a.close_span,
                        n == toks@.len(),
                        a.kind == MetaKind::List,
                        i <= n,
                        table_items(toks@, syms@, i as int, n as int, scope, acc) == table_from_attr_spec(*a, syms@),
                    decreases n - i,
                {
                    let (t, j) = match table_item_exec(toks, syms, i, scope, acc) {
                        Err(e) => return Err(e),
                        Ok(p) => p,
                    };
                    if j >= n {
                        return Ok(t);
                    }
                    if !is_punct_exec(toks, j, n, ',') {
                        return Err(expect_err_exec(toks, j, n, scope, Want::Comma));
                    }
                    acc = t;
                    i = j + 1;
                }
            },
        }
    }
}

/// The first position in `names` whose text is `t`, or `names.len()`.
pub open spec fn name_position(syms: Seq<String>, names: Seq<usize>, t: Seq<char>, from: int) -> int
    decreases names.len() - from,
{
    if from >= names.len() || from < 0 {
        names.len() as int
    } else if sym_text(syms, names[from] as int) == t {
        from
    } else {
        name_position(syms, names, t, from + 1)
    }
}

proof fn lemma_name_position_bounds(syms: Seq<String>, names: Seq<usize>, t: Seq<char>, from: int)
    requires
        0 <= from,
    ensures
        from <= name_position(syms, names, t, from) <= names.len() || name_position(syms, names, t, from) == names.len(),
        name_position(syms, names, t, from) < names.len() ==> sym_text(syms, names[name_position(syms, names, t, from)] as int) == t,
    decreases names.len() - from,
{
    if from < names.len() && sym_text(syms, names[from] as int) != t {
        lemma_name_position_bounds(syms, names, t, from + 1);
    }
}

/// Finds the position of a name among `names`.
pub fn find_name(syms: &Vec<String>, names: &Vec<usize>, t: &str) -> (r: usize)
    ensures
        r == name_position(syms@, names@, t@, 0),
        r <= names@.len(),
{
    let mut i: usize = 0;
    while i < names.len()
        invariant
            i <= names@.len(),
            name_position(syms@, names@, t@, 0) == name_position(syms@, names@, t@, i as int),
        decreases names.len() - i,
    {
        let s = sym_string(syms, names[i]);
        if str_eq(s.as_str(), t) {
            return i;
        }
        i = i + 1;
    }
    i
}

/// The fields of a `#[key(..)]`, `#[index(..)]` or `#[unique(..)]` (as
/// positions among the model's field names) and its optional index name.
#[derive(Clone, Debug)]
pub struct KeyAttr {
    pub partition: Vec<usize>,
    pub local: Vec<usize>,
    /// Symbol of the `name = ".."` value.
    pub name: Option<usize>,
    /// Set for struct-level `#[unique(..)]`.
    pub unique: bool,
}

/// A `KeyAttr` as a mathematical value.
pub struct KeyAttrV {
    pub partition: Seq<usize>,
    pub local: Seq<usize>,
    pub name: Option<usize>,
    pub unique: bool,
}

impl KeyAttr {
    pub open spec fn view(&self) -> KeyAttrV {
        KeyAttrV { partition: self.partition@, local: self.local@, name: self.name, unique: self.unique }
    }
}

/// The state of a `#[key(..)]` list being read.
pub struct KeyState {
    pub partition: Seq<usize>,
    pub local: Seq<usize>,
    pub simple: Seq<usize>,
    pub name: Option<usize>,
    pub has_named: bool,
}

pub open spec fn key_state0() -> KeyState {
    KeyState { partition: Seq::empty(), local: Seq::empty(), simple: Seq::empty(), name: None, has_named: false }
}

/// The token positions of a comma-separated identifier list in `k..c`
/// (trailing comma allowed), or the first error.
pub open spec fn ident_list(toks: Seq<Tok>, syms: Seq<String>, k: int, c: int, scope: usize) -> Result<Seq<int>, Diag>
    decreases c - k,
{
    if k >= c {
        Ok(Seq::empty())
    } else {
        match ident_at(toks, syms, k, c, scope) {
            Err(e) => Err(e),
            Ok(_) => if k + 1 >= c {
                Ok(seq![k])
            } else if !is_punct(toks, k + 1, c, ',') {
                Err(expect_err(toks, k + 1, c, scope, Want::Comma))
            } else {
                match ident_list(toks, syms, k + 2, c, scope) {
                    Err(e) => Err(e),
                    Ok(rest) => Ok(seq![k] + rest),
                }
            },
        }
    }
}

/// The positions among `names` of the identifiers at token positions
/// `ps[q..]`, after `acc`; or an error at the first one that is not a field
/// name.
pub open spec fn resolve_from(toks: Seq<Tok>, syms: Seq<String>, names: Seq<usize>, ps: Seq<int>, q: int, acc: Seq<usize>) -> Result<Seq<usize>, Diag>
    decreases ps.len() - q,
{
    if q >= ps.len() || q < 0 {
        Ok(acc)
    } else {
        let p = ps[q];
        let t = sym_text(syms, toks[p]->sym as int);
        let pos = name_position(syms, names, t, 0);
        if pos >= names.len() {
            Err(Diag::at(toks[p].span_of(), ErrorKind::UnknownField { sym: toks[p]->sym }))
        } else {
            resolve_from(toks, syms, names, ps, q + 1, acc.push(pos as usize))
        }
    }
}

/// The positions among `names` of the identifiers at token positions `ps`.
pub open spec fn resolve_names(toks: Seq<Tok>, syms: Seq<String>, names: Seq<usize>, ps: Seq<int>) -> Result<Seq<usize>, Diag> {
    resolve_from(toks, syms, names, ps, 0, Seq::empty())
}

/// The field list after `partition =` or `local =` at `j` (an identifier
/// or a bracketed list): the resolved positions and the index after it.
pub open spec fn key_targets(toks: Seq<Tok>, syms: Seq<String>, names: Seq<usize>, j: int, hi: int, scope: usize) -> Result<(Seq<usize>, int), Diag> {
    if is_open(toks, j, hi, Delim::Bracket) {
        match group_at(toks, j, hi, scope, Delim::Bracket, Want::Brackets) {
            Err(e) => Err(e),
            Ok(c) => match ident_list(toks, syms, j + 1, c, close_span(toks, c)) {
                Err(e) => Err(e),
                Ok(ps) => match resolve_names(toks, syms, names, ps) {
                    Err(e) => Err(e),
                    Ok(v) => Ok((v, c + 1)),
                },
            },
        }
    } else {
        match ident_at(toks, syms, j, hi, scope) {
            Err(e) => Err(e),
            Ok(_) => match resolve_names(toks, syms, names, seq![j]) {
                Err(e) => Err(e),
                Ok(v) => Ok((v, j + 1)),
            },
        }
    }
}

/// One item of a key list at `i`.
pub open spec fn key_item(toks: Seq<Tok>, syms: Seq<String>, names: Seq<usize>, i: int, hi: int, scope: usize, st: KeyState) -> Result<(KeyState, int), Diag> {
    match meta_path_at(toks, i, hi, scope) {
        Err(e) => Err(e),
        Ok((p, j)) => if p.is(syms, "name"@) && is_punct(toks, j, hi, '=') {
            if st.name is Some {
                Err(Diag::at(p.span, ErrorKind::DuplicateIndexName))
            } else {
                match lit_str_at(toks, j + 1, hi, scope) {
                    Err(e) => Err(e),
                    Ok(v) => if sym_text(syms, v as int).len() == 0 {
                        Err(Diag::at(toks[j + 1].span_of(), ErrorKind::EmptyIndexName))
                    } else {
                        Ok((KeyState { name: Some(v), ..st }, j + 2))
                    },
                }
            }
        } else if p.is(syms, "partition"@) || p.is(syms, "local"@) {
            let is_partition = p.is(syms, "partition"@);
            if st.simple.len() > 0 {
                Err(Diag::at(p.span, ErrorKind::MixedKeySyntax))
            } else if (is_partition && st.partition.len() > 0) || (!is_partition && st.local.len() > 0) {
                Err(Diag::at(p.span, if is_partition { ErrorKind::DuplicatePartition } else { ErrorKind::DuplicateLocal }))
            } else {
                match eq_at(toks, j, hi, scope) {
                    Err(e) => Err(e),
                    Ok(_) => match key_targets(toks, syms, names, j + 1, hi, scope) {
                        Err(e) => Err(e),
                        Ok((v, k)) => Ok((if is_partition {
                            KeyState { partition: v, has_named: true, ..st }
                        } else {
                            KeyState { local: v, has_named: true, ..st }
                        }, k)),
                    },
                }
            }
        } else if st.has_named {
            Err(Diag::at(p.span, ErrorKind::MixedKeySyntax))
        } else {
            match p.single {
                None => Err(Diag::at(p.span, ErrorKind::ExpectedFieldName)),
                Some(s) => {
                    let pos = name_position(syms, names, sym_text(syms, s as int), 0);
                    if pos >= names.len() {
                        Err(Diag::at(p.span, ErrorKind::UnknownField { sym: s }))
                    } else {
                        Ok((KeyState { simple: st.simple.push(pos as usize), ..st }, j))
                    }
                },
            }
        },
    }
}

pub open spec fn key_items(toks: Seq<Tok>, syms: Seq<String>, names: Seq<usize>, i: int, hi: int, scope: usize, st: KeyState) -> Result<KeyState, Diag>
    decreases hi - i,
{
    match key_item(toks, syms, names, i, hi, scope, st) {
        Err(e) => Err(e),
        Ok((st2, j)) => if j <= i {
            Ok(st2)
        } else {
            match nested_next(toks, j, hi, scope) {
                Err(e) => Err(e),
                Ok(None) => Ok(st2),
                Ok(Some(k)) => key_items(toks, syms, names, k, hi, scope, st2),
            }
        },
    }
}

/// The key list once read: simple mode makes every listed field a
/// partition field; named mode needs at least one of each kind.
pub open spec fn key_finish(st: KeyState, span: usize) -> Result<KeyAttrV, Diag> {
    if st.simple.len() > 0 {
        Ok(KeyAttrV { partition: st.simple, local: st.local, name: st.name, unique: false })
    } else if st.partition.len() == 0 {
        Err(Diag::at(span, ErrorKind::NoPartitionField))
    } else if st.local.len() == 0 {
        Err(Diag::at(span, ErrorKind::NoLocalField))
    } else {
        Ok(KeyAttrV { partition: st.partition, local: st.local, name: st.name, unique: false })
    }
}

/// What a `#[key(..)]`-style attribute says, given the model's field names.
pub open spec fn key_from_attr_spec(a: Attr, syms: Seq<String>, names: Seq<usize>) -> Result<KeyAttrV, Diag> {
    match a.kind {
        MetaKind::Path => Err(Diag::at(a.span, ErrorKind::ArgsRequired { name: a.name.unwrap_or(0) })),
        MetaKind::NameValue => Err(Diag::at(a.span, ErrorKind::ParensRequired { name: a.name.unwrap_or(0) })),
        MetaKind::List => {
            let n = a.args@.len() as int;
            if n == 0 {
                key_finish(key_state0(), a.span)
            } else {
                match key_items(a.args@, syms, names, 0, n, a.close_span, key_state0()) {
                    Err(e) => Err(e),
                    Ok(st) => key_finish(st, a.span),
                }
            }
        },
    }
}

fn ident_list_exec(toks: &Vec<Tok>, syms: &Vec<String>, k0: usize, c: usize, scope: usize) -> (r: Result<Vec<usize>, Diag>)
    requires
        c <= toks@.len(),
    ensures
        r matches Ok(v) ==> ident_list(toks@, syms@, k0 as int, c as int, scope) matches Ok(ps) && ps.len() == v@.len() && forall|q: int| 0 <= q < ps.len() ==> #[trigger] ps[q] == v@[q] as int,
        r matches Err(e) ==> ident_list(toks@, syms@, k0 as int, c as int, scope) == Err::<Seq<int>, Diag>(e),
        r matches Ok(v) ==> forall|q: int| 0 <= q < v@.len() ==> k0 <= #[trigger] v@[q] < c,
    decreases c - k0,
{
    if k0 >= c {
        return Ok(Vec::new());
    }
    match ident_at_exec(toks, syms, k0, c, scope) {
        Err(e) => return Err(e),
        Ok(_) => {},
    }
    if k0 + 1 >= c {
        let mut v = Vec::new();
        v.push(k0);
        return Ok(v);
    }
    if !is_punct_exec(toks, k0 + 1, c, ',') {
        return Err(expect_err_exec(toks, k0 + 1, c, scope, Want::Comma));
    }
    let rest = match ident_list_exec(toks, syms, k0 + 2, c, scope) {
        Err(e) => return Err(e),
        Ok(rest) => rest,
    };
    let mut v = Vec::new();
    v.push(k0);
    let mut q: usize = 0;
    while q < rest.len()
        invariant
            v@.len() == q + 1,
            v@[0] == k0,
            q <= rest@.len(),
            forall|t: int| 0 <= t < q ==> #[trigger] v@[t + 1] == rest@[t],
            forall|t: int| 0 <= t < rest@.len() ==> k0 + 2 <= #[trigger] rest@[t] < c,
            k0 < c,
        decreases rest.len() - q,
    {
        v.push(rest[q]);
        q = q + 1;
    }
    proof {
        let ps = ident_list(toks@, syms@, k0 + 2, c as int, scope)->Ok_0;
        let all = seq![k0 as int] + ps;
        assert forall|t: int| 0 <= t < all.len() implies #[trigger] all[t] == v@[t] as int by {
            if t > 0 {
                assert(all[t] == ps[t - 1]);
                assert(v@[(t - 1) + 1] == rest@[t - 1]);
            }
        }
        assert forall|t: int| 0 <= t < v@.len() implies k0 <= #[trigger] v@[t] < c by {
            if t > 0 {
                assert(v@[(t - 1) + 1] == rest@[t - 1]);
            }
        }
    }
    Ok(v)
}

fn resolve_names_exec(toks: &Vec<Tok>, syms: &Vec<String>, names: &Vec<usize>, ps: &Vec<usize>) -> (r: Result<Vec<usize>, Diag>)
    requires
        forall|q: int| 0 <= q < ps@.len() ==> #[trigger] ps@[q] < toks@.len() && toks@[ps@[q] as int] is Ident,
    ensures
        r matches Ok(v) ==> resolve_names(toks@, syms@, names@, ps@.map_values(|x: usize| x as int)) == Ok::<Seq<usize>, Diag>(v@),
        r matches Err(e) ==> resolve_names(toks@, syms@, names@, ps@.map_values(|x: usize| x as int)) == Err::<Seq<usize>, Diag>(e),
{
    let ghost all = ps@.map_values(|x: usize| x as int);
    let mut out: Vec<usize> = Vec::new();
    let mut q: usize = 0;
    while q < ps.len()
        invariant
            all == ps@.map_values(|x: usize| x as int),
            q <= ps@.len(),
            forall|t: int| 0 <= t < ps@.len() ==> #[trigger] ps@[t] < toks@.len() && toks@[ps@[t] as int] is Ident,
            resolve_names(toks@, syms@, names@, all) == resolve_from(toks@, syms@, names@, all, q as int, out@),
        decreases ps.len() - q,
    {
        let p = ps[q];
        let (sym, span) = match toks[p] {
            Tok::Ident { sym, span } => (sym, span),
            _ => (0, 0),
        };
        let t = sym_string(syms, sym);
        let pos = find_name(syms, names, t.as_str());
        assert(all[q as int] == p as int);
        if pos >= names.len() {
            return Err(Diag { span, kind: ErrorKind::UnknownField { sym } });
        }
        out.push(pos);
        q = q + 1;
    }
    Ok(out)
}

fn key_targets_exec(toks: &Vec<Tok>, syms: &Vec<String>, names: &Vec<usize>, j: usize, hi: usize, scope: usize) -> (r: Result<(Vec<usize>, usize), Diag>)
    requires
        hi <= toks@.len(),
    ensures
        r matches Ok((v, k)) ==> key_targets(toks@, syms@, names@, j as int, hi as int, scope) == Ok::<(Seq<usize>, int), Diag>((v@, k as int)) && j < k <= hi,
        r matches Err(e) ==> key_targets(toks@, syms@, names@, j as int, hi as int, scope) == Err::<(Seq<usize>, int), Diag>(e),
{
    if is_open_exec(toks, j, hi, Delim::Bracket) {
        let c = match group_at_exec(toks, j, hi, scope, Delim::Bracket, Want::Brackets) {
            Err(e) => return Err(e),
            Ok(c) => c,
        };
        let cs = close_span_exec(toks, c);
        let ps = match ident_list_exec(toks, syms, j + 1, c, cs) {
            Err(e) => return Err(e),
            Ok(ps) => ps,
        };
        proof {
            let sp = ident_list(toks@, syms@, j + 1, c as int, cs)->Ok_0;
            assert(ps@.map_values(|x: usize| x as int) =~= sp);
            lemma_ident_list_idents(toks@, syms@, j + 1, c as int, cs);
            assert forall|q: int| 0 <= q < ps@.len() implies #[trigger] ps@[q] < toks@.len() && toks@[ps@[q] as int] is Ident by {
                assert(sp[q] == ps@[q] as int);
            }
        }
        let v = match resolve_names_exec(toks, syms, names, &ps) {
            Err(e) => return Err(e),
            Ok(v) => v,
        };
        Ok((v, c + 1))
    } else {
        match ident_at_exec(toks, syms, j, hi, scope) {
            Err(e) => return Err(e),
            Ok(_) => {},
        }
        let mut ps: Vec<usize> = Vec::new();
        ps.push(j);
        proof {
            assert(ps@.map_values(|x: usize| x as int) =~= seq![j as int]);
        }
        assert(ps@[0] == j);
        let v = match resolve_names_exec(toks, syms, names, &ps) {
            Err(e) => return Err(e),
            Ok(v) => v,
        };
        Ok((v, j + 1))
    }
}

proof fn lemma_ident_list_idents(toks: Seq<Tok>, syms: Seq<String>, k: int, c: int, scope: usize)
    requires
        c <= toks.len(),
        0 <= k,
    ensures
        ident_list(toks, syms, k, c, scope) matches Ok(ps) ==> forall|q: int| 0 <= q < ps.len() ==> k <= #[trigger] ps[q] < c && toks[ps[q]] is Ident,
    decreases c - k,
{
    if k + 1 < c {
        lemma_ident_list_idents(toks, syms, k + 2, c, scope);
        if let Ok(ps) = ident_list(toks, syms, k, c, scope) {
            if k + 1 < c {
                let rest = ident_list(toks, syms, k + 2, c, scope)->Ok_0;
                assert forall|q: int| 0 <= q < ps.len() implies k <= #[trigger] ps[q] < c && toks[ps[q]] is Ident by {
                    if q > 0 {
                        assert(ps[q] == rest[q - 1]);
                    }
                }
            }
        }
    }
}

impl KeyAttr {
    /// Reads a `#[key(..)]`, `#[index(..)]` or `#[unique(..)]` attribute;
    /// `names` are the symbols of the model's field names.
    pub fn from_ast(a: &Attr, syms: &Vec<String>, names: &Vec<usize>) -> (r: Result<KeyAttr, Diag>)
        ensures
            r matches Ok(k) ==> key_from_attr_spec(*a, syms@, names@) == Ok::<KeyAttrV, Diag>(k.view()),
            r matches Err(e) ==> key_from_attr_spec(*a, syms@, names@) == Err::<KeyAttrV, Diag>(e),
    {
        let aname = match a.name {
            Some(s) => s,
            None => 0,
        };
        match a.kind {
            MetaKind::Path => return Err(Diag { span: a.span, kind: ErrorKind::ArgsRequired { name: aname } }),
            MetaKind::NameValue => return Err(Diag { span: a.span, kind: ErrorKind::ParensRequired { name: aname } }),
            MetaKind::List => {},
        }
        let toks = &a.args;
        let hi = toks.len();
        let scope = a.close_span;
        let mut partition: Vec<usize> = Vec::new();
        let mut local: Vec<usize> = Vec::new();
        let mut simple: Vec<usize> = Vec::new();
        let mut name: Option<usize> = None;
        let mut has_named = false;
        if hi > 0 {
            let mut i: usize = 0;
            loop
                invariant_except_break
                    i < hi,
                    key_items(toks@, syms@, names@, 0, hi as int, scope, key_state0()) == key_items(toks@, syms@, names@, i as int, hi as int, scope, KeyState { partition: partition@, local: local@, simple: simple@, name, has_named }),
                invariant
                    toks == &a.args,
                    hi == toks@.len(),
                    scope == a.close_span,
                    a.kind == MetaKind::List,
                    hi > 0,
                ensures
                    key_items(toks@, syms@, names@, 0, hi as int, scope, key_state0()) == Ok::<KeyState, Diag>(KeyState { partition: partition@, local: local@, simple: simple@, name, has_named }),
                decreases hi - i,
            {
                let ghost st = KeyState { partition: partition@, local: local@, simple: simple@, name, has_named };
                let (p, j) = match meta_path_at_exec(toks, i, hi, scope) {
                    Err(e) => return Err(e),
                    Ok(pj) => pj,
                };
                if p.is_exec(syms, "name") && is_punct_exec(toks, j, hi, '=') {
                    if name.is_some() {
                        return Err(Diag { span: p.span, kind: ErrorKind::DuplicateIndexName });
                    }
                    let v = match lit_str_at_exec(toks, j + 1, hi, scope) {
                        Err(e) => return Err(e),
                        Ok(v) => v,
                    };
                    let t = sym_string(syms, v);
                    if t.as_str().unicode_len() == 0 {
                        return Err(Diag { span: toks[j + 1].span(), kind: ErrorKind::EmptyIndexName });
                    }
                    name = Some(v);
                    let k = match nested_next_exec(toks, j + 2, hi, scope) {
                        Err(e) => return Err(e),
                        Ok(None) => break,
                        Ok(Some(k)) => k,
                    };
                    i = k;
                } else if p.is_exec(syms, "partition") || p.is_exec(syms, "local") {
                    let is_partition = p.is_exec(syms, "partition");
                    if simple.len() > 0 {
                        return Err(Diag { span: p.span, kind: ErrorKind::MixedKeySyntax });
                    }
                    if is_partition && partition.len() > 0 {
                        return Err(Diag { span: p.span, kind: ErrorKind::DuplicatePartition });
                    }
                    if !is_partition && local.len() > 0 {
                        return Err(Diag { span: p.span, kind: ErrorKind::DuplicateLocal });
                    }
                    match eq_at_exec(toks, j, hi, scope) {
                        Err(e) => return Err(e),
                        Ok(_) => {},
                    }
                    let (v, k) = match key_targets_exec(toks, syms, names, j + 1, hi, scope) {
                        Err(e) => return Err(e),
                        Ok(vk) => vk,
                    };
                    if is_partition {
                        partition = v;
                    } else {
                        local = v;
                    }
                    has_named = true;
                    let k2 = match nested_next_exec(toks, k, hi, scope) {
                        Err(e) => return Err(e),
                        Ok(None) => break,
                        Ok(Some(k2)) => k2,
                    };
                    i = k2;
                } else if has_named {
                    return Err(Diag { span: p.span, kind: ErrorKind::MixedKeySyntax });
                } else {
                    let s = match p.single {
                        None => return Err(Diag { span: p.span, kind: ErrorKind::ExpectedFieldName }),
                        Some(s) => s,
                    };
                    let t = sym_string(syms, s);
                    let pos = find_name(syms, names, t.as_str());
                    if pos >= names.len() {
                        return Err(Diag { span: p.span, kind: ErrorKind::UnknownField { sym: s } });
                    }
                    simple.push(pos);
                    let k = match nested_next_exec(toks, j, hi, scope) {
                        Err(e) => return Err(e),
                        Ok(None) => break,
                        Ok(Some(k)) => k,
                    };
                    i = k;
                }
            }
        }
        let ghost st = KeyState { partition: partition@, local: local@, simple: simple@, name, has_named };
        assert(key_from_attr_spec(*a, syms@, names@) == key_finish(st, a.span));
        if simple.len() > 0 {
            Ok(KeyAttr { partition: simple, local, name, unique: false })
        } else if partition.len() == 0 {
            Err(Diag { span: a.span, kind: ErrorKind::NoPartitionField })
        } else if local.len() == 0 {
            Err(Diag { span: a.span, kind: ErrorKind::NoLocalField })
        } else {
            Ok(KeyAttr { partition, local, name, unique: false })
        }
    }
}

/// The struct-level attributes of a model.
#[derive(Debug)]
pub struct ModelAttr {
    /// Struct-level primary key.
    pub key: Option<KeyAttr>,
    /// Struct-level secondary indices, in attribute order.
    pub indices: Vec<KeyAttr>,
    /// Table name (symbol of a string literal value).
    pub table: Option<usize>,
    /// Table comment (symbol of a string literal value).
    pub comment: Option<usize>,
    /// Span of a struct-level `#[auto]`.
    pub auto: Option<usize>,
}

pub struct ModelAttrV {
    pub key: Option<KeyAttrV>,
    pub indices: Seq<KeyAttrV>,
    pub table: Option<usize>,
    pub comment: Option<usize>,
    pub auto: Option<usize>,
}

impl ModelAttr {
    pub open spec fn view(&self) -> ModelAttrV {
        ModelAttrV {
            key: match self.key {
                Some(k) => Some(k.view()),
                None => None,
            },
            indices: self.indices@.map_values(|k: KeyAttr| k.view()),
            table: self.table,
            comment: self.comment,
            auto: self.auto,
        }
    }
}

pub open spec fn model_attr0() -> ModelAttrV {
    ModelAttrV { key: None, indices: Seq::empty(), table: None, comment: None, auto: None }
}

/// One struct-level attribute read into `acc`, with errors added to `errs`.
pub open spec fn model_attr_step(a: Attr, syms: Seq<String>, names: Seq<usize>, acc: ModelAttrV, errs: Seq<Diag>) -> (ModelAttrV, Seq<Diag>) {
    if attr_is(a, syms, "key"@) {
        if acc.key is Some {
            (acc, errs.push(Diag::at(a.span, ErrorKind::DuplicateKeyAttr)))
        } else {
            match key_from_attr_spec(a, syms, names) {
                Ok(k) => (ModelAttrV { key: Some(k), ..acc }, errs),
                Err(e) => (acc, errs.push(e)),
            }
        }
    } else if attr_is(a, syms, "index"@) {
        match key_from_attr_spec(a, syms, names) {
            Ok(k) => (ModelAttrV { indices: acc.indices.push(k), ..acc }, errs),
            Err(e) => (acc, errs.push(e)),
        }
    } else if attr_is(a, syms, "unique"@) {
        match key_from_attr_spec(a, syms, names) {
            Ok(k) => (ModelAttrV { indices: acc.indices.push(KeyAttrV { unique: true, ..k }), ..acc }, errs),
            Err(e) => (acc, errs.push(e)),
        }
    } else if attr_is(a, syms, "table"@) {
        match table_from_attr_spec(a, syms) {
            Err(e) => (acc, errs.push(e)),
            Ok(t) => {
                let (acc1, errs1) = match t.name {
                    None => (acc, errs),
                    Some(n) => if acc.table is Some {
                        (acc, errs.push(Diag::at(a.span, ErrorKind::DuplicateTableName)))
                    } else {
                        (ModelAttrV { table: Some(n), ..acc }, errs)
                    },
                };
                match t.comment {
                    None => (acc1, errs1),
                    Some(c) => if acc1.comment is Some {
                        (acc1, errs1.push(Diag::at(a.span, ErrorKind::DuplicateTableComment)))
                    } else {
                        (ModelAttrV { comment: Some(c), ..acc1 }, errs1)
                    },
                }
            },
        }
    } else if attr_is(a, syms, "auto"@) {
        if acc.auto is Some {
            (acc, errs)
        } else {
            (ModelAttrV { auto: Some(a.span), ..acc }, errs)
        }
    } else {
        (acc, errs)
    }
}

/// The struct-level attributes `attrs[k..]` read into `acc`.
pub open spec fn model_attr_fold(attrs: Seq<Attr>, syms: Seq<String>, names: Seq<usize>, k: int, acc: ModelAttrV, errs: Seq<Diag>) -> (ModelAttrV, Seq<Diag>)
    decreases attrs.len() - k,
{
    if k >= attrs.len() || k < 0 {
        (acc, errs)
    } else {
        let (acc2, errs2) = model_attr_step(attrs[k], syms, names, acc, errs);
        model_attr_fold(attrs, syms, names, k + 1, acc2, errs2)
    }
}

/// Every position in `s` is below `n`.
pub open spec fn all_below(s: Seq<usize>, n: int) -> bool {
    forall|i: int| 0 <= i < s.len() ==> #[trigger] s[i] < n
}

/// The field positions a key list holds are positions among `names`.
pub open spec fn key_state_below(st: KeyState, n: int) -> bool {
    all_below(st.partition, n) && all_below(st.local, n) && all_below(st.simple, n)
}

proof fn lemma_resolve_from_below(toks: Seq<Tok>, syms: Seq<String>, names: Seq<usize>, ps: Seq<int>, q: int, acc: Seq<usize>)
    requires
        all_below(acc, names.len() as int),
    ensures
        resolve_from(toks, syms, names, ps, q, acc) matches Ok(v) ==> all_below(v, names.len() as int),
    decreases ps.len() - q,
{
    if q >= ps.len() || q < 0 {
    } else {
        let p = ps[q];
        let t = sym_text(syms, toks[p]->sym as int);
        let pos = name_position(syms, names, t, 0);
        lemma_name_position_bounds(syms, names, t, 0);
        if pos < names.len() {
            let acc2 = acc.push(pos as usize);
            assert(all_below(acc2, names.len() as int)) by {
                assert forall|i: int| 0 <= i < acc2.len() implies #[trigger] acc2[i] < names.len() by {
                    if i < acc.len() {
                        assert(acc2[i] == acc[i]);
                    }
                }
            }
            lemma_resolve_from_below(toks, syms, names, ps, q + 1, acc2);
        }
    }
}

proof fn lemma_key_item_below(toks: Seq<Tok>, syms: Seq<String>, names: Seq<usize>, i: int, hi: int, scope: usize, st: KeyState)
    requires
        key_state_below(st, names.len() as int),
    ensures
        key_item(toks, syms, names, i, hi, scope, st) matches Ok((st2, _)) ==> key_state_below(st2, names.len() as int),
{
    match meta_path_at(toks, i, hi, scope) {
        Err(_) => {},
        Ok((p, j)) => {
            if p.is(syms, "partition"@) || p.is(syms, "local"@) {
                if is_open(toks, j + 1, hi, Delim::Bracket) {
                    match group_at(toks, j + 1, hi, scope, Delim::Bracket, Want::Brackets) {
                        Err(_) => {},
                        Ok(c) => match ident_list(toks, syms, j + 2, c, close_span(toks, c)) {
                            Err(_) => {},
                            Ok(ps) => lemma_resolve_from_below(toks, syms, names, ps, 0, Seq::empty()),
                        },
                    }
                } else {
                    lemma_resolve_from_below(toks, syms, names, seq![j + 1], 0, Seq::empty());
                }
            } else {
                match p.single {
                    None => {},
                    Some(s) => {
                        let pos = name_position(syms, names, sym_text(syms, s as int), 0);
                        lemma_name_position_bounds(syms, names, sym_text(syms, s as int), 0);
                        if pos < names.len() {
                            let s2 = st.simple.push(pos as usize);
                            assert(all_below(s2, names.len() as int)) by {
                                assert forall|k: int| 0 <= k < s2.len() implies #[trigger] s2[k] < names.len() by {
                                    if k < st.simple.len() {
                                        assert(s2[k] == st.simple[k]);
                                    }
                                }
                            }
                        }
                    },
                }
            }
        },
    }
}

proof fn lemma_key_items_below(toks: Seq<Tok>, syms: Seq<String>, names: Seq<usize>, i: int, hi: int, scope: usize, st: KeyState)
    requires
        key_state_below(st, names.len() as int),
    ensures
        key_items(toks, syms, names, i, hi, scope, st) matches Ok(st2) ==> key_state_below(st2, names.len() as int),
    decreases hi - i,
{
    lemma_key_item_below(toks, syms, names, i, hi, scope, st);
    match key_item(toks, syms, names, i, hi, scope, st) {
        Err(_) => {},
        Ok((st2, j)) => if j > i {
            match nested_next(toks, j, hi, scope) {
                Ok(Some(k)) => lemma_key_items_below(toks, syms, names, k, hi, scope, st2),
                _ => {},
            }
        },
    }
}

/// The fields a key or index attribute lists are positions among `names`.
pub proof fn lemma_key_attr_below(a: Attr, syms: Seq<String>, names: Seq<usize>)
    ensures
        key_from_attr_spec(a, syms, names) matches Ok(k) ==> all_below(k.partition, names.len() as int) && all_below(k.local, names.len() as int),
{
    if a.kind == MetaKind::List && a.args@.len() > 0 {
        lemma_key_items_below(a.args@, syms, names, 0, a.args@.len() as int, a.close_span, key_state0());
    }
}

/// The fields that the key and index attributes of a model name are
/// positions among its field names.
pub open spec fn model_attr_below(ma: ModelAttrV, n: int) -> bool {
    &&& ma.key matches Some(k) ==> all_below(k.partition, n) && all_below(k.local, n)
    &&& forall|i: int| 0 <= i < ma.indices.len() ==> all_below(#[trigger] ma.indices[i].partition, n) && all_below(ma.indices[i].local, n)
}

pub proof fn lemma_model_attr_fold_below(attrs: Seq<Attr>, syms: Seq<String>, names: Seq<usize>, k: int, acc: ModelAttrV, errs: Seq<Diag>)
    requires
        model_attr_below(acc, names.len() as int),
    ensures
        model_attr_below(model_attr_fold(attrs, syms, names, k, acc, errs).0, names.len() as int),
    decreases attrs.len() - k,
{
    if k >= attrs.len() || k < 0 {
    } else {
        let a = attrs[k];
        lemma_key_attr_below(a, syms, names);
        let (acc2, errs2) = model_attr_step(a, syms, names, acc, errs);
        assert(model_attr_below(acc2, names.len() as int)) by {
            assert forall|i: int| 0 <= i < acc2.indices.len() implies all_below(#[trigger] acc2.indices[i].partition, names.len() as int) && all_below(acc2.indices[i].local, names.len() as int) by {
                if i < acc.indices.len() {
                    assert(acc2.indices[i] == acc.indices[i]);
                }
            }
        }
        lemma_model_attr_fold_below(attrs, syms, names, k + 1, acc2, errs2);
    }
}

impl ModelAttr {
    /// Reads the struct-level attributes of a model whose field names are
    /// `names`: the settings found, and every error met.
    pub fn populate_from_ast(attrs: &Vec<Attr>, syms: &Vec<String>, names: &Vec<usize>) -> (r: (ModelAttr, Vec<Diag>))
        ensures
            model_attr_fold(attrs@, syms@, names@, 0, model_attr0(), Seq::empty()) == (r.0.view(), r.1@),
    {
        let mut acc = ModelAttr { key: None, indices: Vec::new(), table: None, comment: None, auto: None };
        let mut errs: Vec<Diag> = Vec::new();
        let mut k: usize = 0;
        proof {
            assert(acc.view().indices =~= Seq::<KeyAttrV>::empty());
        }
        while k < attrs.len()
            invariant
                k <= attrs@.len(),
                model_attr_fold(attrs@, syms@, names@, 0, model_attr0(), Seq::empty()) == model_attr_fold(attrs@, syms@, names@, k as int, acc.view(), errs@),
            decreases attrs.len() - k,
        {
            let a = &attrs[k];
            let ghost before = acc.view();
            if attr_is_exec(a, syms, "key") {
                if acc.key.is_some() {
                    errs.push(Diag { span: a.span, kind: ErrorKind::DuplicateKeyAttr });
                } else {
                    match KeyAttr::from_ast(a, syms, names) {
                        Ok(kk) => {
                            acc.key = Some(kk);
                        },
                        Err(e) => errs.push(e),
                    }
                }
            } else if attr_is_exec(a, syms, "index") {
                match KeyAttr::from_ast(a, syms, names) {
                    Ok(kk) => {
                        acc.indices.push(kk);
                        proof {
                            assert(acc.view().indices =~= before.indices.push(kk.view()));
                        }
                    },
                    Err(e) => errs.push(e),
                }
            } else if attr_is_exec(a, syms, "unique") {
                match KeyAttr::from_ast(a, syms, names) {
                    Ok(kk) => {
                        let mut kk = kk;
                        kk.unique = true;
                        acc.indices.push(kk);
                        proof {
                            assert(acc.view().indices =~= before.indices.push(kk.view()));
                        }
                    },
                    Err(e) => errs.push(e),
                }
            } else if attr_is_exec(a, syms, "table") {
                match TableAttr::from_ast(a, syms) {
                    Err(e) => errs.push(e),
                    Ok(t) => {
                        match t.name {
                            None => {},
                            Some(n) => {
                                if acc.table.is_some() {
                                    errs.push(Diag { span: a.span, kind: ErrorKind::DuplicateTableName });
                                } else {
                                    acc.table = Some(n);
                                }
                            },
                        }
                        match t.comment {
                            None => {},
                            Some(c) => {
                                if acc.comment.is_some() {
                                    errs.push(Diag { span: a.span, kind: ErrorKind::DuplicateTableComment });
                                } else {
                                    acc.comment = Some(c);
                                }
                            },
                        }
                    },
                }
            } else if attr_is_exec(a, syms, "auto") {
                if acc.auto.is_none() {
                    acc.auto = Some(a.span);
                }
            }
            k = k + 1;
        }
        (acc, errs)
    }
}

} // verus!
