//! Checks on the migration history that `embed_migrations!` embeds: each
//! migration names a file directly in the migrations directory, and ids and
//! names are unique.
use vstd::prelude::*;

use crate::diag::{Diag, ErrorKind};
use crate::text::{chars_of, str_eq};

verus! {

/// The `/`-separated segments of `s` from position `i`, empty ones
/// dropped.
pub open spec fn segments_from(s: Seq<char>, i: int, cur: Seq<char>) -> Seq<Seq<char>>
    decreases s.len() - i,
{
    if i >= s.len() || i < 0 {
        if cur.len() > 0 { seq![cur] } else { Seq::empty() }
    } else if s[i] == '/' {
        let rest = segments_from(s, i + 1, Seq::empty());
        if cur.len() > 0 { seq![cur] + rest } else { rest }
    } else {
        segments_from(s, i + 1, cur.push(s[i]))
    }
}

/// `s` is a file name without other path components: as `Path::components`
/// reads it (separators repeated or trailing ignored, `.` dropped but at
/// the start), it is one normal component. So it does not start with `/`,
/// its first segment is neither `.` nor `..`, and any further segment is
/// `.`.
pub open spec fn plain_file_name(s: Seq<char>) -> bool {
    let parts = segments_from(s, 0, Seq::empty());
    &&& !(s.len() > 0 && s[0] == '/')
    &&& parts.len() > 0
    &&& parts[0] != "."@
    &&& parts[0] != ".."@
    &&& forall|k: int| 1 <= k < parts.len() ==> #[trigger] parts[k] == "."@
}

/// Whether a migration name is a plain file name (see `plain_file_name`).
pub fn is_plain_file_name(name: &str) -> (r: bool)
    ensures
        r == plain_file_name(name@),
{
    let cs = chars_of(name);
    if cs.len() > 0 && cs[0] == '/' {
        return false;
    }
    proof {
        reveal_strlit(".");
        reveal_strlit("..");
    }
    let mut parts: Vec<Vec<char>> = Vec::new();
    let mut cur: Vec<char> = Vec::new();
    let mut i: usize = 0;
    while i < cs.len()
        invariant
            i <= cs@.len(),
            cs@ == name@,
            parts@.map_values(|p: Vec<char>| p@) + segments_from(cs@, i as int, cur@) == segments_from(cs@, 0, Seq::empty()),
        decreases cs.len() - i,
    {
        let ghost pv = parts@.map_values(|p: Vec<char>| p@);
        if cs[i] == '/' {
            if cur.len() > 0 {
                let ghost cv = cur@;
                parts.push(cur);
                assert(parts@.map_values(|p: Vec<char>| p@) =~= pv.push(cv));
                cur = Vec::new();
                assert(segments_from(cs@, i as int, cv) == seq![cv] + segments_from(cs@, i + 1, Seq::empty()));
                assert(cur@ =~= Seq::<char>::empty());
                assert(pv.push(cv) + segments_from(cs@, i + 1, cur@) =~= pv + (seq![cv] + segments_from(cs@, i + 1, Seq::empty())));
            } else {
                assert(cur@ =~= Seq::<char>::empty());
            }
        } else {
            cur.push(cs[i]);
        }
        i = i + 1;
    }
    let ghost pv = parts@.map_values(|p: Vec<char>| p@);
    if cur.len() > 0 {
        let ghost cv = cur@;
        parts.push(cur);
        assert(parts@.map_values(|p: Vec<char>| p@) =~= pv.push(cv));
        assert(pv + segments_from(cs@, i as int, cv) =~= pv.push(cv));
    } else {
        assert(pv + segments_from(cs@, i as int, cur@) =~= pv);
    }
    let ghost all = parts@.map_values(|p: Vec<char>| p@);
    assert(all == segments_from(name@, 0, Seq::empty()));
    if parts.len() == 0 {
        return false;
    }
    let first = string_of_chars(&parts[0]);
    assert(all[0] == parts@[0]@);
    if str_eq(first.as_str(), ".") || str_eq(first.as_str(), "..") {
        return false;
    }
    let mut k: usize = 1;
    while k < parts.len()
        invariant
            1 <= k <= parts@.len(),
            all == parts@.map_values(|p: Vec<char>| p@),
            all == segments_from(name@, 0, Seq::empty()),
            forall|t: int| 1 <= t < k ==> #[trigger] all[t] == "."@,
        decreases parts.len() - k,
    {
        let seg = string_of_chars(&parts[k]);
        assert(all[k as int] == parts@[k as int]@);
        if !str_eq(seg.as_str(), ".") {
            assert(all[k as int] != "."@);
            assert(!plain_file_name(name@));
            return false;
        }
        k = k + 1;
    }
    true
}

fn string_of_chars(v: &Vec<char>) -> (r: String)
    ensures
        r@ == v@,
{
    crate::text::string_from_chars(v)
}

/// Checks the history entries (id and name) in order: the first entry whose
/// name is not a plain file name, or whose id or name an earlier entry
/// already has, is an error at `span`.
pub open spec fn entries_check(ids: Seq<u64>, names: Seq<Seq<char>>, n: int, span: usize) -> Result<(), Diag>
    decreases n,
{
    if n <= 0 {
        Ok(())
    } else {
        match entries_check(ids, names, n - 1, span) {
            Err(e) => Err(e),
            Ok(_) => {
                let k = n - 1;
                if !plain_file_name(names[k]) {
                    Err(Diag::at(span, ErrorKind::MigrationNameNotFile { entry: k as usize }))
                } else if exists|j: int| 0 <= j < k && ids[j] == ids[k] {
                    Err(Diag::at(span, ErrorKind::DuplicateMigrationId { entry: k as usize }))
                } else if exists|j: int| 0 <= j < k && names[j] == names[k] {
                    Err(Diag::at(span, ErrorKind::DuplicateMigrationName { entry: k as usize }))
                } else {
                    Ok(())
                }
            },
        }
    }
}

/// Checks a migration history's entries (see `entries_check`).
pub fn check_entries(ids: &Vec<u64>, names: &Vec<String>, span: usize) -> (r: Result<(), Diag>)
    requires
        ids@.len() == names@.len(),
    ensures
        r == entries_check(ids@, names@.map_values(|s: String| s@), ids@.len() as int, span),
{
    let ghost nv = names@.map_values(|s: String| s@);
    let mut k: usize = 0;
    while k < ids.len()
        invariant
            k <= ids@.len(),
            ids@.len() == names@.len(),
            nv == names@.map_values(|s: String| s@),
            entries_check(ids@, nv, k as int, span) == Ok::<(), Diag>(()),
        decreases ids.len() - k,
    {
        assert(nv[k as int] == names@[k as int]@);
        if !is_plain_file_name(names[k].as_str()) {
            proof {
                lemma_check_err_stays(ids@, nv, k + 1, ids@.len() as int, span);
            }
            return Err(Diag { span, kind: ErrorKind::MigrationNameNotFile { entry: k } });
        }
        let mut j: usize = 0;
        while j < k
            invariant
                k < ids@.len(),
                j <= k,
                ids@.len() == names@.len(),
                nv == names@.map_values(|s: String| s@),
                entries_check(ids@, nv, k as int, span) == Ok::<(), Diag>(()),
                plain_file_name(nv[k as int]),
                forall|t: int| 0 <= t < j ==> ids@[t] != ids@[k as int],
            decreases k - j,
        {
            if ids[j] == ids[k] {
                proof {
                    lemma_check_err_stays(ids@, nv, k + 1, ids@.len() as int, span);
                }
                return Err(Diag { span, kind: ErrorKind::DuplicateMigrationId { entry: k } });
            }
            j = j + 1;
        }
        let mut j: usize = 0;
        while j < k
            invariant
                k < ids@.len(),
                j <= k,
                ids@.len() == names@.len(),
                nv == names@.map_values(|s: String| s@),
                entries_check(ids@, nv, k as int, span) == Ok::<(), Diag>(()),
                plain_file_name(nv[k as int]),
                forall|t: int| 0 <= t < k ==> ids@[t] != ids@[k as int],
                forall|t: int| 0 <= t < j ==> nv[t] != nv[k as int],
            decreases k - j,
        {
            assert(nv[j as int] == names@[j as int]@);
            if str_eq(names[j].as_str(), names[k].as_str()) {
                proof {
                    lemma_check_err_stays(ids@, nv, k + 1, ids@.len() as int, span);
                }
                return Err(Diag { span, kind: ErrorKind::DuplicateMigrationName { entry: k } });
            }
            j = j + 1;
        }
        k = k + 1;
    }
    Ok(())
}

/// The first `n` history entries are acceptable: every name is a plain file
/// name, and no two entries share an id or a name.
pub open spec fn entries_acceptable(ids: Seq<u64>, names: Seq<Seq<char>>, n: int) -> bool {
    &&& forall|k: int| 0 <= k < n ==> plain_file_name(#[trigger] names[k])
    &&& forall|j: int, k: int| 0 <= j < k < n ==> ids[j] != ids[k]
    &&& forall|j: int, k: int| 0 <= j < k < n ==> names[j] != names[k]
}

/// The history check accepts a history exactly when its entries are
/// acceptable: all names are plain file names, all ids distinct and all
/// names distinct.
pub proof fn lemma_entries_check_accepts(ids: Seq<u64>, names: Seq<Seq<char>>, n: int, span: usize)
    requires
        0 <= n <= ids.len(),
        n <= names.len(),
    ensures
        entries_check(ids, names, n, span) is Ok <==> entries_acceptable(ids, names, n),
    decreases n,
{
    if n > 0 {
        lemma_entries_check_accepts(ids, names, n - 1, span);
        let k = n - 1;
        if entries_check(ids, names, n, span) is Ok {
            assert forall|j: int, t: int| 0 <= j < t < n implies ids[j] != ids[t] by {
                if t == k {
                    if ids[j] == ids[k] {
                        assert(exists|x: int| 0 <= x < k && ids[x] == ids[k]);
                    }
                }
            }
            assert forall|j: int, t: int| 0 <= j < t < n implies names[j] != names[t] by {
                if t == k {
                    if names[j] == names[k] {
                        assert(exists|x: int| 0 <= x < k && names[x] == names[k]);
                    }
                }
            }
        }
    }
}

proof fn lemma_check_err_stays(ids: Seq<u64>, names: Seq<Seq<char>>, m: int, n: int, span: usize)
    requires
        0 <= m <= n,
        entries_check(ids, names, m, span) is Err,
    ensures
        entries_check(ids, names, n, span) == entries_check(ids, names, m, span),
    decreases n - m,
{
    if m < n {
        lemma_check_err_stays(ids, names, m, n - 1, span);
    }
}

} // verus!
