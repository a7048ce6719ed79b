//! Case conversion and singular and plural forms of names.
//!
//! The conversions themselves are those of the `heck` and `pluralizer`
//! crates and of `str::to_lowercase` / `str::to_uppercase`; each result is
//! named by a spec function of its input. What this library derives from
//! them (identifier names, name parts, rename rules) is verified.
use vstd::prelude::*;

use crate::text::{chars_of, int_text, string_from_chars};

verus! {

/// What `heck::ToSnakeCase::to_snake_case` returns for `s`.
pub uninterp spec fn snake_case_of(s: Seq<char>) -> Seq<char>;

/// What `heck::ToUpperCamelCase::to_upper_camel_case` returns for `s`.
pub uninterp spec fn upper_camel_case_of(s: Seq<char>) -> Seq<char>;

/// What `heck::ToLowerCamelCase::to_lower_camel_case` returns for `s`.
pub uninterp spec fn lower_camel_case_of(s: Seq<char>) -> Seq<char>;

/// What `heck::ToShoutySnakeCase::to_shouty_snake_case` returns for `s`.
pub uninterp spec fn shouty_snake_case_of(s: Seq<char>) -> Seq<char>;

/// What `heck::ToKebabCase::to_kebab_case` returns for `s`.
pub uninterp spec fn kebab_case_of(s: Seq<char>) -> Seq<char>;

/// What `heck::ToShoutyKebabCase::to_shouty_kebab_case` returns for `s`.
pub uninterp spec fn shouty_kebab_case_of(s: Seq<char>) -> Seq<char>;

/// What `str::to_lowercase` returns for `s`.
pub uninterp spec fn lowercase_of(s: Seq<char>) -> Seq<char>;

/// What `str::to_uppercase` returns for `s`.
pub uninterp spec fn uppercase_of(s: Seq<char>) -> Seq<char>;

/// The singular form of `s` under the `pluralizer` crate's built-in rules
/// (what its `pluralize` gives for a count of one).
pub uninterp spec fn singular_of(s: Seq<char>) -> Seq<char>;

/// The plural form of `s` under the `pluralizer` crate's built-in rules
/// (what its `pluralize` gives for any count other than one).
pub uninterp spec fn plural_of(s: Seq<char>) -> Seq<char>;

/// What `char::is_whitespace` returns for `c`.
pub uninterp spec fn is_whitespace(c: char) -> bool;

/// What `char::is_uppercase` returns for `c`.
pub uninterp spec fn is_uppercase(c: char) -> bool;

/// Trusted: `heck::ToSnakeCase::to_snake_case`; its result is named
/// `snake_case_of` and nothing more is claimed of it.
#[verifier::external_body]
pub(crate) fn to_snake_case(s: &str) -> (r: String)
    ensures
        r@ == snake_case_of(s@),
{
    heck::ToSnakeCase::to_snake_case(s)
}

/// Trusted: `heck::ToUpperCamelCase::to_upper_camel_case`, named
/// `upper_camel_case_of`.
#[verifier::external_body]
pub(crate) fn to_upper_camel_case(s: &str) -> (r: String)
    ensures
        r@ == upper_camel_case_of(s@),
{
    heck::ToUpperCamelCase::to_upper_camel_case(s)
}

/// Trusted: `heck::ToLowerCamelCase::to_lower_camel_case`, named
/// `lower_camel_case_of`.
#[verifier::external_body]
pub(crate) fn to_lower_camel_case(s: &str) -> (r: String)
    ensures
        r@ == lower_camel_case_of(s@),
{
    heck::ToLowerCamelCase::to_lower_camel_case(s)
}

/// Trusted: `heck::ToShoutySnakeCase::to_shouty_snake_case`, named
/// `shouty_snake_case_of`.
#[verifier::external_body]
pub(crate) fn to_shouty_snake_case(s: &str) -> (r: String)
    ensures
        r@ == shouty_snake_case_of(s@),
{
    heck::ToShoutySnakeCase::to_shouty_snake_case(s)
}

/// Trusted: `heck::ToKebabCase::to_kebab_case`, named `kebab_case_of`.
#[verifier::external_body]
pub(crate) fn to_kebab_case(s: &str) -> (r: String)
    ensures
        r@ == kebab_case_of(s@),
{
    heck::ToKebabCase::to_kebab_case(s)
}

/// Trusted: `heck::ToShoutyKebabCase::to_shouty_kebab_case`, named
/// `shouty_kebab_case_of`.
#[verifier::external_body]
pub(crate) fn to_shouty_kebab_case(s: &str) -> (r: String)
    ensures
        r@ == shouty_kebab_case_of(s@),
{
    heck::ToShoutyKebabCase::to_shouty_kebab_case(s)
}

/// Trusted: `str::to_lowercase` (Unicode lower-casing), named
/// `lowercase_of`.
#[verifier::external_body]
pub(crate) fn to_lowercase(s: &str) -> (r: String)
    ensures
        r@ == lowercase_of(s@),
{
    s.to_lowercase()
}

/// Trusted: `str::to_uppercase` (Unicode upper-casing), named
/// `uppercase_of`.
#[verifier::external_body]
pub(crate) fn to_uppercase(s: &str) -> (r: String)
    ensures
        r@ == uppercase_of(s@),
{
    s.to_uppercase()
}

/// A word that `pluralizer::pluralize` handles: one made of ASCII
/// characters, or one equal to its own lowercase form. On other words (a
/// mixed-case word with a non-ASCII character where a rule's capture
/// starts) the crate slices a string inside a character and panics.
pub open spec fn pluralizable(s: Seq<char>) -> bool {
    (forall|i: int| 0 <= i < s.len() ==> (#[trigger] s[i] as u32) < 128) || lowercase_of(s) == s
}

/// Whether `pluralize` may be called on `s`.
pub fn is_pluralizable(s: &str) -> (r: bool)
    ensures
        r == pluralizable(s@),
{
    let cs = chars_of(s);
    let mut i: usize = 0;
    let mut ascii = true;
    while i < cs.len()
        invariant
            i <= cs@.len(),
            cs@ == s@,
            ascii == (forall|j: int| 0 <= j < i ==> (#[trigger] s@[j] as u32) < 128),
        decreases cs.len() - i,
    {
        let c = cs[i];
        if !((c as u32) < 128) {
            ascii = false;
        }
        i = i + 1;
    }
    if ascii {
        return true;
    }
    let lower = to_lowercase(s);
    crate::text::str_eq(lower.as_str(), s)
}

/// Trusted: `pluralizer::pluralize(word, count, include_count)`. Its
/// source picks the singular form when `count` is one and the plural form
/// otherwise, and with `include_count` writes the count and a space in
/// front. The two forms come from rule tables that the crate lets callers
/// extend at run time; this library never extends them, so each form is
/// named as a function of the word alone. The crate panics on some words
/// that are neither ASCII nor lowercase; `requires` leaves them out.
#[verifier::external_body]
pub(crate) fn pluralize(word: &str, count: isize, include_count: bool) -> (r: String)
    requires
        pluralizable(word@),
    ensures
        r@ == (if include_count { int_text(count as int) + " "@ } else { Seq::<char>::empty() }) + (if count == 1 {
            singular_of(word@)
        } else {
            plural_of(word@)
        }),
{
    pluralizer::pluralize(word, count, include_count)
}

/// Trusted: `char::is_uppercase`, named `is_uppercase`.
#[verifier::external_body]
pub(crate) fn char_is_uppercase(c: char) -> (r: bool)
    ensures
        r == is_uppercase(c),
{
    c.is_uppercase()
}

/// Trusted: `char::is_whitespace`, named `is_whitespace`.
#[verifier::external_body]
pub(crate) fn char_is_whitespace(c: char) -> (r: bool)
    ensures
        r == is_whitespace(c),
{
    c.is_whitespace()
}

/// `s` without a leading raw-identifier marker `r#`.
pub open spec fn strip_raw(s: Seq<char>) -> Seq<char> {
    if has_raw_prefix(s) {
        s.subrange(2, s.len() as int)
    } else {
        s
    }
}

/// `s` starts with the raw-identifier marker `r#`.
pub open spec fn has_raw_prefix(s: Seq<char>) -> bool {
    s.len() >= 2 && s[0] == 'r' && s[1] == '#'
}

/// The pieces of `s` between occurrences of `sep` (as `str::split` gives
/// them: `k` separators give `k + 1` pieces, empty ones included).
pub open spec fn split_on(s: Seq<char>, sep: char) -> Seq<Seq<char>>
    decreases s.len(),
{
    if s.len() == 0 {
        seq![Seq::empty()]
    } else {
        let rest = split_on(s.drop_last(), sep);
        if s.last() == sep {
            rest.push(Seq::empty())
        } else {
            rest.update(rest.len() - 1, rest.last().push(s.last()))
        }
    }
}

/// The pieces joined with `sep` between each two.
pub open spec fn join_with(parts: Seq<Seq<char>>, sep: Seq<char>) -> Seq<char>
    decreases parts.len(),
{
    if parts.len() == 0 {
        Seq::empty()
    } else if parts.len() == 1 {
        parts[0]
    } else {
        join_with(parts.drop_last(), sep) + sep + parts.last()
    }
}

pub proof fn lemma_split_nonempty(s: Seq<char>, sep: char)
    ensures
        split_on(s, sep).len() >= 1,
    decreases s.len(),
{
    if s.len() > 0 {
        lemma_split_nonempty(s.drop_last(), sep);
    }
}

/// Joining the pieces of a split with the separator gives the string back.
pub proof fn lemma_join_split(s: Seq<char>, sep: char)
    ensures
        join_with(split_on(s, sep), seq![sep]) == s,
    decreases s.len(),
{
    if s.len() > 0 {
        let p = s.drop_last();
        lemma_join_split(p, sep);
        lemma_split_nonempty(p, sep);
        let rest = split_on(p, sep);
        if s.last() == sep {
            let parts = rest.push(Seq::empty());
            assert(parts.drop_last() =~= rest);
            assert(s =~= p + seq![sep] + Seq::<char>::empty());
        } else {
            let parts = rest.update(rest.len() - 1, rest.last().push(s.last()));
            if rest.len() == 1 {
                assert(join_with(rest, seq![sep]) == rest[0]);
                assert(s =~= rest[0].push(s.last()));
            } else {
                assert(parts.drop_last() =~= rest.drop_last());
                assert(join_with(parts, seq![sep]) == join_with(rest.drop_last(), seq![sep]) + seq![sep] + rest.last().push(s.last()));
                assert(join_with(rest, seq![sep]) == join_with(rest.drop_last(), seq![sep]) + seq![sep] + rest.last());
                assert(s =~= p.push(s.last()));
            }
        }
    }
}

/// Splits `s` at every `sep`.
pub fn split_chars(s: &str, sep: char) -> (r: Vec<String>)
    ensures
        r@.len() == split_on(s@, sep).len(),
        forall|i: int| 0 <= i < r@.len() ==> #[trigger] r@[i]@ == split_on(s@, sep)[i],
{
    let cs = chars_of(s);
    let mut done: Vec<String> = Vec::new();
    let mut cur: Vec<char> = Vec::new();
    let mut i: usize = 0;
    while i < cs.len()
        invariant
            cs@ == s@,
            i <= cs.len(),
            done@.len() + 1 == split_on(s@.subrange(0, i as int), sep).len(),
            forall|k: int| 0 <= k < done@.len() ==> #[trigger] done@[k]@ == split_on(s@.subrange(0, i as int), sep)[k],
            cur@ == split_on(s@.subrange(0, i as int), sep).last(),
        decreases cs.len() - i,
    {
        let c = cs[i];
        proof {
            let p = s@.subrange(0, i + 1);
            assert(p.drop_last() =~= s@.subrange(0, i as int));
            lemma_split_nonempty(s@.subrange(0, i as int), sep);
        }
        if c == sep {
            let piece = string_from_chars(&cur);
            done.push(piece);
            cur = Vec::new();
        } else {
            cur.push(c);
        }
        i = i + 1;
    }
    proof {
        lemma_split_nonempty(s@, sep);
        assert(s@.subrange(0, i as int) =~= s@);
    }
    let last = string_from_chars(&cur);
    done.push(last);
    done
}

/// The pieces joined with `sep`.
pub fn join_strings(parts: &Vec<String>, sep: &str) -> (r: String)
    ensures
        r@ == join_with(parts@.map_values(|p: String| p@), sep@),
{
    let ghost views = parts@.map_values(|p: String| p@);
    let mut r = String::new();
    let mut i: usize = 0;
    while i < parts.len()
        invariant
            i <= parts.len(),
            views == parts@.map_values(|p: String| p@),
            r@ == join_with(views.subrange(0, i as int), sep@),
        decreases parts.len() - i,
    {
        proof {
            let q = views.subrange(0, i + 1);
            assert(q.drop_last() =~= views.subrange(0, i as int));
        }
        if i > 0 {
            r.append(sep);
        }
        r.append(parts[i].as_str());
        i = i + 1;
        proof {
            if i == 1 {
                assert(r@ =~= views.subrange(0, 1)[0]);
            }
        }
    }
    assert(views.subrange(0, i as int) =~= views);
    r
}

} // verus!
