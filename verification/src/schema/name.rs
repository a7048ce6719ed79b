//! Snake-case names of models, fields and variants.
use vstd::prelude::*;

use crate::case::{
    has_raw_prefix, join_strings, join_with, lemma_join_split, snake_case_of, split_chars,
    split_on, strip_raw, to_snake_case,
};
use crate::text::{concat, starts_with, string_of, suffix_from};

verus! {

/// A name in snake case, split into its `_`-separated parts.
#[derive(Clone, Debug)]
pub struct Name {
    /// The `_`-separated parts of the snake-case form.
    pub parts: Vec<String>,
    /// The snake-case form, without any raw-identifier prefix.
    pub snake_case: String,
    /// Whether the source was a raw identifier (`r#type`); the identifier
    /// of the name is then raw too.
    pub raw: bool,
}

/// The snake-case form of the source text of a name: its raw prefix
/// dropped, then converted to snake case.
pub open spec fn snake_name(src: Seq<char>) -> Seq<char> {
    snake_case_of(strip_raw(src))
}

/// The identifier text of a name with the given snake form.
pub open spec fn ident_text_of(snake: Seq<char>, raw: bool) -> Seq<char> {
    if raw {
        "r#"@ + snake
    } else {
        snake
    }
}

impl Name {
    /// The name is the one derived from source text `src`.
    pub open spec fn derived_from(&self, src: Seq<char>) -> bool {
        &&& self.raw == has_raw_prefix(src)
        &&& self.snake_case@ == snake_name(src)
        &&& self.parts@.len() == split_on(snake_name(src), '_').len()
        &&& forall|i: int| 0 <= i < self.parts@.len() ==> #[trigger] self.parts@[i]@ == split_on(snake_name(src), '_')[i]
    }

    /// Builds the name of an identifier or other source text.
    pub fn from_str(src: &str) -> (r: Name)
        ensures
            r.derived_from(src@),
    {
        let raw = starts_with(src, "r#");
        proof {
            reveal_strlit("r#");
            assert("r#"@ =~= seq!['r', '#']);
            if src@.len() >= 2 {
                assert(src@.subrange(0, 2)[0] == src@[0]);
                assert(src@.subrange(0, 2)[1] == src@[1]);
                if src@[0] == 'r' && src@[1] == '#' {
                    assert(src@.subrange(0, 2) =~= "r#"@);
                }
            }
        }
        let stripped = if raw {
            suffix_from(src, 2)
        } else {
            string_of(src)
        };
        assert(stripped@ == strip_raw(src@));
        let snake = to_snake_case(stripped.as_str());
        let parts = split_chars(snake.as_str(), '_');
        let snake_case = join_strings(&parts, "_");
        proof {
            reveal_strlit("_");
            assert("_"@ =~= seq!['_']);
            lemma_join_split(snake@, '_');
            assert(parts@.map_values(|p: String| p@) =~= split_on(snake@, '_'));
        }
        Name { parts, snake_case, raw }
    }

    /// The identifier of the name: the snake form, raw when the source was.
    pub fn ident_text(&self) -> (r: String)
        ensures
            r@ == ident_text_of(self.snake_case@, self.raw),
    {
        if self.raw {
            concat("r#", self.snake_case.as_str())
        } else {
            self.snake_case.clone()
        }
    }

    /// The bare snake-case name.
    pub fn as_str(&self) -> (r: &str)
        ensures
            r@ == self.snake_case@,
    {
        self.snake_case.as_str()
    }

    /// `prefix`, an underscore, then the snake-case name (never raw).
    pub fn with_prefix(&self, prefix: &str) -> (r: String)
        ensures
            r@ == prefix@ + "_"@ + self.snake_case@,
    {
        let p = concat(prefix, "_");
        concat(p.as_str(), self.snake_case.as_str())
    }
}

/// The identifier `__toasty_<name>` used for names in generated code that
/// must not collide with the user's.
pub fn toasty_ident(name: &str) -> (r: String)
    ensures
        r@ == "__toasty_"@ + name@,
{
    concat("__toasty_", name)
}

/// The method name that an identifier occupies: its text without a raw
/// prefix.
pub fn bare_ident_name(ident: &str) -> (r: String)
    ensures
        r@ == strip_raw(ident@),
{
    let raw = starts_with(ident, "r#");
    proof {
        reveal_strlit("r#");
        assert("r#"@ =~= seq!['r', '#']);
        if ident@.len() >= 2 {
            assert(ident@.subrange(0, 2)[0] == ident@[0]);
            assert(ident@.subrange(0, 2)[1] == ident@[1]);
            if ident@[0] == 'r' && ident@[1] == '#' {
                assert(ident@.subrange(0, 2) =~= "r#"@);
            }
        }
    }
    if raw {
        suffix_from(ident, 2)
    } else {
        string_of(ident)
    }
}

/// Whether the identifier, without a raw prefix, is one of `reserved`.
pub fn ident_is_reserved(ident: &str, reserved: &Vec<String>) -> (r: bool)
    ensures
        r == exists|i: int| 0 <= i < reserved@.len() && #[trigger] reserved@[i]@ == strip_raw(ident@),
{
    let name = bare_ident_name(ident);
    let mut i: usize = 0;
    while i < reserved.len()
        invariant
            i <= reserved.len(),
            name@ == strip_raw(ident@),
            forall|j: int| 0 <= j < i ==> #[trigger] reserved@[j]@ != strip_raw(ident@),
        decreases reserved.len() - i,
    {
        if crate::text::str_eq(reserved[i].as_str(), name.as_str()) {
            return true;
        }
        i = i + 1;
    }
    false
}

/// Joining a name's parts with `_` gives its snake-case form back.
pub proof fn lemma_name_parts_join(n: Name, src: Seq<char>)
    requires
        n.derived_from(src),
    ensures
        join_with(n.parts@.map_values(|p: String| p@), "_"@) == n.snake_case@,
{
    reveal_strlit("_");
    assert("_"@ =~= seq!['_']);
    lemma_join_split(snake_name(src), '_');
    assert(n.parts@.map_values(|p: String| p@) =~= split_on(snake_name(src), '_'));
}

} // verus!
