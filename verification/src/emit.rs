//! Generated code, as a flat sequence of output tokens: tokens copied from
//! the macro input (by index), fixed identifiers, punctuation and group
//! delimiters.
use vstd::prelude::*;

use crate::tokens::Delim;

verus! {

/// The fixed identifiers that generated code uses.
#[derive(Clone, Copy, PartialEq, Eq, Debug, Structural)]
pub enum Word {
    All,
    Filter,
    Fields,
    And,
    Or,
    Not,
    Eq,
    Ne,
    Gt,
    Ge,
    Lt,
    Le,
    Asc,
    Desc,
    OrderBy,
    Limit,
    Offset,
    Let,
    Mut,
    /// The local `q` that holds a query while its clauses are applied.
    Q,
    True,
    False,
    Create,
    Batch,
    Toasty,
    CodegenSupport,
    ScopeFields,
    CreateInScope,
    /// The local `__scope` that holds a `create!(in ..)` scope.
    ScopeVar,
    /// The local `__scope_fields` that holds that scope's fields.
    ScopeFieldsVar,
    Match,
    /// The local `__update` that holds an update builder.
    UpdateVar,
    Update,
    MacroFieldsRoot,
    /// The local `__fields` that holds the updated type's fields.
    FieldsVar,
    Allow,
    UnusedVariables,
    Stmt,
    Apply,
    Patch,
    IntoRoot,
    Insert,
    As,
    EmbedCreate,
    /// `__toasty_create`: the constructor of an embedded struct's create
    /// builder.
    ToastyCreate,
}

/// Errors that an expansion reports through `compile_error!`.
#[derive(Clone, Copy, PartialEq, Eq, Debug, Structural)]
pub enum CompileErrorKind {
    NestedListInUpdate,
    ListInPatch,
    MethodInList,
    DeepNesting,
}

/// The message of such an error.
pub open spec fn compile_error_text(k: CompileErrorKind) -> Seq<char> {
    match k {
        CompileErrorKind::NestedListInUpdate => "nested lists are not supported in update!"@,
        CompileErrorKind::ListInPatch => "list values are not supported inside embedded patch blocks"@,
        CompileErrorKind::MethodInList => "method shorthand is not supported as a list item"@,
        CompileErrorKind::DeepNesting => "deeper nesting inside a has-many list item is not supported in update!"@,
    }
}

impl CompileErrorKind {
    pub fn message(&self) -> (r: &'static str)
        ensures
            r@ == compile_error_text(*self),
    {
        proof {
            reveal_strlit("nested lists are not supported in update!");
            reveal_strlit("list values are not supported inside embedded patch blocks");
            reveal_strlit("method shorthand is not supported as a list item");
            reveal_strlit("deeper nesting inside a has-many list item is not supported in update!");
        }
        match self {
            CompileErrorKind::NestedListInUpdate => "nested lists are not supported in update!",
            CompileErrorKind::ListInPatch => "list values are not supported inside embedded patch blocks",
            CompileErrorKind::MethodInList => "method shorthand is not supported as a list item",
            CompileErrorKind::DeepNesting => "deeper nesting inside a has-many list item is not supported in update!",
        }
    }
}

/// The text of a word.
pub open spec fn word_text(w: Word) -> Seq<char> {
    match w {
        Word::All => "all"@,
        Word::Filter => "filter"@,
        Word::Fields => "fields"@,
        Word::And => "and"@,
        Word::Or => "or"@,
        Word::Not => "not"@,
        Word::Eq => "eq"@,
        Word::Ne => "ne"@,
        Word::Gt => "gt"@,
        Word::Ge => "ge"@,
        Word::Lt => "lt"@,
        Word::Le => "le"@,
        Word::Asc => "asc"@,
        Word::Desc => "desc"@,
        Word::OrderBy => "order_by"@,
        Word::Limit => "limit"@,
        Word::Offset => "offset"@,
        Word::Let => "let"@,
        Word::Mut => "mut"@,
        Word::Q => "q"@,
        Word::True => "true"@,
        Word::False => "false"@,
        Word::Create => "create"@,
        Word::Batch => "batch"@,
        Word::Toasty => "toasty"@,
        Word::CodegenSupport => "codegen_support"@,
        Word::ScopeFields => "scope_fields"@,
        Word::CreateInScope => "create_in_scope"@,
        Word::ScopeVar => "__scope"@,
        Word::ScopeFieldsVar => "__scope_fields"@,
        Word::Match => "match"@,
        Word::UpdateVar => "__update"@,
        Word::Update => "update"@,
        Word::MacroFieldsRoot => "__macro_fields_root"@,
        Word::FieldsVar => "__fields"@,
        Word::Allow => "allow"@,
        Word::UnusedVariables => "unused_variables"@,
        Word::Stmt => "stmt"@,
        Word::Apply => "apply"@,
        Word::Patch => "patch"@,
        Word::IntoRoot => "into_root"@,
        Word::Insert => "insert"@,
        Word::As => "as"@,
        Word::EmbedCreate => "EmbedCreate"@,
        Word::ToastyCreate => "__toasty_create"@,
    }
}

impl Word {
    /// The identifier this word stands for.
    pub fn text(&self) -> (r: &'static str)
        ensures
            r@ == word_text(*self),
    {
        proof {
            reveal_strlit("all");
            reveal_strlit("filter");
            reveal_strlit("fields");
            reveal_strlit("and");
            reveal_strlit("or");
            reveal_strlit("not");
            reveal_strlit("eq");
            reveal_strlit("ne");
            reveal_strlit("gt");
            reveal_strlit("ge");
            reveal_strlit("lt");
            reveal_strlit("le");
            reveal_strlit("asc");
            reveal_strlit("desc");
            reveal_strlit("order_by");
            reveal_strlit("limit");
            reveal_strlit("offset");
            reveal_strlit("let");
            reveal_strlit("mut");
            reveal_strlit("q");
            reveal_strlit("true");
            reveal_strlit("false");
            reveal_strlit("create");
            reveal_strlit("batch");
            reveal_strlit("toasty");
            reveal_strlit("codegen_support");
            reveal_strlit("scope_fields");
            reveal_strlit("create_in_scope");
            reveal_strlit("__scope");
            reveal_strlit("__scope_fields");
            reveal_strlit("match");
            reveal_strlit("__update");
            reveal_strlit("update");
            reveal_strlit("__macro_fields_root");
            reveal_strlit("__fields");
            reveal_strlit("allow");
            reveal_strlit("unused_variables");
            reveal_strlit("stmt");
            reveal_strlit("apply");
            reveal_strlit("patch");
            reveal_strlit("into_root");
            reveal_strlit("insert");
            reveal_strlit("as");
            reveal_strlit("EmbedCreate");
            reveal_strlit("__toasty_create");
        }
        match self {
            Word::All => "all",
            Word::Filter => "filter",
            Word::Fields => "fields",
            Word::And => "and",
            Word::Or => "or",
            Word::Not => "not",
            Word::Eq => "eq",
            Word::Ne => "ne",
            Word::Gt => "gt",
            Word::Ge => "ge",
            Word::Lt => "lt",
            Word::Le => "le",
            Word::Asc => "asc",
            Word::Desc => "desc",
            Word::OrderBy => "order_by",
            Word::Limit => "limit",
            Word::Offset => "offset",
            Word::Let => "let",
            Word::Mut => "mut",
            Word::Q => "q",
            Word::True => "true",
            Word::False => "false",
            Word::Create => "create",
            Word::Batch => "batch",
            Word::Toasty => "toasty",
            Word::CodegenSupport => "codegen_support",
            Word::ScopeFields => "scope_fields",
            Word::CreateInScope => "create_in_scope",
            Word::ScopeVar => "__scope",
            Word::ScopeFieldsVar => "__scope_fields",
            Word::Match => "match",
            Word::UpdateVar => "__update",
            Word::Update => "update",
            Word::MacroFieldsRoot => "__macro_fields_root",
            Word::FieldsVar => "__fields",
            Word::Allow => "allow",
            Word::UnusedVariables => "unused_variables",
            Word::Stmt => "stmt",
            Word::Apply => "apply",
            Word::Patch => "patch",
            Word::IntoRoot => "into_root",
            Word::Insert => "insert",
            Word::As => "as",
            Word::EmbedCreate => "EmbedCreate",
            Word::ToastyCreate => "__toasty_create",
        }
    }
}

/// One output token.
#[derive(Clone, Copy, PartialEq, Eq, Debug, Structural)]
pub enum OutTok {
    /// The input token at this index, span included.
    Copy(usize),
    Word(Word),
    /// A punctuation character; `joint` when it joins the next one into one
    /// operator.
    Punct { ch: char, joint: bool },
    Open(Delim),
    Close(Delim),
    /// The identifier `__value_<n>` of the `n`-th value evaluated before an
    /// update.
    Hoisted(usize),
    /// `compile_error!("..")` with this error's message.
    CompileError(CompileErrorKind),
    /// The identifier of the snake-case name (see `schema::name`) of the
    /// input identifier at this index.
    Snake(usize),
    /// The identifier `__toasty_create_<Variant>`, where `<Variant>` is the
    /// input identifier at this index: the create-builder constructor of an
    /// embedded enum variant.
    CreateVariant(usize),
}

/// The input tokens `a..b`, copied.
pub open spec fn copies(a: int, b: int) -> Seq<OutTok> {
    Seq::new(if b > a { (b - a) as nat } else { 0 }, |k: int| OutTok::Copy((a + k) as usize))
}

/// `::`
pub open spec fn path_sep() -> Seq<OutTok> {
    seq![OutTok::Punct { ch: ':', joint: true }, OutTok::Punct { ch: ':', joint: false }]
}

/// A single punctuation character.
pub open spec fn punct(ch: char) -> Seq<OutTok> {
    seq![OutTok::Punct { ch, joint: false }]
}

/// `( x )`
pub open spec fn parens(x: Seq<OutTok>) -> Seq<OutTok> {
    seq![OutTok::Open(Delim::Paren)] + x + seq![OutTok::Close(Delim::Paren)]
}

/// `[ x ]`
pub open spec fn brackets(x: Seq<OutTok>) -> Seq<OutTok> {
    seq![OutTok::Open(Delim::Bracket)] + x + seq![OutTok::Close(Delim::Bracket)]
}

/// `{ x }`
pub open spec fn braces(x: Seq<OutTok>) -> Seq<OutTok> {
    seq![OutTok::Open(Delim::Brace)] + x + seq![OutTok::Close(Delim::Brace)]
}

/// `.w( args )`
pub open spec fn method_call(w: Word, args: Seq<OutTok>) -> Seq<OutTok> {
    punct('.') + seq![OutTok::Word(w)] + parens(args)
}

/// Appends copies of the input tokens `a..b`.
pub fn push_copies(a: usize, b: usize, out: &mut Vec<OutTok>)
    ensures
        final(out)@ == old(out)@ + copies(a as int, b as int),
{
    let ghost start = out@;
    let mut k: usize = a;
    if a < b {
        while k < b
            invariant
                a <= k <= b,
                out@ == start + copies(a as int, k as int),
            decreases b - k,
        {
            out.push(OutTok::Copy(k));
            k = k + 1;
            assert(out@ =~= start + copies(a as int, k as int));
        }
    } else {
        assert(out@ =~= start + copies(a as int, b as int));
    }
}

/// Appends `::`.
pub fn push_path_sep(out: &mut Vec<OutTok>)
    ensures
        final(out)@ == old(out)@ + path_sep(),
{
    out.push(OutTok::Punct { ch: ':', joint: true });
    out.push(OutTok::Punct { ch: ':', joint: false });
    assert(out@ =~= old(out)@ + path_sep());
}

/// Appends one punctuation character.
pub fn push_punct(ch: char, out: &mut Vec<OutTok>)
    ensures
        final(out)@ == old(out)@ + punct(ch),
{
    out.push(OutTok::Punct { ch, joint: false });
    assert(out@ =~= old(out)@ + punct(ch));
}

/// Appends a sequence of output tokens.
pub fn push_all(src: &Vec<OutTok>, out: &mut Vec<OutTok>)
    ensures
        final(out)@ == old(out)@ + src@,
{
    let ghost start = out@;
    let mut k: usize = 0;
    while k < src.len()
        invariant
            k <= src@.len(),
            out@ == start + src@.subrange(0, k as int),
        decreases src.len() - k,
    {
        out.push(src[k]);
        k = k + 1;
        assert(out@ =~= start + src@.subrange(0, k as int));
    }
    assert(src@.subrange(0, k as int) =~= src@);
}

/// Appends a word.
pub fn push_word(w: Word, out: &mut Vec<OutTok>)
    ensures
        final(out)@ == old(out)@.push(OutTok::Word(w)),
{
    out.push(OutTok::Word(w));
}

/// Appends `.w()`.
pub fn push_empty_call(w: Word, out: &mut Vec<OutTok>)
    ensures
        final(out)@ == old(out)@ + method_call(w, Seq::empty()),
{
    out.push(OutTok::Punct { ch: '.', joint: false });
    out.push(OutTok::Word(w));
    out.push(OutTok::Open(Delim::Paren));
    out.push(OutTok::Close(Delim::Paren));
    assert(out@ =~= old(out)@ + method_call(w, Seq::empty()));
}

/// The `n` tokens of `big` from index `i` on.
pub open spec fn run_at(big: Seq<OutTok>, i: int, n: int) -> Seq<OutTok> {
    big.subrange(i, i + n)
}

/// `small` stands in `big` as consecutive tokens.
pub open spec fn occurs_in(small: Seq<OutTok>, big: Seq<OutTok>) -> bool {
    exists|i: int| 0 <= i && i + small.len() <= big.len() && #[trigger] run_at(big, i, small.len() as int) == small
}

/// No token of `s` is `t`.
pub open spec fn free_of(s: Seq<OutTok>, t: OutTok) -> bool {
    forall|k: int| 0 <= k < s.len() ==> s[k] != t
}

/// A sequence stands in any sequence built around it.
pub proof fn lemma_occurs_whole(a: Seq<OutTok>, small: Seq<OutTok>, b: Seq<OutTok>)
    ensures
        occurs_in(small, a + small + b),
{
    let big = a + small + b;
    assert(run_at(big, a.len() as int, small.len() as int) =~= small);
}

/// What stands in a part stands in the whole.
pub proof fn lemma_occurs_within(a: Seq<OutTok>, big: Seq<OutTok>, b: Seq<OutTok>, small: Seq<OutTok>)
    requires
        occurs_in(small, big),
    ensures
        occurs_in(small, a + big + b),
{
    let i = choose|i: int| 0 <= i && i + small.len() <= big.len() && #[trigger] run_at(big, i, small.len() as int) == small;
    let whole = a + big + b;
    assert(run_at(whole, i + a.len(), small.len() as int) =~= run_at(big, i, small.len() as int));
}

/// A token that neither part holds is not in the whole.
pub proof fn lemma_free_of_concat(a: Seq<OutTok>, b: Seq<OutTok>, t: OutTok)
    requires
        free_of(a, t),
        free_of(b, t),
    ensures
        free_of(a + b, t),
{
    assert forall|k: int| 0 <= k < (a + b).len() implies (a + b)[k] != t by {
        if k < a.len() {
            assert((a + b)[k] == a[k]);
        } else {
            assert((a + b)[k] == b[k - a.len()]);
        }
    }
}

/// Copied input tokens, `::`, punctuation and delimiters hold no word.
pub proof fn lemma_free_of_plain(a: int, b: int, ch: char, x: Seq<OutTok>, w: Word)
    requires
        free_of(x, OutTok::Word(w)),
    ensures
        free_of(copies(a, b), OutTok::Word(w)),
        free_of(path_sep(), OutTok::Word(w)),
        free_of(punct(ch), OutTok::Word(w)),
        free_of(parens(x), OutTok::Word(w)),
        free_of(brackets(x), OutTok::Word(w)),
        free_of(braces(x), OutTok::Word(w)),
{
    let t = OutTok::Word(w);
    assert(free_of(seq![OutTok::Open(Delim::Paren)], t));
    assert(free_of(seq![OutTok::Close(Delim::Paren)], t));
    assert(free_of(seq![OutTok::Open(Delim::Bracket)], t));
    assert(free_of(seq![OutTok::Close(Delim::Bracket)], t));
    assert(free_of(seq![OutTok::Open(Delim::Brace)], t));
    assert(free_of(seq![OutTok::Close(Delim::Brace)], t));
    lemma_free_of_concat(seq![OutTok::Open(Delim::Paren)], x, t);
    lemma_free_of_concat(seq![OutTok::Open(Delim::Paren)] + x, seq![OutTok::Close(Delim::Paren)], t);
    lemma_free_of_concat(seq![OutTok::Open(Delim::Bracket)], x, t);
    lemma_free_of_concat(seq![OutTok::Open(Delim::Bracket)] + x, seq![OutTok::Close(Delim::Bracket)], t);
    lemma_free_of_concat(seq![OutTok::Open(Delim::Brace)], x, t);
    lemma_free_of_concat(seq![OutTok::Open(Delim::Brace)] + x, seq![OutTok::Close(Delim::Brace)], t);
}

/// A method call holds a word only as its method or in its arguments.
pub proof fn lemma_free_of_method_call(m: Word, args: Seq<OutTok>, w: Word)
    requires
        m != w,
        free_of(args, OutTok::Word(w)),
    ensures
        free_of(method_call(m, args), OutTok::Word(w)),
{
    let t = OutTok::Word(w);
    lemma_free_of_plain(0, 0, '.', args, w);
    assert(free_of(seq![OutTok::Word(m)], t));
    lemma_free_of_concat(punct('.'), seq![OutTok::Word(m)], t);
    lemma_free_of_concat(punct('.') + seq![OutTok::Word(m)], parens(args), t);
}

/// A token is in a concatenation exactly when it is in one of its parts.
pub proof fn lemma_contains_concat(a: Seq<OutTok>, b: Seq<OutTok>, t: OutTok)
    ensures
        (a + b).contains(t) <==> (a.contains(t) || b.contains(t)),
{
    if (a + b).contains(t) {
        let k = choose|k: int| 0 <= k < (a + b).len() && (a + b)[k] == t;
        if k < a.len() {
            assert(a[k] == t);
        } else {
            assert(b[k - a.len()] == t);
        }
    }
    if a.contains(t) {
        let k = choose|k: int| 0 <= k < a.len() && a[k] == t;
        assert((a + b)[k] == t);
    }
    if b.contains(t) {
        let k = choose|k: int| 0 <= k < b.len() && b[k] == t;
        assert((a + b)[k + a.len()] == t);
    }
}

/// In `x + y`, where `x` holds no `t2` and `y` holds no `t1`, every `t1`
/// stands before every `t2`.
pub proof fn lemma_before(x: Seq<OutTok>, y: Seq<OutTok>, t1: OutTok, t2: OutTok)
    requires
        free_of(x, t2),
        free_of(y, t1),
    ensures
        forall|i: int, j: int|
            0 <= i < (x + y).len() && 0 <= j < (x + y).len() && #[trigger] (x + y)[i] == t1 && #[trigger] (x + y)[j] == t2 ==> i < j,
{
    assert forall|i: int, j: int|
        0 <= i < (x + y).len() && 0 <= j < (x + y).len() && #[trigger] (x + y)[i] == t1 && #[trigger] (x + y)[j] == t2 implies i < j by {
        if i >= x.len() {
            assert((x + y)[i] == y[i - x.len()]);
        }
        if j < x.len() {
            assert((x + y)[j] == x[j]);
        }
    }
}

} // verus!
