use proc_macro2::{Delimiter, Spacing, TokenStream, TokenTree};
use toasty_macros::diag::{ErrorKind, Want};
use toasty_macros::emit::OutTok;
use toasty_macros::schema::name::Name;
use toasty_macros::tokens::{Delim, LitKind, Tok};
use toasty_macros::{create, query, update};

/// Tokens of `src` in the library's model; each token's span is its index.
fn lex(src: &str) -> (Vec<Tok>, Vec<String>) {
    let ts: TokenStream = src.parse().unwrap();
    let mut toks = Vec::new();
    let mut syms = Vec::new();
    flatten(ts, &mut toks, &mut syms);
    (toks, syms)
}

fn flatten(ts: TokenStream, toks: &mut Vec<Tok>, syms: &mut Vec<String>) {
    for tt in ts {
        let span = toks.len();
        match tt {
            TokenTree::Ident(i) => {
                syms.push(i.to_string());
                toks.push(Tok::Ident { sym: syms.len() - 1, span });
            }
            TokenTree::Punct(p) => {
                toks.push(Tok::Punct { ch: p.as_char(), joint: p.spacing() == Spacing::Joint, span });
            }
            TokenTree::Literal(l) => {
                let repr = l.to_string();
                let (kind, value) = match syn::Lit::new(l) {
                    syn::Lit::Str(s) => (LitKind::Str, s.value()),
                    syn::Lit::Int(i) => (LitKind::Int, i.base10_digits().to_string()),
                    syn::Lit::Float(_) => (LitKind::Float, repr.clone()),
                    _ => (LitKind::Other, repr.clone()),
                };
                syms.push(repr);
                syms.push(value);
                toks.push(Tok::Lit { kind, repr: syms.len() - 2, value: syms.len() - 1, span });
            }
            TokenTree::Group(g) => {
                let delim = match g.delimiter() {
                    Delimiter::Parenthesis => Delim::Paren,
                    Delimiter::Bracket => Delim::Bracket,
                    Delimiter::Brace => Delim::Brace,
                    Delimiter::None => {
                        flatten(g.stream(), toks, syms);
                        continue;
                    }
                };
                toks.push(Tok::Open { delim, span });
                flatten(g.stream(), toks, syms);
                let span = toks.len();
                toks.push(Tok::Close { delim, span });
            }
        }
    }
}

fn delim_chars(d: Delim) -> (char, char) {
    match d {
        Delim::Paren => ('(', ')'),
        Delim::Bracket => ('[', ']'),
        Delim::Brace => ('{', '}'),
    }
}

fn tok_text(t: &Tok, syms: &[String]) -> (String, bool) {
    match *t {
        Tok::Ident { sym, .. } => (syms[sym].clone(), false),
        Tok::Punct { ch, joint, .. } => (ch.to_string(), joint),
        Tok::Lit { repr, .. } => (syms[repr].clone(), false),
        Tok::Open { delim, .. } => (delim_chars(delim).0.to_string(), false),
        Tok::Close { delim, .. } => (delim_chars(delim).1.to_string(), false),
    }
}

/// The generated code as normalized text.
fn render(out: &[OutTok], toks: &[Tok], syms: &[String]) -> String {
    let mut s = String::new();
    for o in out {
        let (text, joint) = match *o {
            OutTok::Copy(i) => tok_text(&toks[i], syms),
            OutTok::Word(w) => (w.text().to_string(), false),
            OutTok::Punct { ch, joint } => (ch.to_string(), joint),
            OutTok::Open(d) => (delim_chars(d).0.to_string(), false),
            OutTok::Close(d) => (delim_chars(d).1.to_string(), false),
            OutTok::Hoisted(n) => (format!("__value_{n}"), false),
            OutTok::CompileError(k) => (format!("compile_error!({:?})", k.message()), false),
            OutTok::Snake(i) => {
                let (t, _) = tok_text(&toks[i], syms);
                (Name::from_str(&t).ident_text(), false)
            }
            OutTok::CreateVariant(i) => {
                let (t, _) = tok_text(&toks[i], syms);
                (format!("__toasty_create_{t}"), false)
            }
        };
        s.push_str(&text);
        if !joint {
            s.push(' ');
        }
    }
    norm(&s)
}

fn norm(src: &str) -> String {
    src.parse::<TokenStream>().unwrap().to_string()
}

fn run_query(src: &str) -> String {
    let (toks, syms) = lex(src);
    let out = query(&toks, &syms, usize::MAX).unwrap();
    render(&out, &toks, &syms)
}

fn query_error(src: &str) -> ErrorKind {
    let (toks, syms) = lex(src);
    query(&toks, &syms, usize::MAX).unwrap_err().kind
}

fn run_create(src: &str) -> String {
    let (toks, syms) = lex(src);
    let out = create(&toks, &syms, usize::MAX).unwrap();
    render(&out, &toks, &syms)
}

fn create_error(src: &str) -> ErrorKind {
    let (toks, syms) = lex(src);
    create(&toks, &syms, usize::MAX).unwrap_err().kind
}

fn run_update(src: &str) -> String {
    let (toks, syms) = lex(src);
    let out = update(&toks, &syms, usize::MAX).unwrap();
    render(&out, &toks, &syms)
}

fn update_error(src: &str) -> ErrorKind {
    let (toks, syms) = lex(src);
    update(&toks, &syms, usize::MAX).unwrap_err().kind
}

#[test]
fn query_without_clauses_selects_all() {
    assert_eq!(run_query("User"), norm("User::all()"));
}

#[test]
fn query_filter_equality() {
    assert_eq!(run_query(r#"User FILTER .name == "A""#), norm(r#"User::filter(User::fields().name().eq("A"))"#));
}

#[test]
fn query_comparison_operators() {
    assert_eq!(run_query("User FILTER .name != \"Bob\""), norm("User::filter(User::fields().name().ne(\"Bob\"))"));
    assert_eq!(run_query("User FILTER .age > 18"), norm("User::filter(User::fields().age().gt(18))"));
    assert_eq!(run_query("User FILTER .age >= 21"), norm("User::filter(User::fields().age().ge(21))"));
    assert_eq!(run_query("User FILTER .age < 65"), norm("User::filter(User::fields().age().lt(65))"));
    assert_eq!(run_query("User FILTER .age <= 99"), norm("User::filter(User::fields().age().le(99))"));
}

#[test]
fn query_logical_operators() {
    assert_eq!(
        run_query("User FILTER .a == 1 AND .b == 2"),
        norm("User::filter(User::fields().a().eq(1).and(User::fields().b().eq(2)))")
    );
    assert_eq!(
        run_query("User FILTER .a == 1 OR .b == 2"),
        norm("User::filter(User::fields().a().eq(1).or(User::fields().b().eq(2)))")
    );
    assert_eq!(run_query("User FILTER NOT .a == 1"), norm("User::filter((User::fields().a().eq(1)).not())"));
}

#[test]
fn query_precedence_and_binds_tighter_than_or() {
    assert_eq!(
        run_query(r#"User FILTER .name == "A" AND .age > 0 OR .active == false"#),
        norm(r#"User::filter(User::fields().name().eq("A").and(User::fields().age().gt(0)).or(User::fields().active().eq(false)))"#)
    );
    assert_eq!(
        run_query(r#"User FILTER .name == "A" AND (.age > 0 OR .active == false)"#),
        norm(r#"User::filter(User::fields().name().eq("A").and(User::fields().age().gt(0).or(User::fields().active().eq(false))))"#)
    );
}

#[test]
fn query_not_binds_tightest() {
    assert_eq!(
        run_query("User FILTER NOT .active == true AND .age > 1"),
        norm("User::filter((User::fields().active().eq(true)).not().and(User::fields().age().gt(1)))")
    );
}

#[test]
fn query_keywords_are_case_insensitive() {
    let a = run_query(r#"User FILTER .name == "A""#);
    assert_eq!(run_query(r#"User filter .name == "A""#), a);
    assert_eq!(run_query(r#"User Filter .name == "A""#), a);
    assert_eq!(run_query("User FILTER .a == TRUE"), norm("User::filter(User::fields().a().eq(true))"));
}

#[test]
fn query_external_references() {
    assert_eq!(run_query("User FILTER .name == #x"), norm("User::filter(User::fields().name().eq(x))"));
    assert_eq!(run_query("User FILTER .age > #(compute())"), norm("User::filter(User::fields().age().gt(compute()))"));
}

#[test]
fn query_multi_segment_path_and_negative_literal() {
    assert_eq!(
        run_query("User FILTER .profile.age == -3"),
        norm("User::filter(User::fields().profile().age().eq(-3))")
    );
}

#[test]
fn query_order_by_defaults_to_ascending() {
    let expected = norm("{ let mut q = User::all(); q = q.order_by(User::fields().name().asc()); q }");
    assert_eq!(run_query("User ORDER BY .name ASC"), expected);
    assert_eq!(run_query("User ORDER BY .name"), expected);
    assert_eq!(
        run_query("User ORDER BY .age DESC"),
        norm("{ let mut q = User::all(); q = q.order_by(User::fields().age().desc()); q }")
    );
}

#[test]
fn query_limit_is_applied_before_offset() {
    assert_eq!(run_query("User LIMIT 10"), norm("{ let mut q = User::all(); q = q.limit(10); q }"));
    assert_eq!(
        run_query("User OFFSET 5 LIMIT 10"),
        norm("{ let mut q = User::all(); q = q.limit(10); q = q.offset(5); q }")
    );
    assert_eq!(run_query("User LIMIT #(5 + 5)"), norm("{ let mut q = User::all(); q = q.limit(5 + 5); q }"));
}

#[test]
fn query_errors() {
    assert_eq!(query_error("User FILTER .a == 1 garbage"), ErrorKind::TrailingQuery);
    assert_eq!(query_error("User ORDER .name"), ErrorKind::Expected { want: Want::ByAfterOrder, eof: false });
    assert_eq!(query_error("User LIMIT .a"), ErrorKind::Expected { want: Want::PaginationValue, eof: false });
    assert_eq!(query_error("User FILTER"), ErrorKind::Expected { want: Want::FilterOperand, eof: true });
    assert_eq!(query_error("User LIMIT 1 FILTER .a == 1"), ErrorKind::TrailingQuery);
    assert_eq!(query_error("User FILTER (.a == 1 .b)"), ErrorKind::Unexpected { delim: Some(Delim::Paren) });
}

#[test]
fn create_typed_item() {
    assert_eq!(
        run_create(r#"User { name: "Alice", email: "a@example.com" }"#),
        norm(r#"User::create().name("Alice").email("a@example.com")"#)
    );
}

#[test]
fn create_shorthand_field() {
    assert_eq!(run_create("User { name, age: 3 }"), norm("User::create().name(name).age(3)"));
}

#[test]
fn create_nested_record_and_list() {
    assert_eq!(
        run_create(r#"Todo { title: "buy milk", user: { name: "Alice" } }"#),
        norm(r#"Todo::create().title("buy milk").user(Todo::fields().user().create().name("Alice"))"#)
    );
    assert_eq!(
        run_create(r#"User { name: "Alice", todos: [{ title: "first" }, { title: "second" }] }"#),
        norm(r#"User::create().name("Alice").todos([User::fields().todos().create().title("first"), User::fields().todos().create().title("second")])"#)
    );
}

#[test]
fn create_typed_batch_and_tuple() {
    assert_eq!(
        run_create(r#"User::[ { name: "Alice" }, { name: "Bob" } ]"#),
        norm(r#"toasty::batch([User::create().name("Alice"), User::create().name("Bob"),])"#)
    );
    assert_eq!(
        run_create(r#"(User::[ { name: "A" } ], Post { title: "Hello" })"#),
        norm(r#"toasty::batch(([User::create().name("A"),], Post::create().title("Hello"),))"#)
    );
}

#[test]
fn create_scoped_item() {
    assert_eq!(
        run_create(r#"in user.todos() { title: "buy milk" }"#),
        norm(r#"{ let __scope = user.todos(); let __scope_fields = toasty::codegen_support::scope_fields(&__scope); toasty::codegen_support::create_in_scope(__scope).title("buy milk") }"#)
    );
}

#[test]
fn create_errors() {
    assert_eq!(create_error("User { addr: Address { street: s } }"), ErrorKind::TypePrefixStruct { start: 4, end: 5 });
    assert_eq!(create_error("User { addr: crate::Address { street: s } }"), ErrorKind::TypePrefixStruct { start: 4, end: 8 });
    assert_eq!(create_error("User"), ErrorKind::Expected { want: Want::BraceOrBatch, eof: true });
    assert_eq!(create_error("User { tags: [[1]] }"), ErrorKind::NestedListInCreate);
    assert_eq!(create_error("User { a: { x: 1 } b: 2 }"), ErrorKind::Expected { want: Want::Comma, eof: false });
}

#[test]
fn update_hoists_values_in_order() {
    assert_eq!(
        run_update("todo { done: !todo.done, title }"),
        norm("match (!todo.done, title,) { (__value_0, __value_1,) => { let __update = todo.update(); #[allow(unused_variables)] let __fields = __update.__macro_fields_root(); __update.done(__value_0).title(__value_1) } }")
    );
}

#[test]
fn update_method_shorthand_and_embedded_patch() {
    assert_eq!(
        run_update("user { count.increment(1) }"),
        norm("match (1,) { (__value_0,) => { let __update = user.update(); #[allow(unused_variables)] let __fields = __update.__macro_fields_root(); __update.count(toasty::stmt::increment(__value_0)) } }")
    );
    assert_eq!(
        run_update("user { address: { city: c } }"),
        norm("match (c,) { (__value_0,) => { let __update = user.update(); #[allow(unused_variables)] let __fields = __update.__macro_fields_root(); __update.address(toasty::stmt::apply([toasty::stmt::patch(__fields.address().into_root().city(), __value_0)])) } }")
    );
}

#[test]
fn update_lists() {
    assert_eq!(
        run_update(r#"article { tags: ["a", "b"] }"#),
        norm(r#"match ("a", "b",) { (__value_0, __value_1,) => { let __update = article.update(); #[allow(unused_variables)] let __fields = __update.__macro_fields_root(); __update.tags([__value_0, __value_1]) } }"#)
    );
    assert_eq!(
        run_update(r#"user { todos: [{ title: "x" }, old] }"#),
        norm(r#"match ("x", old,) { (__value_0, __value_1,) => { let __update = user.update(); #[allow(unused_variables)] let __fields = __update.__macro_fields_root(); __update.todos(toasty::stmt::apply([toasty::stmt::insert(__fields.todos().create().title(__value_0)), __value_1])) } }"#)
    );
}

#[test]
fn update_errors() {
    assert_eq!(update_error("user { count.increment(1).twice() }"), ErrorKind::ChainedShorthand);
    assert_eq!(update_error("user"), ErrorKind::Expected { want: Want::Braces, eof: true });
}

#[test]
fn create_embedded_literals_use_create_builders() {
    assert_eq!(
        run_create("User { addr: Some(Address { street: &s, zip }) }"),
        norm("User::create().addr(Address::__toasty_create().street(&s).zip(zip))")
    );
    assert_eq!(
        run_create("User { shape: Some(geo::Shape::Circle { center: &c }) }"),
        norm("User::create().shape(geo::Shape::__toasty_create_Circle().center(&c))")
    );
    assert_eq!(
        run_create("User { addr: (Address { street: &s }) }"),
        norm("User::create().addr(Address::__toasty_create().street(&s))")
    );
    assert_eq!(
        run_create("User { addr: Some(Address { city: City { name: &n }, zip: 1 }) }"),
        norm("User::create().addr(Address::__toasty_create().city(City::__toasty_create().name(&n)).zip(1))")
    );
}

#[test]
fn create_complete_values_stay_as_written() {
    assert_eq!(
        run_create("User { addr: Some(Address { street: s }) }"),
        norm("User::create().addr(Some(Address { street: s }))")
    );
    assert_eq!(
        run_create("User { addr: Some(Address { street: &s, ..d }) }"),
        norm("User::create().addr(Some(Address { street: &s, ..d }))")
    );
    assert_eq!(
        run_create("User { addrs: [Some(Address { street: &s })] }"),
        norm("User::create().addrs([Some(Address { street: &s })])")
    );
    assert_eq!(
        run_create("User { pair: (Address { street: &s }, 1) }"),
        norm("User::create().pair((Address { street: &s }, 1))")
    );
}

#[test]
fn diagnostic_messages() {
    let no_syms: Vec<String> = Vec::new();
    let kind = query_error("User LIMIT 10 x");
    assert_eq!(toasty_macros::messages::message(&kind, &no_syms, ""), "unexpected tokens after query");
    let kind = query_error("User ORDER .name");
    assert_eq!(toasty_macros::messages::message(&kind, &no_syms, ""), "expected 'BY' after 'ORDER'");
    let kind = create_error("User");
    assert_eq!(
        toasty_macros::messages::message(&kind, &no_syms, ""),
        "unexpected end of input, expected `{` for single creation or `::[` for batch creation after type path"
    );
    let syms = vec!["tenant".to_string()];
    assert_eq!(
        toasty_macros::messages::message(&ErrorKind::ItemParentNotDeferred { field: Some(0) }, &syms, "Tenant"),
        "`#[item_parent]` field `tenant` must be `Deferred<T>`; found `Tenant`. Toasty does not support eager parent loading."
    );
    assert_eq!(
        toasty_macros::messages::message(&ErrorKind::FkFieldNotFound { sym: 0, default_id: true }, &syms, ""),
        "foreign key field `tenant_id` not found on the model; add the field or name it explicitly with `key = ...`"
    );
    assert_eq!(
        toasty_macros::messages::message(&ErrorKind::FkCountMismatch { keys: 2, refs: 1 }, &syms, ""),
        "`key` has 2 field(s) but `references` has 1 field(s); they must match"
    );
}

#[test]
fn migration_messages_name_the_entry() {
    let none: Vec<String> = Vec::new();
    assert_eq!(
        toasty_macros::messages::message(&ErrorKind::DuplicateMigrationId { entry: 1 }, &none, "7"),
        "duplicate migration id 7"
    );
    assert_eq!(
        toasty_macros::messages::message(&ErrorKind::MigrationNameNotFile { entry: 0 }, &none, "../x.sql"),
        "migration name must be a file name without path components: ../x.sql"
    );
}
