# toasty_macros

The front end of the Toasty ORM macros, written in Verus. The macros read
Rust token streams; this library works on a plain model of them (a flat
token list whose identifiers and literals refer to a symbol table) and
proves, for each part, that the result is the one its specification
describes.

## Layout

- `src/tokens.rs`, `src/text.rs`, `src/case.rs`: the token model, string
  helpers, and the case conversions and pluralization (through `heck` and
  `pluralizer`).
- `src/query/`, `src/create/`, `src/update/`: the `query!`, `create!` and
  `update!` languages: a parser with an exact specification of the accepted
  input and of each error, and an expansion into output tokens
  (`src/emit.rs`).
- `src/schema/`: `#[derive(Model)]` and `#[derive(Embed)]` validation:
  attributes, fields, relations, keys, indices, embedded structs and enums.
- `src/filters.rs`, `src/upsert.rs`, `src/registration.rs`,
  `src/create_meta.rs`, `src/query_methods.rs`, `src/docs.rs`: the plans
  behind a valid model's generated code: its filter methods, upsert
  builders, schema registration entries, compile-time checks, creation
  metadata, relation accessors and documentation.
- `src/gen.rs` and the generators: generated code as a sequence of
  pieces, each generator proved to produce exactly the pieces its
  specification gives. For a root model: `src/model_methods.rs` (its
  inherent methods: `fields()`, the filter methods, relation accessors,
  `create()`, `create_many()`, `all()`, `filter()`), `src/model_core.rs`
  (`delete`, the discovery registration, the `Load` and `Model` impls with
  the schema the model registers, and the create builder),
  `src/model_traits.rs` (the key-based trait impls), `src/field_struct.rs`
  and `src/field_list.rs` (the field path structs), `src/query_struct.rs`
  (the query builder), `src/upsert.rs` (upsert builders),
  `src/checks_gen.rs` (compile-time obligations on field types). For
  embedded types, `src/embed_gen.rs`. `src/model_expand.rs` puts them
  together for `#[derive(Model)]` and `#[derive(Embed)]`. The update
  builders, `update(&mut self)`, the `#[item_parent]` accessor, and an
  embedded enum's schema, loading, expression and field-struct impls are
  not generated.
- `src/messages.rs`: the text of every diagnostic.
- `src/migrations.rs`: the checks on an embedded migration history.
- `app/`: the token-stream entry points: conversion from `proc_macro2` and
  `syn` to the token model and back (generated pieces are joined and
  parsed into a token stream), diagnostics as `syn` errors, and the file
  access of `embed_migrations`.
- `tests/`: expansions and validations on concrete inputs.
