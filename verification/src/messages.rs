//! The text a user reads for each diagnostic.
use vstd::prelude::*;

use crate::diag::{ErrorKind, Want};
use crate::schema::column::value_display;
use crate::text::{concat, i64_to_string, int_text, nat_digits, nat_to_string, string_of};
use crate::tokens::{sym_string, sym_text, Delim};

verus! {

/// What a parser expected, as written in messages.
pub open spec fn want_text(w: Want) -> Seq<char> {
    match w {
        Want::Ident => "identifier"@,
        Want::LitStr => "string literal"@,
        Want::LitInt => "integer literal"@,
        Want::Eq => "`=`"@,
        Want::Comma => "`,`"@,
        Want::Dot => "`.`"@,
        Want::Colon => "`:`"@,
        Want::Pound => "`#`"@,
        Want::Parens => "parentheses"@,
        Want::Brackets => "square brackets"@,
        Want::Braces => "curly braces"@,
        Want::UuidOrIncrement => "`uuid` or `increment`"@,
        Want::V4OrV7 => "`v4` or `v7`"@,
        Want::ColumnArg => "a column name, `type`, `variant` or `rename_all`"@,
        Want::ColumnType => "a column type"@,
        Want::IntOrStrLit => "integer literal or string literal"@,
        Want::TableArg => "`table = \"table_name\"` or `table(comment = \"text\")`"@,
        Want::CompareOp => "comparison operator (==, !=, >, >=, <, <=)"@,
        Want::FilterOperand => "`.field`, literal, `#variable`, `#(expression)`, `NOT`, or `(`"@,
        Want::PaginationValue => "integer literal, `#variable`, or `#(expression)`"@,
        Want::Expression => "expression"@,
        Want::ByAfterOrder => "'BY' after 'ORDER'"@,
        Want::BraceOrBatch => "`{` for single creation or `::[` for batch creation after type path"@,
        Want::NestedMetaPath => "a nested attribute"@,
    }
}

pub fn want_str(w: Want) -> (r: &'static str)
    ensures
        r@ == want_text(w),
{
    match w {
        Want::Ident => "identifier",
        Want::LitStr => "string literal",
        Want::LitInt => "integer literal",
        Want::Eq => "`=`",
        Want::Comma => "`,`",
        Want::Dot => "`.`",
        Want::Colon => "`:`",
        Want::Pound => "`#`",
        Want::Parens => "parentheses",
        Want::Brackets => "square brackets",
        Want::Braces => "curly braces",
        Want::UuidOrIncrement => "`uuid` or `increment`",
        Want::V4OrV7 => "`v4` or `v7`",
        Want::ColumnArg => "a column name, `type`, `variant` or `rename_all`",
        Want::ColumnType => "a column type",
        Want::IntOrStrLit => "integer literal or string literal",
        Want::TableArg => "`table = \"table_name\"` or `table(comment = \"text\")`",
        Want::CompareOp => "comparison operator (==, !=, >, >=, <, <=)",
        Want::FilterOperand => "`.field`, literal, `#variable`, `#(expression)`, `NOT`, or `(`",
        Want::PaginationValue => "integer literal, `#variable`, or `#(expression)`",
        Want::Expression => "expression",
        Want::ByAfterOrder => "'BY' after 'ORDER'",
        Want::BraceOrBatch => "`{` for single creation or `::[` for batch creation after type path",
        Want::NestedMetaPath => "a nested attribute",
    }
}

/// The name of a field in messages (`<unnamed>` for a tuple field).
pub open spec fn field_text(syms: Seq<String>, f: Option<usize>) -> Seq<char> {
    match f {
        Some(s) => sym_text(syms, s as int),
        None => "<unnamed>"@,
    }
}

fn field_string(syms: &Vec<String>, f: Option<usize>) -> (r: String)
    ensures
        r@ == field_text(syms@, f),
{
    match f {
        Some(s) => sym_string(syms, s),
        None => string_of("<unnamed>"),
    }
}

/// The message of a diagnostic. `extra` is the text that the caller has
/// for the diagnostic: the type prefix that `TypePrefixStruct` reports, the
/// field type that `ItemParentNotDeferred` found, or the migration id or
/// name that a migration error is about.
pub open spec fn message_text(kind: ErrorKind, syms: Seq<String>, extra: Seq<char>) -> Seq<char> {
    match kind {
        ErrorKind::Expected { want, eof } => if eof {
            "unexpected end of input, expected "@ + want_text(want)
        } else {
            "expected "@ + want_text(want)
        },
        ErrorKind::Unexpected { delim } => match delim {
            Some(Delim::Paren) => "unexpected tokens inside parentheses"@,
            _ => "unexpected token"@,
        },
        ErrorKind::TrailingQuery => "unexpected tokens after query"@,
        ErrorKind::FkFieldNotFound { sym: s, default_id } => "foreign key field `"@
            + (if default_id { sym_text(syms, s as int) + "_id"@ } else { sym_text(syms, s as int) })
            + "` not found on the model; add the field or name it explicitly with `key = ...`"@,
        ErrorKind::Unbalanced => "unbalanced delimiters"@,
        ErrorKind::UnexpectedLitInNested => "unexpected literal in nested attribute, expected ident"@,
        ErrorKind::UnexpectedTokenInNested => "unexpected token in nested attribute, expected ident"@,
        ErrorKind::IntOutOfRange => "number too large to fit in target type"@,
        ErrorKind::DuplicateColumnName => "duplicate column name"@,
        ErrorKind::DuplicateRenameAll => "duplicate rename_all"@,
        ErrorKind::DuplicateVariant => "duplicate variant discriminant"@,
        ErrorKind::DuplicateColumnType => "duplicate column type"@,
        ErrorKind::EmptyVariantLabel => "variant label must not be empty"@,
        ErrorKind::EmptyEnumTypeName => "enum type name must not be empty"@,
        ErrorKind::EmptyComment => "comment must not be empty"@,
        ErrorKind::NulInComment => "comment must not contain a NUL byte"@,
        ErrorKind::DuplicateTableName => "duplicate table name"@,
        ErrorKind::DuplicateTableComment => "duplicate table comment"@,
        ErrorKind::ExpectedTableAttr => "expected `table = \"table_name\"` or `table(comment = \"text\")`"@,
        ErrorKind::DuplicateIndexName => "`name` specified more than once"@,
        ErrorKind::EmptyIndexName => "`name` must be a non-empty string"@,
        ErrorKind::MixedKeySyntax => "cannot mix field names with `partition`/`local` syntax"@,
        ErrorKind::DuplicatePartition => "`partition` specified more than once; use `partition = [a, b]` for multiple fields"@,
        ErrorKind::DuplicateLocal => "`local` specified more than once; use `local = [a, b]` for multiple fields"@,
        ErrorKind::ExpectedFieldName => "expected a field name"@,
        ErrorKind::NoPartitionField => "expected at least one `partition` field"@,
        ErrorKind::NoLocalField => "expected at least one `local` field"@,
        ErrorKind::DuplicateKeyAttr => "duplicate #[key] attribute"@,
        ErrorKind::DuplicateFkKey => "`key` specified more than once; use `key = [a, b]` for composite foreign keys"@,
        ErrorKind::ExpectedKeyOrReferences => "expected `key` or `references`"@,
        ErrorKind::EmptyFkKey => "`key` must name at least one field"@,
        ErrorKind::EmptyFkReferences => "`references` must name at least one field"@,
        ErrorKind::ExpectedPairOrVia => "expected `pair` or `via` attribute"@,
        ErrorKind::PairAndVia => "`pair` and `via` cannot be combined: a `via` relation has no pair"@,
        ErrorKind::DuplicateFieldKey => "duplicate #[key] attribute"@,
        ErrorKind::DuplicateAuto => "duplicate #[auto] attribute"@,
        ErrorKind::DuplicateUnique => "duplicate #[unique] attribute"@,
        ErrorKind::IndexTakesNoArgs => "field-level `#[index]` does not take arguments; for a composite \
            index spanning multiple fields, use a struct-level `#[index(field1, field2, ...)]` attribute \
            on the model"@,
        ErrorKind::DuplicateIndex => "duplicate #[index] attribute"@,
        ErrorKind::DuplicateColumn => "duplicate #[column] attribute"@,
        ErrorKind::DuplicateDefault => "duplicate #[default] attribute"@,
        ErrorKind::DuplicateUpdate => "duplicate #[update] attribute"@,
        ErrorKind::DuplicateVersion => "duplicate #[version] attribute"@,
        ErrorKind::SerializeRemoved => "the `#[serialize(json)]` attribute has been removed; wrap the \
            field type in `toasty::Json<T>` instead (e.g. `tags: toasty::Json<Vec<String>>`)"@,
        ErrorKind::MultipleRelations => "field has more than one relation attribute"@,
        ErrorKind::DuplicateItemParent => "duplicate #[item_parent] attribute on field"@,
        ErrorKind::RelationWithColumnType => "relation fields cannot have a database type"@,
        ErrorKind::DefaultOnRelation => "#[default] cannot be used on relation fields"@,
        ErrorKind::UpdateOnRelation => "#[update] cannot be used on relation fields"@,
        ErrorKind::DefaultWithAuto => "#[default] and #[auto] cannot be combined on the same field"@,
        ErrorKind::UpdateWithAuto => "#[update] and #[auto] cannot be combined on the same field"@,
        ErrorKind::VersionWithKey => "#[version] cannot be combined with #[key]"@,
        ErrorKind::VersionWithAuto => "#[version] cannot be combined with #[auto]"@,
        ErrorKind::ItemParentWithRelation => "field has both `#[item_parent]` and a relation attribute \
            (`#[belongs_to]`, `#[has_many]`, or `#[has_one]`); use only `#[item_parent]` for item-collection \
            children"@,
        ErrorKind::DeferredArgNotType => "`Deferred`'s type argument must be a type"@,
        ErrorKind::TupleStructUnsupported => "tuple structs (besides new-type) are not supported"@,
        ErrorKind::ModelGenerics => "model generics are not supported"@,
        ErrorKind::EnumGenerics => "enum generics are not supported"@,
        ErrorKind::FieldKeyWithModelKey => "field cannot have #[key] attribute when model has #[key] attribute"@,
        ErrorKind::NoPrimaryKey => "model must either have a struct-level `#[key]` attribute or at least one field-level `#[key]` attribute"@,
        ErrorKind::StructAutoNeedsOneField => "struct-level #[auto] requires exactly one field"@,
        ErrorKind::StructAutoOnModel => "struct-level #[auto] is only supported on `#[derive(Embed)]` newtypes; place #[auto] on a model field instead"@,
        ErrorKind::MultipleVersionFields => "only one field may be annotated with #[version]"@,
        ErrorKind::MultipleItemParents => "at most one field may be annotated with #[item_parent]"@,
        ErrorKind::ItemCollectionRemoved => "`#[item_collection]` has been removed; annotate the parent \
            field with `#[item_parent]` and give it type `Deferred<Parent>`"@,
        ErrorKind::DuplicateEnumColumnType => "duplicate #[column(type = ...)] attribute on enum"@,
        ErrorKind::TupleVariantUnsupported => "tuple variants are not supported; use named fields"@,
        ErrorKind::MixedDiscriminants => "cannot mix integer and string variant discriminants; all variants must use the same discriminant kind"@,
        ErrorKind::IntegerEnumColumnType => "an integer-discriminant enum needs an integer #[column(type = ...)]"@,
        ErrorKind::RenameAllOnIntegerEnum => "`rename_all` applies only to string labels; integer-discriminant enums do not support it"@,
        ErrorKind::NestedListInCreate => "nested lists are not supported in create!"@,
        ErrorKind::ChainedShorthand => "method shorthand is one call deep — chained calls are not supported; \
            use the explicit `field: expr` form for chained expressions"@,
        ErrorKind::DuplicateFkReferences => "`references` specified more than once; use `references = [a, b]` for composite foreign keys"@,
        ErrorKind::ReferencesNotInferable => "`references` cannot be inferred for a composite `key`; name the referenced fields with `references = [...]`"@,
        ErrorKind::ItemParentArgs => "`#[item_parent]` takes no arguments; the parent type is read from the field's `Deferred<T>` type"@,
        ErrorKind::UnsupportedEnumColumnType => "unsupported #[column(type = ...)] for enum; use `text`, `varchar(N)`, or `enum` / `enum(\"name\")`"@,
        ErrorKind::KeywordNotIdent { sym: s } => "expected identifier, found keyword `"@ + sym_text(syms, s as int) + "`"@,
        ErrorKind::ArgsRequired { name } => "expected attribute arguments in parentheses: #["@ + sym_text(syms, name as int) + "(...)]"@,
        ErrorKind::ParensRequired { name } => "expected parentheses: #["@ + sym_text(syms, name as int) + "(...)]"@,
        ErrorKind::UnknownRenameRule { value } => "unknown rename_all rule \""@
            + sym_text(syms, value as int)
            + "\"; expected one of \"lowercase\", \"UPPERCASE\", \"PascalCase\", \"camelCase\", \"snake_case\", \
                \"SCREAMING_SNAKE_CASE\", \"kebab-case\", \"SCREAMING-KEBAB-CASE\""@,
        ErrorKind::UnknownField { sym: s } => "unknown field `"@ + sym_text(syms, s as int) + "`"@,
        ErrorKind::FkCountMismatch { keys, refs } => "`key` has "@
            + nat_digits(keys as nat)
            + " field(s) but `references` has "@
            + nat_digits(refs as nat)
            + " field(s); they must match"@,
        ErrorKind::ItemParentNotPath { field } => "`#[item_parent]` field `"@
            + field_text(syms, field)
            + "` must be `Deferred<T>`; found a non-path type. Toasty does not support eager parent loading."@,
        ErrorKind::ItemParentNotDeferred { field } => "`#[item_parent]` field `"@
            + field_text(syms, field)
            + "` must be `Deferred<T>`; found `"@
            + extra
            + "`. Toasty does not support eager parent loading."@,
        ErrorKind::DeferredArgCount { field } => "`#[item_parent]` field `"@ + field_text(syms, field) + "`: `Deferred` accepts exactly one type argument"@,
        ErrorKind::DuplicateDiscriminant { value, prev } => "duplicate variant discriminant "@
            + value_display(syms, value)
            + "; already used by `"@
            + sym_text(syms, prev as int)
            + "`"@,
        ErrorKind::LabelTooLong { variant, len } => "variant label of `"@
            + sym_text(syms, variant as int)
            + "` is "@
            + nat_digits(len as nat)
            + " bytes; maximum is 63"@,
        ErrorKind::DiscriminantOutOfRange { value } => "variant discriminant "@ + int_text(value as int) + " does not fit the enum's #[column(type = ...)]"@,
        ErrorKind::TypePrefixStruct { .. } => "remove the type prefix `"@ + extra + "` — use `{ ... }` without a type name"@,
        ErrorKind::MigrationNameNotFile { .. } => "migration name must be a file name without path components: "@ + extra,
        ErrorKind::DuplicateMigrationId { .. } => "duplicate migration id "@ + extra,
        ErrorKind::DuplicateMigrationName { .. } => "duplicate migration name "@ + extra,
    }
}

/// The message of a diagnostic (see `message_text`).
pub fn message(kind: &ErrorKind, syms: &Vec<String>, extra: &str) -> (r: String)
    ensures
        r@ == message_text(*kind, syms@, extra@),
{
    match *kind {
        ErrorKind::Expected { want, eof } => if eof {
            concat("unexpected end of input, expected ", want_str(want))
        } else {
            concat("expected ", want_str(want))
        },
        ErrorKind::Unexpected { delim } => match delim {
            Some(Delim::Paren) => string_of("unexpected tokens inside parentheses"),
            _ => string_of("unexpected token"),
        },
        ErrorKind::TrailingQuery => string_of("unexpected tokens after query"),
        ErrorKind::FkFieldNotFound { sym: s, default_id } => {
            let name = sym_string(syms, s);
            let source = if default_id { concat(name.as_str(), "_id") } else { name };
            let a = concat("foreign key field `", source.as_str());
            concat(a.as_str(), "` not found on the model; add the field or name it explicitly with `key = ...`")
        },
        ErrorKind::Unbalanced => string_of("unbalanced delimiters"),
        ErrorKind::UnexpectedLitInNested => string_of("unexpected literal in nested attribute, expected ident"),
        ErrorKind::UnexpectedTokenInNested => string_of("unexpected token in nested attribute, expected ident"),
        ErrorKind::IntOutOfRange => string_of("number too large to fit in target type"),
        ErrorKind::DuplicateColumnName => string_of("duplicate column name"),
        ErrorKind::DuplicateRenameAll => string_of("duplicate rename_all"),
        ErrorKind::DuplicateVariant => string_of("duplicate variant discriminant"),
        ErrorKind::DuplicateColumnType => string_of("duplicate column type"),
        ErrorKind::EmptyVariantLabel => string_of("variant label must not be empty"),
        ErrorKind::EmptyEnumTypeName => string_of("enum type name must not be empty"),
        ErrorKind::EmptyComment => string_of("comment must not be empty"),
        ErrorKind::NulInComment => string_of("comment must not contain a NUL byte"),
        ErrorKind::DuplicateTableName => string_of("duplicate table name"),
        ErrorKind::DuplicateTableComment => string_of("duplicate table comment"),
        ErrorKind::ExpectedTableAttr => string_of("expected `table = \"table_name\"` or `table(comment = \"text\")`"),
        ErrorKind::DuplicateIndexName => string_of("`name` specified more than once"),
        ErrorKind::EmptyIndexName => string_of("`name` must be a non-empty string"),
        ErrorKind::MixedKeySyntax => string_of("cannot mix field names with `partition`/`local` syntax"),
        ErrorKind::DuplicatePartition => string_of("`partition` specified more than once; use `partition = [a, b]` for multiple fields"),
        ErrorKind::DuplicateLocal => string_of("`local` specified more than once; use `local = [a, b]` for multiple fields"),
        ErrorKind::ExpectedFieldName => string_of("expected a field name"),
        ErrorKind::NoPartitionField => string_of("expected at least one `partition` field"),
        ErrorKind::NoLocalField => string_of("expected at least one `local` field"),
        ErrorKind::DuplicateKeyAttr => string_of("duplicate #[key] attribute"),
        ErrorKind::DuplicateFkKey => string_of("`key` specified more than once; use `key = [a, b]` for composite foreign keys"),
        ErrorKind::ExpectedKeyOrReferences => string_of("expected `key` or `references`"),
        ErrorKind::EmptyFkKey => string_of("`key` must name at least one field"),
        ErrorKind::EmptyFkReferences => string_of("`references` must name at least one field"),
        ErrorKind::ExpectedPairOrVia => string_of("expected `pair` or `via` attribute"),
        ErrorKind::PairAndVia => string_of("`pair` and `via` cannot be combined: a `via` relation has no pair"),
        ErrorKind::DuplicateFieldKey => string_of("duplicate #[key] attribute"),
        ErrorKind::DuplicateAuto => string_of("duplicate #[auto] attribute"),
        ErrorKind::DuplicateUnique => string_of("duplicate #[unique] attribute"),
        ErrorKind::IndexTakesNoArgs => string_of("field-level `#[index]` does not take arguments; for \
            a composite index spanning multiple fields, use a struct-level `#[index(field1, field2, ...)]` \
            attribute on the model"),
        ErrorKind::DuplicateIndex => string_of("duplicate #[index] attribute"),
        ErrorKind::DuplicateColumn => string_of("duplicate #[column] attribute"),
        ErrorKind::DuplicateDefault => string_of("duplicate #[default] attribute"),
        ErrorKind::DuplicateUpdate => string_of("duplicate #[update] attribute"),
        ErrorKind::DuplicateVersion => string_of("duplicate #[version] attribute"),
        ErrorKind::SerializeRemoved => string_of("the `#[serialize(json)]` attribute has been removed; \
            wrap the field type in `toasty::Json<T>` instead (e.g. `tags: toasty::Json<Vec<String>>`)"),
        ErrorKind::MultipleRelations => string_of("field has more than one relation attribute"),
        ErrorKind::DuplicateItemParent => string_of("duplicate #[item_parent] attribute on field"),
        ErrorKind::RelationWithColumnType => string_of("relation fields cannot have a database type"),
        ErrorKind::DefaultOnRelation => string_of("#[default] cannot be used on relation fields"),
        ErrorKind::UpdateOnRelation => string_of("#[update] cannot be used on relation fields"),
        ErrorKind::DefaultWithAuto => string_of("#[default] and #[auto] cannot be combined on the same field"),
        ErrorKind::UpdateWithAuto => string_of("#[update] and #[auto] cannot be combined on the same field"),
        ErrorKind::VersionWithKey => string_of("#[version] cannot be combined with #[key]"),
        ErrorKind::VersionWithAuto => string_of("#[version] cannot be combined with #[auto]"),
        ErrorKind::ItemParentWithRelation => string_of("field has both `#[item_parent]` and a relation \
            attribute (`#[belongs_to]`, `#[has_many]`, or `#[has_one]`); use only `#[item_parent]` for \
            item-collection children"),
        ErrorKind::DeferredArgNotType => string_of("`Deferred`'s type argument must be a type"),
        ErrorKind::TupleStructUnsupported => string_of("tuple structs (besides new-type) are not supported"),
        ErrorKind::ModelGenerics => string_of("model generics are not supported"),
        ErrorKind::EnumGenerics => string_of("enum generics are not supported"),
        ErrorKind::FieldKeyWithModelKey => string_of("field cannot have #[key] attribute when model has #[key] attribute"),
        ErrorKind::NoPrimaryKey => string_of("model must either have a struct-level `#[key]` attribute or at least one field-level `#[key]` attribute"),
        ErrorKind::StructAutoNeedsOneField => string_of("struct-level #[auto] requires exactly one field"),
        ErrorKind::StructAutoOnModel => string_of("struct-level #[auto] is only supported on `#[derive(Embed)]` \
            newtypes; place #[auto] on a model field instead"),
        ErrorKind::MultipleVersionFields => string_of("only one field may be annotated with #[version]"),
        ErrorKind::MultipleItemParents => string_of("at most one field may be annotated with #[item_parent]"),
        ErrorKind::ItemCollectionRemoved => string_of("`#[item_collection]` has been removed; annotate \
            the parent field with `#[item_parent]` and give it type `Deferred<Parent>`"),
        ErrorKind::DuplicateEnumColumnType => string_of("duplicate #[column(type = ...)] attribute on enum"),
        ErrorKind::TupleVariantUnsupported => string_of("tuple variants are not supported; use named fields"),
        ErrorKind::MixedDiscriminants => string_of("cannot mix integer and string variant discriminants; all variants must use the same discriminant kind"),
        ErrorKind::IntegerEnumColumnType => string_of("an integer-discriminant enum needs an integer #[column(type = ...)]"),
        ErrorKind::RenameAllOnIntegerEnum => string_of("`rename_all` applies only to string labels; integer-discriminant enums do not support it"),
        ErrorKind::NestedListInCreate => string_of("nested lists are not supported in create!"),
        ErrorKind::ChainedShorthand => string_of("method shorthand is one call deep — chained calls are \
            not supported; use the explicit `field: expr` form for chained expressions"),
        ErrorKind::DuplicateFkReferences => string_of("`references` specified more than once; use `references = [a, b]` for composite foreign keys"),
        ErrorKind::ReferencesNotInferable => string_of("`references` cannot be inferred for a composite \
            `key`; name the referenced fields with `references = [...]`"),
        ErrorKind::ItemParentArgs => string_of("`#[item_parent]` takes no arguments; the parent type is read from the field's `Deferred<T>` type"),
        ErrorKind::UnsupportedEnumColumnType => string_of("unsupported #[column(type = ...)] for enum; use `text`, `varchar(N)`, or `enum` / `enum(\"name\")`"),
        ErrorKind::KeywordNotIdent { sym: s } => {
            let mut out = String::new();
            out = concat(out.as_str(), "expected identifier, found keyword `");
            { let t = sym_string(syms, s); out = concat(out.as_str(), t.as_str()); }
            out = concat(out.as_str(), "`");
            out
        },
        ErrorKind::ArgsRequired { name } => {
            let mut out = String::new();
            out = concat(out.as_str(), "expected attribute arguments in parentheses: #[");
            { let t = sym_string(syms, name); out = concat(out.as_str(), t.as_str()); }
            out = concat(out.as_str(), "(...)]");
            out
        },
        ErrorKind::ParensRequired { name } => {
            let mut out = String::new();
            out = concat(out.as_str(), "expected parentheses: #[");
            { let t = sym_string(syms, name); out = concat(out.as_str(), t.as_str()); }
            out = concat(out.as_str(), "(...)]");
            out
        },
        ErrorKind::UnknownRenameRule { value } => {
            let mut out = String::new();
            out = concat(out.as_str(), "unknown rename_all rule \"");
            { let t = sym_string(syms, value); out = concat(out.as_str(), t.as_str()); }
            out = concat(out.as_str(), "\"; expected one of \"lowercase\", \"UPPERCASE\", \"PascalCase\", \
                \"camelCase\", \"snake_case\", \"SCREAMING_SNAKE_CASE\", \"kebab-case\", \"SCREAMING-KEBAB-CASE\"");
            out
        },
        ErrorKind::UnknownField { sym: s } => {
            let mut out = String::new();
            out = concat(out.as_str(), "unknown field `");
            { let t = sym_string(syms, s); out = concat(out.as_str(), t.as_str()); }
            out = concat(out.as_str(), "`");
            out
        },
        ErrorKind::FkCountMismatch { keys, refs } => {
            let mut out = String::new();
            out = concat(out.as_str(), "`key` has ");
            { let t = nat_to_string(keys as u64); out = concat(out.as_str(), t.as_str()); }
            out = concat(out.as_str(), " field(s) but `references` has ");
            { let t = nat_to_string(refs as u64); out = concat(out.as_str(), t.as_str()); }
            out = concat(out.as_str(), " field(s); they must match");
            out
        },
        ErrorKind::ItemParentNotPath { field } => {
            let mut out = String::new();
            out = concat(out.as_str(), "`#[item_parent]` field `");
            { let t = field_string(syms, field); out = concat(out.as_str(), t.as_str()); }
            out = concat(out.as_str(), "` must be `Deferred<T>`; found a non-path type. Toasty does not support eager parent loading.");
            out
        },
        ErrorKind::ItemParentNotDeferred { field } => {
            let mut out = String::new();
            out = concat(out.as_str(), "`#[item_parent]` field `");
            { let t = field_string(syms, field); out = concat(out.as_str(), t.as_str()); }
            out = concat(out.as_str(), "` must be `Deferred<T>`; found `");
            out = concat(out.as_str(), extra);
            out = concat(out.as_str(), "`. Toasty does not support eager parent loading.");
            out
        },
        ErrorKind::DeferredArgCount { field } => {
            let mut out = String::new();
            out = concat(out.as_str(), "`#[item_parent]` field `");
            { let t = field_string(syms, field); out = concat(out.as_str(), t.as_str()); }
            out = concat(out.as_str(), "`: `Deferred` accepts exactly one type argument");
            out
        },
        ErrorKind::DuplicateDiscriminant { value, prev } => {
            let mut out = String::new();
            out = concat(out.as_str(), "duplicate variant discriminant ");
            { let t = value.display(syms); out = concat(out.as_str(), t.as_str()); }
            out = concat(out.as_str(), "; already used by `");
            { let t = sym_string(syms, prev); out = concat(out.as_str(), t.as_str()); }
            out = concat(out.as_str(), "`");
            out
        },
        ErrorKind::LabelTooLong { variant, len } => {
            let mut out = String::new();
            out = concat(out.as_str(), "variant label of `");
            { let t = sym_string(syms, variant); out = concat(out.as_str(), t.as_str()); }
            out = concat(out.as_str(), "` is ");
            { let t = nat_to_string(len as u64); out = concat(out.as_str(), t.as_str()); }
            out = concat(out.as_str(), " bytes; maximum is 63");
            out
        },
        ErrorKind::DiscriminantOutOfRange { value } => {
            let mut out = String::new();
            out = concat(out.as_str(), "variant discriminant ");
            { let t = i64_to_string(value); out = concat(out.as_str(), t.as_str()); }
            out = concat(out.as_str(), " does not fit the enum's #[column(type = ...)]");
            out
        },
        ErrorKind::TypePrefixStruct { .. } => {
            let mut out = String::new();
            out = concat(out.as_str(), "remove the type prefix `");
            out = concat(out.as_str(), extra);
            out = concat(out.as_str(), "` — use `{ ... }` without a type name");
            out
        },
        ErrorKind::MigrationNameNotFile { .. } => concat("migration name must be a file name without path components: ", extra),
        ErrorKind::DuplicateMigrationId { .. } => concat("duplicate migration id ", extra),
        ErrorKind::DuplicateMigrationName { .. } => concat("duplicate migration name ", extra),
    }
}

} // verus!
