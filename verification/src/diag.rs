//! Diagnostics reported by the macros.
use vstd::prelude::*;

use crate::tokens::Delim;

verus! {

/// What a parser expected where it stopped.
#[derive(Clone, Copy, PartialEq, Eq, Debug, Structural)]
pub enum Want {
    Ident,
    LitStr,
    LitInt,
    Eq,
    Comma,
    Dot,
    Colon,
    Pound,
    Parens,
    Brackets,
    Braces,
    UuidOrIncrement,
    V4OrV7,
    ColumnArg,
    ColumnType,
    IntOrStrLit,
    TableArg,
    CompareOp,
    FilterOperand,
    PaginationValue,
    Expression,
    ByAfterOrder,
    BraceOrBatch,
    NestedMetaPath,
}

/// The kinds of error the macros report.
#[derive(Clone, Copy, PartialEq, Eq, Debug, Structural)]
pub enum ErrorKind {
    /// A parser met the wrong token (`eof`: the input ended instead).
    Expected { want: Want, eof: bool },
    /// Tokens were left over inside a group with the given delimiter, or at
    /// the top level.
    Unexpected { delim: Option<Delim> },
    /// Tokens left over after a complete query.
    TrailingQuery,
    /// A group has no closing delimiter inside the input.
    Unbalanced,
    /// A reserved word where an identifier is required.
    KeywordNotIdent { sym: usize },
    /// A nested attribute item began with a literal.
    UnexpectedLitInNested,
    /// A nested attribute item began with some other token.
    UnexpectedTokenInNested,
    /// `#[attr]` has no parenthesized arguments where they are required.
    ArgsRequired { name: usize },
    /// `#[attr = ..]` where parentheses are required.
    ParensRequired { name: usize },
    /// An integer literal does not fit the target type.
    IntOutOfRange,
    /// `rename_all` names an unknown rule (the literal's value symbol).
    UnknownRenameRule { value: usize },
    DuplicateColumnName,
    DuplicateRenameAll,
    DuplicateVariant,
    DuplicateColumnType,
    EmptyVariantLabel,
    EmptyEnumTypeName,
    EmptyComment,
    NulInComment,
    DuplicateTableName,
    DuplicateTableComment,
    ExpectedTableAttr,
    DuplicateIndexName,
    EmptyIndexName,
    MixedKeySyntax,
    DuplicatePartition,
    DuplicateLocal,
    ExpectedFieldName,
    /// A field name that the model does not have (its symbol).
    UnknownField { sym: usize },
    NoPartitionField,
    NoLocalField,
    DuplicateKeyAttr,
    DuplicateFkKey,
    DuplicateFkReferences,
    ExpectedKeyOrReferences,
    EmptyFkKey,
    EmptyFkReferences,
    FkCountMismatch { keys: usize, refs: usize },
    ReferencesNotInferable,
    /// A foreign key field that the model does not have: the symbol of its
    /// name, or of the relation field whose `<field>_id` default it is.
    FkFieldNotFound { sym: usize, default_id: bool },
    ExpectedPairOrVia,
    PairAndVia,
    ItemParentArgs,
    DuplicateFieldKey,
    DuplicateAuto,
    DuplicateUnique,
    IndexTakesNoArgs,
    DuplicateIndex,
    DuplicateColumn,
    DuplicateDefault,
    DuplicateUpdate,
    DuplicateVersion,
    SerializeRemoved,
    MultipleRelations,
    DuplicateItemParent,
    RelationWithColumnType,
    DefaultOnRelation,
    UpdateOnRelation,
    DefaultWithAuto,
    UpdateWithAuto,
    VersionWithKey,
    VersionWithAuto,
    ItemParentWithRelation,
    /// `#[item_parent]` on a field (its name's symbol, `None` for a tuple
    /// field) whose type is not a path.
    ItemParentNotPath { field: Option<usize> },
    ItemParentNotDeferred { field: Option<usize> },
    DeferredArgCount { field: Option<usize> },
    DeferredArgNotType,
    /// A tuple struct with more than one field.
    TupleStructUnsupported,
    ModelGenerics,
    EnumGenerics,
    FieldKeyWithModelKey,
    NoPrimaryKey,
    StructAutoNeedsOneField,
    StructAutoOnModel,
    MultipleVersionFields,
    MultipleItemParents,
    ItemCollectionRemoved,
    DuplicateEnumColumnType,
    TupleVariantUnsupported,
    MixedDiscriminants,
    /// A discriminant already used by the variant whose identifier symbol
    /// is `prev`.
    DuplicateDiscriminant { value: crate::schema::column::VariantValue, prev: usize },
    /// A string label (of the variant whose identifier symbol is
    /// `variant`) longer than 63 bytes; `len` is its length in bytes.
    LabelTooLong { variant: usize, len: usize },
    UnsupportedEnumColumnType,
    IntegerEnumColumnType,
    RenameAllOnIntegerEnum,
    /// A discriminant that the enum's integer storage type cannot hold.
    DiscriminantOutOfRange { value: i64 },
    /// A `create!` value written as a struct literal with a type prefix;
    /// the prefix is the input tokens `start..end`.
    TypePrefixStruct { start: usize, end: usize },
    /// A list nested directly in a list of `create!` values.
    NestedListInCreate,
    /// Something other than `,` or the end after an `update!` method
    /// shorthand.
    ChainedShorthand,
    /// A migration name (its index among the history entries) that is not
    /// a plain file name.
    MigrationNameNotFile { entry: usize },
    /// A migration id used twice (the index of the second entry).
    DuplicateMigrationId { entry: usize },
    /// A migration name used twice (the index of the second entry).
    DuplicateMigrationName { entry: usize },
}

/// A diagnostic: what went wrong, and the span number to blame.
#[derive(Clone, Copy, PartialEq, Eq, Debug, Structural)]
pub struct Diag {
    pub span: usize,
    pub kind: ErrorKind,
}

impl Diag {
    pub open spec fn at(span: usize, kind: ErrorKind) -> Diag {
        Diag { span, kind }
    }
}

pub fn diag(span: usize, kind: ErrorKind) -> (r: Diag)
    ensures
        r == Diag::at(span, kind),
{
    Diag { span, kind }
}

} // verus!
