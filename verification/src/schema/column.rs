//! `#[column(..)]`: database column names, storage types, enum variant
//! labels and rename rules.
use vstd::prelude::*;

use super::attr::{
    close_span, close_span_exec, eq_at, eq_at_exec, expect_err, expect_err_exec, group_at,
    group_at_exec, leftover_err, leftover_err_exec, lit_int_at, lit_int_at_exec, lit_str_at,
    lit_str_at_exec, Attr, MetaKind,
};
use crate::case::{
    kebab_case_of, lower_camel_case_of, lowercase_of, shouty_kebab_case_of,
    shouty_snake_case_of, snake_case_of, to_kebab_case, to_lower_camel_case, to_lowercase,
    to_shouty_kebab_case, to_shouty_snake_case, to_snake_case, to_upper_camel_case, to_uppercase,
    upper_camel_case_of, uppercase_of,
};
use crate::diag::{Diag, ErrorKind, Want};
use crate::text::{ascii_lowercase, concat, i64_to_string, int_text, str_eq, to_ascii_lowercase};
use crate::tokens::{
    is_ident, is_ident_exec, is_lit, is_lit_exec, is_open, is_open_exec, is_punct,
    is_punct_exec, sym_string, sym_text, Delim, LitKind, Tok,
};

verus! {

/// Where the text of a string variant label comes from.
#[derive(Clone, Copy, PartialEq, Eq, Debug, Structural)]
pub enum Label {
    /// The value of a string literal (its symbol).
    Lit(usize),
    /// An identifier (its symbol) under a rename rule.
    Derived(RenameRule, usize),
}

/// The discriminant of an embedded enum variant.
#[derive(Clone, Copy, PartialEq, Eq, Debug, Structural)]
pub enum VariantValue {
    Integer(i64),
    String(Label),
}

/// The text of a label.
pub open spec fn label_text(syms: Seq<String>, l: Label) -> Seq<char> {
    match l {
        Label::Lit(s) => sym_text(syms, s as int),
        Label::Derived(rule, s) => apply_rule(rule, sym_text(syms, s as int)),
    }
}

/// Two discriminants are the same value.
pub open spec fn same_value(syms: Seq<String>, a: VariantValue, b: VariantValue) -> bool {
    match (a, b) {
        (VariantValue::Integer(x), VariantValue::Integer(y)) => x == y,
        (VariantValue::String(x), VariantValue::String(y)) => label_text(syms, x) == label_text(syms, y),
        _ => false,
    }
}

/// How a discriminant is written in messages: the number, or the label in
/// double quotes.
pub open spec fn value_display(syms: Seq<String>, v: VariantValue) -> Seq<char> {
    match v {
        VariantValue::Integer(n) => int_text(n as int),
        VariantValue::String(l) => "\""@ + label_text(syms, l) + "\""@,
    }
}

/// The text of a label, as a new string.
pub fn label_string(syms: &Vec<String>, l: Label) -> (r: String)
    ensures
        r@ == label_text(syms@, l),
{
    match l {
        Label::Lit(s) => sym_string(syms, s),
        Label::Derived(rule, s) => {
            let t = sym_string(syms, s);
            rule.apply(t.as_str())
        },
    }
}

impl VariantValue {
    pub fn is_integer(&self) -> (r: bool)
        ensures
            r == (*self is Integer),
    {
        match self {
            VariantValue::Integer(_) => true,
            _ => false,
        }
    }

    pub fn is_string(&self) -> (r: bool)
        ensures
            r == (*self is String),
    {
        match self {
            VariantValue::String(_) => true,
            _ => false,
        }
    }

    /// Whether two discriminants are the same value.
    pub fn same_as(&self, other: &VariantValue, syms: &Vec<String>) -> (r: bool)
        ensures
            r == same_value(syms@, *self, *other),
    {
        match (self, other) {
            (VariantValue::Integer(x), VariantValue::Integer(y)) => *x == *y,
            (VariantValue::String(x), VariantValue::String(y)) => {
                let a = label_string(syms, *x);
                let b = label_string(syms, *y);
                str_eq(a.as_str(), b.as_str())
            },
            _ => false,
        }
    }

    /// The discriminant as written in messages.
    pub fn display(&self, syms: &Vec<String>) -> (r: String)
        ensures
            r@ == value_display(syms@, *self),
    {
        match self {
            VariantValue::Integer(n) => i64_to_string(*n),
            VariantValue::String(l) => {
                let t = label_string(syms, *l);
                let a = concat("\"", t.as_str());
                concat(a.as_str(), "\"")
            },
        }
    }
}

/// A case-conversion rule applied to variant identifiers to derive their
/// default labels, spelled as in serde's `rename_all`.
#[derive(Clone, Copy, PartialEq, Eq, Debug, Structural)]
pub enum RenameRule {
    Lower,
    Upper,
    Pascal,
    Camel,
    Snake,
    ScreamingSnake,
    Kebab,
    ScreamingKebab,
}

/// The rule a `rename_all` string names.
pub open spec fn rename_rule_of(s: Seq<char>) -> Option<RenameRule> {
    if s == "lowercase"@ {
        Some(RenameRule::Lower)
    } else if s == "UPPERCASE"@ {
        Some(RenameRule::Upper)
    } else if s == "PascalCase"@ {
        Some(RenameRule::Pascal)
    } else if s == "camelCase"@ {
        Some(RenameRule::Camel)
    } else if s == "snake_case"@ {
        Some(RenameRule::Snake)
    } else if s == "SCREAMING_SNAKE_CASE"@ {
        Some(RenameRule::ScreamingSnake)
    } else if s == "kebab-case"@ {
        Some(RenameRule::Kebab)
    } else if s == "SCREAMING-KEBAB-CASE"@ {
        Some(RenameRule::ScreamingKebab)
    } else {
        None
    }
}

/// The label a rule derives from an identifier.
pub open spec fn apply_rule(rule: RenameRule, ident: Seq<char>) -> Seq<char> {
    match rule {
        RenameRule::Lower => lowercase_of(ident),
        RenameRule::Upper => uppercase_of(ident),
        RenameRule::Pascal => upper_camel_case_of(ident),
        RenameRule::Camel => lower_camel_case_of(ident),
        RenameRule::Snake => snake_case_of(ident),
        RenameRule::ScreamingSnake => shouty_snake_case_of(ident),
        RenameRule::Kebab => kebab_case_of(ident),
        RenameRule::ScreamingKebab => shouty_kebab_case_of(ident),
    }
}

impl RenameRule {
    /// The rule named by the string literal at token `i`; an unknown name is
    /// an error at the literal.
    pub fn from_lit(syms: &Vec<String>, value: usize, span: usize) -> (r: Result<RenameRule, Diag>)
        ensures
            r == (match rename_rule_of(sym_text(syms@, value as int)) {
                Some(rule) => Ok(rule),
                None => Err(Diag::at(span, ErrorKind::UnknownRenameRule { value })),
            }),
    {
        let t = sym_string(syms, value);
        let s = t.as_str();
        if str_eq(s, "lowercase") {
            Ok(RenameRule::Lower)
        } else if str_eq(s, "UPPERCASE") {
            Ok(RenameRule::Upper)
        } else if str_eq(s, "PascalCase") {
            Ok(RenameRule::Pascal)
        } else if str_eq(s, "camelCase") {
            Ok(RenameRule::Camel)
        } else if str_eq(s, "snake_case") {
            Ok(RenameRule::Snake)
        } else if str_eq(s, "SCREAMING_SNAKE_CASE") {
            Ok(RenameRule::ScreamingSnake)
        } else if str_eq(s, "kebab-case") {
            Ok(RenameRule::Kebab)
        } else if str_eq(s, "SCREAMING-KEBAB-CASE") {
            Ok(RenameRule::ScreamingKebab)
        } else {
            Err(Diag { span, kind: ErrorKind::UnknownRenameRule { value } })
        }
    }

    /// Applies the rule to a variant identifier, giving its label.
    pub fn apply(self, ident: &str) -> (r: String)
        ensures
            r@ == apply_rule(self, ident@),
    {
        match self {
            RenameRule::Lower => to_lowercase(ident),
            RenameRule::Upper => to_uppercase(ident),
            RenameRule::Pascal => to_upper_camel_case(ident),
            RenameRule::Camel => to_lower_camel_case(ident),
            RenameRule::Snake => to_snake_case(ident),
            RenameRule::ScreamingSnake => to_shouty_snake_case(ident),
            RenameRule::Kebab => to_kebab_case(ident),
            RenameRule::ScreamingKebab => to_shouty_kebab_case(ident),
        }
    }
}

/// A database storage type named in `#[column(type = ..)]`.
#[derive(Clone, Copy, PartialEq, Eq, Debug, Structural)]
pub enum ColumnType {
    Boolean,
    Integer(u8),
    UnsignedInteger(u8),
    Float(u8),
    Text,
    VarChar(u64),
    Json,
    Jsonb,
    Numeric(Option<Precision>),
    Binary(u64),
    Blob,
    Timestamp(u8),
    Date,
    Time(u8),
    DateTime(u8),
    /// Native database enum type, with an optional custom type name (the
    /// symbol of a string literal's value).
    Enum(Option<usize>),
    /// Any other type, spelled as a string literal (its value's symbol).
    Custom(usize),
}

/// Precision and scale of `numeric(p, s)`.
#[derive(Clone, Copy, PartialEq, Eq, Debug, Structural)]
pub struct Precision {
    pub precision: u32,
    pub scale: u32,
}

/// Marker types that identify a storage type for compile-time
/// compatibility checks.
#[derive(Clone, Copy, PartialEq, Eq, Debug, Structural)]
pub enum StorageTag {
    Boolean,
    I8,
    I16,
    I32,
    I64,
    U8,
    U16,
    U32,
    U64,
    Int(u8),
    UInt(u8),
    F32,
    F64,
    Text,
    VarChar,
    Json,
    Jsonb,
    Binary,
    Blob,
    Timestamp,
    Date,
    Time,
    DateTime,
}

/// The compatibility marker of a storage type; none for non-standard
/// widths, `numeric`, `enum` and custom types.
pub open spec fn compat_marker_of(t: ColumnType) -> Option<StorageTag> {
    match t {
        ColumnType::Boolean => Some(StorageTag::Boolean),
        ColumnType::Integer(n) => if n == 1 {
            Some(StorageTag::I8)
        } else if n == 2 {
            Some(StorageTag::I16)
        } else if n == 4 {
            Some(StorageTag::I32)
        } else if n == 8 {
            Some(StorageTag::I64)
        } else if 1 <= n <= 8 {
            Some(StorageTag::Int(n))
        } else {
            None
        },
        ColumnType::UnsignedInteger(n) => if n == 1 {
            Some(StorageTag::U8)
        } else if n == 2 {
            Some(StorageTag::U16)
        } else if n == 4 {
            Some(StorageTag::U32)
        } else if n == 8 {
            Some(StorageTag::U64)
        } else if 1 <= n <= 8 {
            Some(StorageTag::UInt(n))
        } else {
            None
        },
        ColumnType::Float(n) => if n == 4 {
            Some(StorageTag::F32)
        } else if n == 8 {
            Some(StorageTag::F64)
        } else {
            None
        },
        ColumnType::Text => Some(StorageTag::Text),
        ColumnType::VarChar(_) => Some(StorageTag::VarChar),
        ColumnType::Json => Some(StorageTag::Json),
        ColumnType::Jsonb => Some(StorageTag::Jsonb),
        ColumnType::Binary(_) => Some(StorageTag::Binary),
        ColumnType::Blob => Some(StorageTag::Blob),
        ColumnType::Timestamp(_) => Some(StorageTag::Timestamp),
        ColumnType::Date => Some(StorageTag::Date),
        ColumnType::Time(_) => Some(StorageTag::Time),
        ColumnType::DateTime(_) => Some(StorageTag::DateTime),
        ColumnType::Numeric(_) | ColumnType::Enum(_) | ColumnType::Custom(_) => None,
    }
}

impl ColumnType {
    /// `text` and `varchar(..)`: the plain string types that opt out of
    /// native enum storage.
    pub fn is_string_like(&self) -> (r: bool)
        ensures
            r == (*self is Text || *self is VarChar),
    {
        match self {
            ColumnType::Text | ColumnType::VarChar(_) => true,
            _ => false,
        }
    }

    /// Signedness and byte width of an integer storage type.
    pub fn integer_spec(&self) -> (r: Option<(bool, u8)>)
        ensures
            r == (match *self {
                ColumnType::Integer(n) => Some((true, n)),
                ColumnType::UnsignedInteger(n) => Some((false, n)),
                _ => None,
            }),
    {
        match self {
            ColumnType::Integer(n) => Some((true, *n)),
            ColumnType::UnsignedInteger(n) => Some((false, *n)),
            _ => None,
        }
    }

    /// The marker used in compile-time compatibility checks.
    pub fn compat_marker(&self) -> (r: Option<StorageTag>)
        ensures
            r == compat_marker_of(*self),
    {
        match self {
            ColumnType::Boolean => Some(StorageTag::Boolean),
            ColumnType::Integer(n) => {
                let n = *n;
                if n == 1 {
                    Some(StorageTag::I8)
                } else if n == 2 {
                    Some(StorageTag::I16)
                } else if n == 4 {
                    Some(StorageTag::I32)
                } else if n == 8 {
                    Some(StorageTag::I64)
                } else if 1 <= n && n <= 8 {
                    Some(StorageTag::Int(n))
                } else {
                    None
                }
            },
            ColumnType::UnsignedInteger(n) => {
                let n = *n;
                if n == 1 {
                    Some(StorageTag::U8)
                } else if n == 2 {
                    Some(StorageTag::U16)
                } else if n == 4 {
                    Some(StorageTag::U32)
                } else if n == 8 {
                    Some(StorageTag::U64)
                } else if 1 <= n && n <= 8 {
                    Some(StorageTag::UInt(n))
                } else {
                    None
                }
            },
            ColumnType::Float(n) => {
                if *n == 4 {
                    Some(StorageTag::F32)
                } else if *n == 8 {
                    Some(StorageTag::F64)
                } else {
                    None
                }
            },
            ColumnType::Text => Some(StorageTag::Text),
            ColumnType::VarChar(_) => Some(StorageTag::VarChar),
            ColumnType::Json => Some(StorageTag::Json),
            ColumnType::Jsonb => Some(StorageTag::Jsonb),
            ColumnType::Binary(_) => Some(StorageTag::Binary),
            ColumnType::Blob => Some(StorageTag::Blob),
            ColumnType::Timestamp(_) => Some(StorageTag::Timestamp),
            ColumnType::Date => Some(StorageTag::Date),
            ColumnType::Time(_) => Some(StorageTag::Time),
            ColumnType::DateTime(_) => Some(StorageTag::DateTime),
            ColumnType::Numeric(_) | ColumnType::Enum(_) | ColumnType::Custom(_) => None,
        }
    }
}

/// Storage types written as a bare keyword.
pub open spec fn keyword_type(k: Seq<char>) -> Option<ColumnType> {
    if k == "boolean"@ {
        Some(ColumnType::Boolean)
    } else if k == "i8"@ {
        Some(ColumnType::Integer(1))
    } else if k == "i16"@ {
        Some(ColumnType::Integer(2))
    } else if k == "i32"@ {
        Some(ColumnType::Integer(4))
    } else if k == "i64"@ {
        Some(ColumnType::Integer(8))
    } else if k == "u8"@ {
        Some(ColumnType::UnsignedInteger(1))
    } else if k == "u16"@ {
        Some(ColumnType::UnsignedInteger(2))
    } else if k == "u32"@ {
        Some(ColumnType::UnsignedInteger(4))
    } else if k == "u64"@ {
        Some(ColumnType::UnsignedInteger(8))
    } else if k == "f32"@ {
        Some(ColumnType::Float(4))
    } else if k == "f64"@ {
        Some(ColumnType::Float(8))
    } else if k == "text"@ {
        Some(ColumnType::Text)
    } else if k == "json"@ {
        Some(ColumnType::Json)
    } else if k == "jsonb"@ {
        Some(ColumnType::Jsonb)
    } else if k == "blob"@ {
        Some(ColumnType::Blob)
    } else if k == "date"@ {
        Some(ColumnType::Date)
    } else {
        None
    }
}

/// Storage types written as a keyword with one parenthesized integer; the
/// second component is the largest value the integer may have.
#[derive(Clone, Copy, PartialEq, Eq, Debug, Structural)]
pub enum SizedKind {
    Int,
    UInt,
    VarChar,
    Binary,
    Timestamp,
    Time,
    DateTime,
}

pub open spec fn sized_keyword(k: Seq<char>) -> Option<SizedKind> {
    if k == "int"@ {
        Some(SizedKind::Int)
    } else if k == "uint"@ {
        Some(SizedKind::UInt)
    } else if k == "varchar"@ {
        Some(SizedKind::VarChar)
    } else if k == "binary"@ {
        Some(SizedKind::Binary)
    } else if k == "timestamp"@ {
        Some(SizedKind::Timestamp)
    } else if k == "time"@ {
        Some(SizedKind::Time)
    } else if k == "datetime"@ {
        Some(SizedKind::DateTime)
    } else {
        None
    }
}

/// The largest size a sized type accepts (the range of its Rust field).
pub open spec fn sized_max(k: SizedKind) -> int {
    match k {
        SizedKind::VarChar | SizedKind::Binary => 0xffff_ffff_ffff_ffff,
        _ => 255,
    }
}

pub open spec fn sized_type(k: SizedKind, v: int) -> ColumnType {
    match k {
        SizedKind::Int => ColumnType::Integer(v as u8),
        SizedKind::UInt => ColumnType::UnsignedInteger(v as u8),
        SizedKind::VarChar => ColumnType::VarChar(v as u64),
        SizedKind::Binary => ColumnType::Binary(v as u64),
        SizedKind::Timestamp => ColumnType::Timestamp(v as u8),
        SizedKind::Time => ColumnType::Time(v as u8),
        SizedKind::DateTime => ColumnType::DateTime(v as u8),
    }
}

/// `( <int> )` at `i`: the integer (in `0..=max`) and the index after the
/// group.
pub open spec fn paren_int(toks: Seq<Tok>, syms: Seq<String>, i: int, hi: int, scope: usize, max: int) -> Result<(int, int), Diag> {
    match group_at(toks, i, hi, scope, Delim::Paren, Want::Parens) {
        Err(e) => Err(e),
        Ok(c) => match lit_int_at(toks, syms, i + 1, c, close_span(toks, c), 0, max) {
            Err(e) => Err(e),
            Ok(v) => if i + 2 < c {
                Err(leftover_err(toks, i + 2, c, close_span(toks, c), Some(Delim::Paren)))
            } else {
                Ok((v, c + 1))
            },
        },
    }
}

/// The identifier text at `i` (empty when there is no identifier).
pub open spec fn ident_text_at(toks: Seq<Tok>, syms: Seq<String>, i: int, hi: int) -> Seq<char> {
    if 0 <= i < hi && i < toks.len() && toks[i] is Ident {
        sym_text(syms, toks[i]->sym as int)
    } else {
        Seq::empty()
    }
}

/// A storage type starting at `i`: the type and the index after it.
pub open spec fn column_type_spec(toks: Seq<Tok>, syms: Seq<String>, i: int, hi: int, scope: usize) -> Result<(ColumnType, int), Diag> {
    if is_lit(toks, i, hi, LitKind::Str) {
        let v = toks[i]->value;
        let lower = ascii_lowercase(sym_text(syms, v as int));
        if lower == "json"@ {
            Ok((ColumnType::Json, i + 1))
        } else if lower == "jsonb"@ {
            Ok((ColumnType::Jsonb, i + 1))
        } else {
            Ok((ColumnType::Custom(v), i + 1))
        }
    } else if 0 <= i < hi && i < toks.len() && toks[i] is Ident {
        let k = ident_text_at(toks, syms, i, hi);
        if keyword_type(k) is Some {
            Ok((keyword_type(k).unwrap(), i + 1))
        } else if sized_keyword(k) is Some {
            let kind = sized_keyword(k).unwrap();
            match paren_int(toks, syms, i + 1, hi, scope, sized_max(kind)) {
                Err(e) => Err(e),
                Ok((v, next)) => Ok((sized_type(kind, v), next)),
            }
        } else if k == "numeric"@ {
            if is_open(toks, i + 1, hi, Delim::Paren) {
                match group_at(toks, i + 1, hi, scope, Delim::Paren, Want::Parens) {
                    Err(e) => Err(e),
                    Ok(c) => {
                        let cs = close_span(toks, c);
                        match lit_int_at(toks, syms, i + 2, c, cs, 0, 0xffff_ffff) {
                            Err(e) => Err(e),
                            Ok(p) => if !is_punct(toks, i + 3, c, ',') {
                                Err(expect_err(toks, i + 3, c, cs, Want::Comma))
                            } else {
                                match lit_int_at(toks, syms, i + 4, c, cs, 0, 0xffff_ffff) {
                                    Err(e) => Err(e),
                                    Ok(s) => if i + 5 < c {
                                        Err(leftover_err(toks, i + 5, c, cs, Some(Delim::Paren)))
                                    } else {
                                        Ok((ColumnType::Numeric(Some(Precision { precision: p as u32, scale: s as u32 })), c + 1))
                                    },
                                }
                            },
                        }
                    },
                }
            } else {
                Ok((ColumnType::Numeric(None), i + 1))
            }
        } else if k == "enum"@ {
            if is_open(toks, i + 1, hi, Delim::Paren) {
                match group_at(toks, i + 1, hi, scope, Delim::Paren, Want::Parens) {
                    Err(e) => Err(e),
                    Ok(c) => {
                        let cs = close_span(toks, c);
                        match lit_str_at(toks, i + 2, c, cs) {
                            Err(e) => Err(e),
                            Ok(v) => if sym_text(syms, v as int).len() == 0 {
                                Err(Diag::at(toks[i + 2].span_of(), ErrorKind::EmptyEnumTypeName))
                            } else if i + 3 < c {
                                Err(leftover_err(toks, i + 3, c, cs, Some(Delim::Paren)))
                            } else {
                                Ok((ColumnType::Enum(Some(v)), c + 1))
                            },
                        }
                    },
                }
            } else {
                Ok((ColumnType::Enum(None), i + 1))
            }
        } else {
            Err(expect_err(toks, i, hi, scope, Want::ColumnType))
        }
    } else {
        Err(expect_err(toks, i, hi, scope, Want::ColumnType))
    }
}

fn keyword_type_exec(k: &str) -> (r: Option<ColumnType>)
    ensures
        r == keyword_type(k@),
{
    if str_eq(k, "boolean") {
        Some(ColumnType::Boolean)
    } else if str_eq(k, "i8") {
        Some(ColumnType::Integer(1))
    } else if str_eq(k, "i16") {
        Some(ColumnType::Integer(2))
    } else if str_eq(k, "i32") {
        Some(ColumnType::Integer(4))
    } else if str_eq(k, "i64") {
        Some(ColumnType::Integer(8))
    } else if str_eq(k, "u8") {
        Some(ColumnType::UnsignedInteger(1))
    } else if str_eq(k, "u16") {
        Some(ColumnType::UnsignedInteger(2))
    } else if str_eq(k, "u32") {
        Some(ColumnType::UnsignedInteger(4))
    } else if str_eq(k, "u64") {
        Some(ColumnType::UnsignedInteger(8))
    } else if str_eq(k, "f32") {
        Some(ColumnType::Float(4))
    } else if str_eq(k, "f64") {
        Some(ColumnType::Float(8))
    } else if str_eq(k, "text") {
        Some(ColumnType::Text)
    } else if str_eq(k, "json") {
        Some(ColumnType::Json)
    } else if str_eq(k, "jsonb") {
        Some(ColumnType::Jsonb)
    } else if str_eq(k, "blob") {
        Some(ColumnType::Blob)
    } else if str_eq(k, "date") {
        Some(ColumnType::Date)
    } else {
        None
    }
}

fn sized_keyword_exec(k: &str) -> (r: Option<SizedKind>)
    ensures
        r == sized_keyword(k@),
{
    if str_eq(k, "int") {
        Some(SizedKind::Int)
    } else if str_eq(k, "uint") {
        Some(SizedKind::UInt)
    } else if str_eq(k, "varchar") {
        Some(SizedKind::VarChar)
    } else if str_eq(k, "binary") {
        Some(SizedKind::Binary)
    } else if str_eq(k, "timestamp") {
        Some(SizedKind::Timestamp)
    } else if str_eq(k, "time") {
        Some(SizedKind::Time)
    } else if str_eq(k, "datetime") {
        Some(SizedKind::DateTime)
    } else {
        None
    }
}

fn paren_int_exec(toks: &Vec<Tok>, syms: &Vec<String>, i: usize, hi: usize, scope: usize, max: i128) -> (r: Result<(i128, usize), Diag>)
    requires
        hi <= toks@.len(),
        127 <= max <= 0xffff_ffff_ffff_ffff,
    ensures
        r matches Ok((v, n)) ==> paren_int(toks@, syms@, i as int, hi as int, scope, max as int) == Ok::<(int, int), Diag>((v as int, n as int)) && n <= hi && n > i,
        r matches Err(e) ==> paren_int(toks@, syms@, i as int, hi as int, scope, max as int) == Err::<(int, int), Diag>(e),
{
    let c = match group_at_exec(toks, i, hi, scope, Delim::Paren, Want::Parens) {
        Ok(c) => c,
        Err(e) => return Err(e),
    };
    let cs = close_span_exec(toks, c);
    let v = match lit_int_at_exec(toks, syms, i + 1, c, cs, 0, max) {
        Ok(v) => v,
        Err(e) => return Err(e),
    };
    if i + 2 < c {
        Err(leftover_err_exec(toks, i + 2, c, cs, Some(Delim::Paren)))
    } else {
        Ok((v, c + 1))
    }
}

/// Parses a storage type starting at `i`.
pub fn column_type(toks: &Vec<Tok>, syms: &Vec<String>, i: usize, hi: usize, scope: usize) -> (r: Result<(ColumnType, usize), Diag>)
    requires
        hi <= toks@.len(),
    ensures
        r matches Ok((t, n)) ==> column_type_spec(toks@, syms@, i as int, hi as int, scope) == Ok::<(ColumnType, int), Diag>((t, n as int)) && i < n <= hi,
        r matches Err(e) ==> column_type_spec(toks@, syms@, i as int, hi as int, scope) == Err::<(ColumnType, int), Diag>(e),
{
    if is_lit_exec(toks, i, hi, LitKind::Str) {
        let v = match toks[i] {
            Tok::Lit { value, .. } => value,
            _ => 0,
        };
        let t = sym_string(syms, v);
        let lower = to_ascii_lowercase(t.as_str());
        if str_eq(lower.as_str(), "json") {
            return Ok((ColumnType::Json, i + 1));
        } else if str_eq(lower.as_str(), "jsonb") {
            return Ok((ColumnType::Jsonb, i + 1));
        } else {
            return Ok((ColumnType::Custom(v), i + 1));
        }
    }
    let sym = if i < hi && i < toks.len() {
        match toks[i] {
            Tok::Ident { sym, .. } => sym,
            _ => return Err(expect_err_exec(toks, i, hi, scope, Want::ColumnType)),
        }
    } else {
        return Err(expect_err_exec(toks, i, hi, scope, Want::ColumnType));
    };
    let kt = sym_string(syms, sym);
    let k = kt.as_str();
    assert(k@ == ident_text_at(toks@, syms@, i as int, hi as int));
    match keyword_type_exec(k) {
        Some(t) => return Ok((t, i + 1)),
        None => {},
    }
    match sized_keyword_exec(k) {
        Some(kind) => {
            let max: i128 = match kind {
                SizedKind::VarChar | SizedKind::Binary => 0xffff_ffff_ffff_ffff,
                _ => 255,
            };
            let (v, next) = match paren_int_exec(toks, syms, i + 1, hi, scope, max) {
                Ok(p) => p,
                Err(e) => return Err(e),
            };
            let t = match kind {
                SizedKind::Int => ColumnType::Integer(v as u8),
                SizedKind::UInt => ColumnType::UnsignedInteger(v as u8),
                SizedKind::VarChar => ColumnType::VarChar(v as u64),
                SizedKind::Binary => ColumnType::Binary(v as u64),
                SizedKind::Timestamp => ColumnType::Timestamp(v as u8),
                SizedKind::Time => ColumnType::Time(v as u8),
                SizedKind::DateTime => ColumnType::DateTime(v as u8),
            };
            return Ok((t, next));
        },
        None => {},
    }
    if str_eq(k, "numeric") {
        if is_open_exec(toks, i + 1, hi, Delim::Paren) {
            let c = match group_at_exec(toks, i + 1, hi, scope, Delim::Paren, Want::Parens) {
                Ok(c) => c,
                Err(e) => return Err(e),
            };
            let cs = close_span_exec(toks, c);
            let p = match lit_int_at_exec(toks, syms, i + 2, c, cs, 0, 0xffff_ffff) {
                Ok(p) => p,
                Err(e) => return Err(e),
            };
            if !is_punct_exec(toks, i + 3, c, ',') {
                return Err(expect_err_exec(toks, i + 3, c, cs, Want::Comma));
            }
            let s = match lit_int_at_exec(toks, syms, i + 4, c, cs, 0, 0xffff_ffff) {
                Ok(s) => s,
                Err(e) => return Err(e),
            };
            if i + 5 < c {
                return Err(leftover_err_exec(toks, i + 5, c, cs, Some(Delim::Paren)));
            }
            return Ok((ColumnType::Numeric(Some(Precision { precision: p as u32, scale: s as u32 })), c + 1));
        } else {
            return Ok((ColumnType::Numeric(None), i + 1));
        }
    }
    if str_eq(k, "enum") {
        if is_open_exec(toks, i + 1, hi, Delim::Paren) {
            let c = match group_at_exec(toks, i + 1, hi, scope, Delim::Paren, Want::Parens) {
                Ok(c) => c,
                Err(e) => return Err(e),
            };
            let cs = close_span_exec(toks, c);
            let v = match lit_str_at_exec(toks, i + 2, c, cs) {
                Ok(v) => v,
                Err(e) => return Err(e),
            };
            let name = sym_string(syms, v);
            if name.as_str().unicode_len() == 0 {
                return Err(Diag { span: toks[i + 2].span(), kind: ErrorKind::EmptyEnumTypeName });
            }
            if i + 3 < c {
                return Err(leftover_err_exec(toks, i + 3, c, cs, Some(Delim::Paren)));
            }
            return Ok((ColumnType::Enum(Some(v)), c + 1));
        } else {
            return Ok((ColumnType::Enum(None), i + 1));
        }
    }
    Err(expect_err_exec(toks, i, hi, scope, Want::ColumnType))
}

/// The settings of a `#[column(..)]` attribute.
#[derive(Clone, Copy, PartialEq, Eq, Debug, Structural)]
pub struct Column {
    /// Column name: the symbol of the string literal's value.
    pub name: Option<usize>,
    pub ty: Option<ColumnType>,
    pub variant: Option<VariantValue>,
    pub rename_all: Option<RenameRule>,
}

pub open spec fn empty_column() -> Column {
    Column { name: None, ty: None, variant: None, rename_all: None }
}

/// One item of a `#[column(..)]` list at `i`, added to `acc`: the new
/// settings and the index after the item.
pub open spec fn column_item(toks: Seq<Tok>, syms: Seq<String>, i: int, n: int, scope: usize, acc: Column) -> Result<(Column, int), Diag> {
    if is_lit(toks, i, n, LitKind::Str) {
        if acc.name is Some {
            Err(Diag::at(toks[i].span_of(), ErrorKind::DuplicateColumnName))
        } else {
            Ok((Column { name: Some(toks[i]->value), ..acc }, i + 1))
        }
    } else if is_ident(toks, syms, i, n, "rename_all"@) {
        if acc.rename_all is Some {
            Err(Diag::at(toks[i].span_of(), ErrorKind::DuplicateRenameAll))
        } else {
            match eq_at(toks, i + 1, n, scope) {
                Err(e) => Err(e),
                Ok(_) => match lit_str_at(toks, i + 2, n, scope) {
                    Err(e) => Err(e),
                    Ok(v) => match rename_rule_of(sym_text(syms, v as int)) {
                        None => Err(Diag::at(toks[i + 2].span_of(), ErrorKind::UnknownRenameRule { value: v })),
                        Some(rule) => Ok((Column { rename_all: Some(rule), ..acc }, i + 3)),
                    },
                },
            }
        }
    } else if is_ident(toks, syms, i, n, "variant"@) {
        if acc.variant is Some {
            Err(Diag::at(toks[i].span_of(), ErrorKind::DuplicateVariant))
        } else {
            match eq_at(toks, i + 1, n, scope) {
                Err(e) => Err(e),
                Ok(_) => if is_lit(toks, i + 2, n, LitKind::Int) {
                    match lit_int_at(toks, syms, i + 2, n, scope, -0x8000_0000_0000_0000, 0x7fff_ffff_ffff_ffff) {
                        Err(e) => Err(e),
                        Ok(v) => Ok((Column { variant: Some(VariantValue::Integer(v as i64)), ..acc }, i + 3)),
                    }
                } else if is_lit(toks, i + 2, n, LitKind::Str) {
                    let v = toks[i + 2]->value;
                    if sym_text(syms, v as int).len() == 0 {
                        Err(Diag::at(toks[i + 2].span_of(), ErrorKind::EmptyVariantLabel))
                    } else {
                        Ok((Column { variant: Some(VariantValue::String(Label::Lit(v))), ..acc }, i + 3))
                    }
                } else {
                    Err(expect_err(toks, i + 2, n, scope, Want::IntOrStrLit))
                },
            }
        }
    } else if is_ident(toks, syms, i, n, "type"@) {
        if acc.ty is Some {
            Err(Diag::at(toks[i].span_of(), ErrorKind::DuplicateColumnType))
        } else {
            match eq_at(toks, i + 1, n, scope) {
                Err(e) => Err(e),
                Ok(_) => match column_type_spec(toks, syms, i + 2, n, scope) {
                    Err(e) => Err(e),
                    Ok((t, j)) => Ok((Column { ty: Some(t), ..acc }, j)),
                },
            }
        }
    } else {
        Err(expect_err(toks, i, n, scope, Want::ColumnArg))
    }
}

/// The comma-separated items of a `#[column(..)]` list from `i` on, added
/// to `acc`; the list is the whole of `toks[..n]`.
pub open spec fn column_items(toks: Seq<Tok>, syms: Seq<String>, i: int, n: int, scope: usize, acc: Column) -> Result<Column, Diag>
    decreases n - i,
{
    match column_item(toks, syms, i, n, scope, acc) {
        Err(e) => Err(e),
        Ok((c, j)) => if j >= n || j <= i {
            Ok(c)
        } else if !is_punct(toks, j, n, ',') {
            Err(expect_err(toks, j, n, scope, Want::Comma))
        } else {
            column_items(toks, syms, j + 1, n, scope, c)
        },
    }
}

/// What a `#[column ...]` attribute says.
pub open spec fn column_from_attr_spec(a: Attr, syms: Seq<String>) -> Result<Column, Diag> {
    match a.kind {
        MetaKind::Path => Err(Diag::at(a.span, ErrorKind::ArgsRequired { name: a.name.unwrap_or(0) })),
        MetaKind::NameValue => Err(Diag::at(a.span, ErrorKind::ParensRequired { name: a.name.unwrap_or(0) })),
        MetaKind::List => column_items(a.args@, syms, 0, a.args@.len() as int, a.close_span, empty_column()),
    }
}

fn column_item_exec(toks: &Vec<Tok>, syms: &Vec<String>, i: usize, scope: usize, acc: Column) -> (r: Result<(Column, usize), Diag>)
    ensures
        r matches Ok((c, j)) ==> column_item(toks@, syms@, i as int, toks@.len() as int, scope, acc) == Ok::<(Column, int), Diag>((c, j as int)) && i < j <= toks@.len(),
        r matches Err(e) ==> column_item(toks@, syms@, i as int, toks@.len() as int, scope, acc) == Err::<(Column, int), Diag>(e),
{
    let n = toks.len();
    if is_lit_exec(toks, i, n, LitKind::Str) {
        if acc.name.is_some() {
            return Err(Diag { span: toks[i].span(), kind: ErrorKind::DuplicateColumnName });
        }
        let v = match toks[i] {
            Tok::Lit { value, .. } => value,
            _ => 0,
        };
        return Ok((Column { name: Some(v), ..acc }, i + 1));
    }
    if is_ident_exec(toks, syms, i, n, "rename_all") {
        if acc.rename_all.is_some() {
            return Err(Diag { span: toks[i].span(), kind: ErrorKind::DuplicateRenameAll });
        }
        match eq_at_exec(toks, i + 1, n, scope) {
            Err(e) => return Err(e),
            Ok(_) => {},
        }
        let v = match lit_str_at_exec(toks, i + 2, n, scope) {
            Err(e) => return Err(e),
            Ok(v) => v,
        };
        let rule = match RenameRule::from_lit(syms, v, toks[i + 2].span()) {
            Err(e) => return Err(e),
            Ok(rule) => rule,
        };
        return Ok((Column { rename_all: Some(rule), ..acc }, i + 3));
    }
    if is_ident_exec(toks, syms, i, n, "variant") {
        if acc.variant.is_some() {
            return Err(Diag { span: toks[i].span(), kind: ErrorKind::DuplicateVariant });
        }
        match eq_at_exec(toks, i + 1, n, scope) {
            Err(e) => return Err(e),
            Ok(_) => {},
        }
        if is_lit_exec(toks, i + 2, n, LitKind::Int) {
            let v = match lit_int_at_exec(toks, syms, i + 2, n, scope, -0x8000_0000_0000_0000, 0x7fff_ffff_ffff_ffff) {
                Err(e) => return Err(e),
                Ok(v) => v,
            };
            return Ok((Column { variant: Some(VariantValue::Integer(v as i64)), ..acc }, i + 3));
        } else if is_lit_exec(toks, i + 2, n, LitKind::Str) {
            let v = match toks[i + 2] {
                Tok::Lit { value, .. } => value,
                _ => 0,
            };
            let label = sym_string(syms, v);
            if label.as_str().unicode_len() == 0 {
                return Err(Diag { span: toks[i + 2].span(), kind: ErrorKind::EmptyVariantLabel });
            }
            return Ok((Column { variant: Some(VariantValue::String(Label::Lit(v))), ..acc }, i + 3));
        } else {
            return Err(expect_err_exec(toks, i + 2, n, scope, Want::IntOrStrLit));
        }
    }
    if is_ident_exec(toks, syms, i, n, "type") {
        if acc.ty.is_some() {
            return Err(Diag { span: toks[i].span(), kind: ErrorKind::DuplicateColumnType });
        }
        match eq_at_exec(toks, i + 1, n, scope) {
            Err(e) => return Err(e),
            Ok(_) => {},
        }
        let (t, j) = match column_type(toks, syms, i + 2, n, scope) {
            Err(e) => return Err(e),
            Ok(p) => p,
        };
        return Ok((Column { ty: Some(t), ..acc }, j));
    }
    Err(expect_err_exec(toks, i, n, scope, Want::ColumnArg))
}

/// Parses the items of a `#[column(..)]` list.
pub fn column_args(toks: &Vec<Tok>, syms: &Vec<String>, scope: usize) -> (r: Result<Column, Diag>)
    ensures
        r == column_items(toks@, syms@, 0, toks@.len() as int, scope, empty_column()),
{
    let n = toks.len();
    let mut acc = Column { name: None, ty: None, variant: None, rename_all: None };
    let mut i: usize = 0;
    loop
        invariant
            n == toks@.len(),
            i <= n,
            column_items(toks@, syms@, i as int, n as int, scope, acc) == column_items(toks@, syms@, 0, n as int, scope, empty_column()),
        decreases n - i,
    {
        let (c, j) = match column_item_exec(toks, syms, i, scope, acc) {
            Err(e) => return Err(e),
            Ok(p) => p,
        };
        if j >= n {
            return Ok(c);
        }
        if !is_punct_exec(toks, j, n, ',') {
            return Err(expect_err_exec(toks, j, n, scope, Want::Comma));
        }
        acc = c;
        i = j + 1;
    }
}

impl Column {
    /// Reads a `#[column(..)]` attribute.
    pub fn from_ast(a: &Attr, syms: &Vec<String>) -> (r: Result<Column, Diag>)
        ensures
            r == column_from_attr_spec(*a, syms@),
    {
        let name = match a.name {
            Some(s) => s,
            None => 0,
        };
        match a.kind {
            MetaKind::Path => Err(Diag { span: a.span, kind: ErrorKind::ArgsRequired { name } }),
            MetaKind::NameValue => Err(Diag { span: a.span, kind: ErrorKind::ParensRequired { name } }),
            MetaKind::List => column_args(&a.args, syms, a.close_span),
        }
    }
}

} // verus!
