use proc_macro2::{Delimiter, Spacing, TokenStream, TokenTree};
use quote::ToTokens;
use toasty_macros::diag::{Diag, ErrorKind};
use toasty_macros::gen::Gen;
use toasty_macros::create_meta::CreateMetaPlan;
use toasty_macros::docs::{doc_all, doc_create};
use toasty_macros::filters::{method_ident, Filter};
use toasty_macros::migrations::{check_entries, is_plain_file_name};
use toasty_macros::schema::attr::{Attr, MetaKind};
use toasty_macros::schema::auto::{AutoStrategy, UuidVersion};
use toasty_macros::schema::column::{label_string, ColumnType, RenameRule, StorageTag, VariantValue};
use toasty_macros::schema::enum_model::{EnumDef, EnumStorageStrategy, VariantDef};
use toasty_macros::schema::field::{FieldAttr, FieldDef, FieldName, FieldTy, FieldsKind};
use toasty_macros::schema::model::{Model, ModelKind, StructDef};
use toasty_macros::schema::name::Name;
use toasty_macros::tokens::{Delim, LitKind, Tok};
use toasty_macros::registration::{
    check_autos, create_defaults, field_schemas, AutoTag, CompileChecks, CreateDefault, RegisterCall,
};
use toasty_macros::query_methods::{list_relations, ListRelation};
use toasty_macros::upsert::{upsert_setter_doc, DefaultAction, SetterRole, UpsertPlan};
use toasty_macros::{derive_embed, derive_model, EmbedItem};

/// A symbol table and span counter shared by the items of one test.
struct Source {
    syms: Vec<String>,
    next_span: usize,
}

impl Source {
    fn new() -> Source {
        Source { syms: Vec::new(), next_span: 0 }
    }

    fn span(&mut self) -> usize {
        self.next_span += 1;
        self.next_span
    }

    fn sym(&mut self, s: String) -> usize {
        self.syms.push(s);
        self.syms.len() - 1
    }

    fn tokens(&mut self, ts: TokenStream) -> Vec<Tok> {
        let mut out = Vec::new();
        self.push_tokens(ts, &mut out);
        out
    }

    fn push_tokens(&mut self, ts: TokenStream, out: &mut Vec<Tok>) {
        for tt in ts {
            match tt {
                TokenTree::Ident(i) => {
                    let sym = self.sym(i.to_string());
                    let span = self.span();
                    out.push(Tok::Ident { sym, span });
                }
                TokenTree::Punct(p) => {
                    let span = self.span();
                    out.push(Tok::Punct { ch: p.as_char(), joint: p.spacing() == Spacing::Joint, span });
                }
                TokenTree::Literal(l) => {
                    let text = l.to_string();
                    let (kind, value) = match syn::Lit::new(l) {
                        syn::Lit::Str(s) => (LitKind::Str, s.value()),
                        syn::Lit::Int(i) => (LitKind::Int, i.base10_digits().to_string()),
                        syn::Lit::Float(_) => (LitKind::Float, text.clone()),
                        _ => (LitKind::Other, text.clone()),
                    };
                    let repr = self.sym(text);
                    let value = self.sym(value);
                    let span = self.span();
                    out.push(Tok::Lit { kind, repr, value, span });
                }
                TokenTree::Group(g) => {
                    let delim = match g.delimiter() {
                        Delimiter::Parenthesis => Delim::Paren,
                        Delimiter::Bracket => Delim::Bracket,
                        Delimiter::Brace => Delim::Brace,
                        Delimiter::None => {
                            self.push_tokens(g.stream(), out);
                            continue;
                        }
                    };
                    let span = self.span();
                    out.push(Tok::Open { delim, span });
                    self.push_tokens(g.stream(), out);
                    let span = self.span();
                    out.push(Tok::Close { delim, span });
                }
            }
        }
    }

    fn attr(&mut self, a: &syn::Attribute) -> Attr {
        let name = a.path().get_ident().map(|i| i.to_string());
        let name = name.map(|n| self.sym(n));
        let span = self.span();
        let (kind, delim, args) = match &a.meta {
            syn::Meta::Path(_) => (MetaKind::Path, Delim::Paren, Vec::new()),
            syn::Meta::List(l) => {
                let d = match l.delimiter {
                    syn::MacroDelimiter::Paren(_) => Delim::Paren,
                    syn::MacroDelimiter::Brace(_) => Delim::Brace,
                    syn::MacroDelimiter::Bracket(_) => Delim::Bracket,
                };
                (MetaKind::List, d, self.tokens(l.tokens.clone()))
            }
            syn::Meta::NameValue(nv) => (MetaKind::NameValue, Delim::Paren, self.tokens(nv.value.to_token_stream())),
        };
        let close_span = self.span();
        Attr { name, kind, delim, args, span, close_span }
    }

    fn attrs(&mut self, attrs: &[syn::Attribute]) -> Vec<Attr> {
        attrs.iter().filter(|a| !a.path().is_ident("derive")).map(|a| self.attr(a)).collect()
    }

    fn fields(&mut self, fields: &syn::Fields) -> (FieldsKind, Vec<FieldDef>) {
        let kind = match fields {
            syn::Fields::Named(_) => FieldsKind::Named,
            syn::Fields::Unnamed(_) => FieldsKind::Unnamed,
            syn::Fields::Unit => FieldsKind::Unit,
        };
        let mut defs = Vec::new();
        for f in fields.iter() {
            let attrs = self.attrs(&f.attrs);
            let ident = f.ident.as_ref().map(|i| i.to_string());
            let ident = ident.map(|i| self.sym(i));
            let ident_span = self.span();
            let ty_span = self.span();
            let ty = self.tokens(f.ty.to_token_stream());
            let span = self.span();
            defs.push(FieldDef { attrs, ident, ident_span, ty, ty_span, span });
        }
        (kind, defs)
    }

    fn struct_def(&mut self, src: &str) -> StructDef {
        let item: syn::ItemStruct = syn::parse_str(src).unwrap();
        let attrs = self.attrs(&item.attrs);
        let ident = self.sym(item.ident.to_string());
        let ident_span = self.span();
        let span = self.span();
        let generics = if item.generics.params.is_empty() { None } else { Some(self.span()) };
        let fields_span = self.span();
        let (fields_kind, fields) = self.fields(&item.fields);
        StructDef { ident, ident_span, span, generics, attrs, fields_kind, fields_span, fields }
    }

    fn enum_def(&mut self, src: &str) -> EnumDef {
        let item: syn::ItemEnum = syn::parse_str(src).unwrap();
        let attrs = self.attrs(&item.attrs);
        let ident = self.sym(item.ident.to_string());
        let ident_span = self.span();
        let span = self.span();
        let generics = if item.generics.params.is_empty() { None } else { Some(self.span()) };
        let mut variants = Vec::new();
        for v in item.variants.iter() {
            let attrs = self.attrs(&v.attrs);
            let ident = self.sym(v.ident.to_string());
            let ident_span = self.span();
            let span = self.span();
            let fields_span = self.span();
            let (fields_kind, fields) = self.fields(&v.fields);
            variants.push(VariantDef { ident, ident_span, span, attrs, fields_kind, fields_span, fields });
        }
        EnumDef { ident, ident_span, span, generics, attrs, variants }
    }

    fn model(&mut self, src: &str) -> Result<Model, Vec<Diag>> {
        let def = self.struct_def(src);
        derive_model(&def, &self.syms)
    }

    fn embed_enum(&mut self, src: &str) -> Result<Model, Vec<Diag>> {
        let def = self.enum_def(src);
        derive_embed(&EmbedItem::Enum(def), &self.syms)
    }

    fn embed_struct(&mut self, src: &str) -> Result<Model, Vec<Diag>> {
        let def = self.struct_def(src);
        derive_embed(&EmbedItem::Struct(def), &self.syms)
    }

    fn field_name(&self, n: FieldName) -> String {
        match n {
            FieldName::Ident(s) => self.syms[s].clone(),
            FieldName::Index(i) => format!("_{i}"),
        }
    }
}

fn kinds(r: Result<Model, Vec<Diag>>) -> Vec<ErrorKind> {
    match r {
        Ok(_) => panic!("expected errors"),
        Err(es) => es.iter().map(|d| d.kind).collect(),
    }
}

fn labels(src: &mut Source, m: &Model) -> Vec<String> {
    match &m.kind {
        ModelKind::EmbeddedEnum(e) => e
            .variants
            .iter()
            .map(|v| match v.discriminant {
                VariantValue::String(l) => label_string(&src.syms, l),
                VariantValue::Integer(n) => n.to_string(),
            })
            .collect(),
        _ => panic!("not an enum"),
    }
}

fn storage(m: &Model) -> Option<EnumStorageStrategy> {
    match &m.kind {
        ModelKind::EmbeddedEnum(e) => e.storage_strategy,
        _ => panic!("not an enum"),
    }
}

const TENANT: &str = "#[key(account, sk)] struct Tenant { account: String, sk: String, name: String }";

#[test]
fn item_parent_compiles() {
    let mut src = Source::new();
    assert!(src.model(TENANT).is_ok());
    let user = src
        .model("#[key(account, sk)] struct User { account: String, sk: String, name: String, #[item_parent] tenant: Deferred<Tenant> }")
        .unwrap();
    let tenant = &user.fields[3];
    assert_eq!(src.field_name(tenant.name), "tenant");
    assert!(tenant.item_parent.is_some());
    let (lo, hi) = tenant.item_parent_target.unwrap();
    assert_eq!(hi - lo, 1);
    match tenant.ty_toks[lo] {
        Tok::Ident { sym, .. } => assert_eq!(src.syms[sym], "Tenant"),
        _ => panic!("the parent type is an identifier"),
    }
}

#[test]
fn item_parent_requires_deferred() {
    let mut src = Source::new();
    let errs = kinds(src.model("struct User { account: String, sk: String, #[item_parent] tenant: Tenant }"));
    let tenant = src.syms.iter().position(|s| s == "tenant").unwrap();
    assert!(errs.contains(&ErrorKind::ItemParentNotDeferred { field: Some(tenant) }));
    assert_eq!(
        toasty_macros::messages::message(&ErrorKind::ItemParentNotDeferred { field: Some(tenant) }, &src.syms, "Tenant"),
        "`#[item_parent]` field `tenant` must be `Deferred<T>`; found `Tenant`. Toasty does not support eager parent loading."
    );
}

#[test]
fn item_parent_at_most_one() {
    let mut src = Source::new();
    let errs = kinds(src.model(
        "struct Bad { account: String, sk: String, #[item_parent] a: Deferred<A>, #[item_parent] b: Deferred<B> }",
    ));
    assert!(errs.contains(&ErrorKind::MultipleItemParents));
}

#[test]
fn legacy_item_collection_attribute_rejected() {
    let mut src = Source::new();
    let errs = kinds(src.model("#[item_collection(Tenant)] struct User { account: String, sk: String }"));
    assert!(errs.contains(&ErrorKind::ItemCollectionRemoved));
}

#[test]
fn table_name_is_plural_of_snake_name() {
    let mut src = Source::new();
    let user = src.model("struct User { #[key] id: u64, name: String }").unwrap();
    assert_eq!(user.table_name(&src.syms), "users");
    let item = src.model("struct TodoItem { #[key] id: u64 }").unwrap();
    assert_eq!(item.table_name(&src.syms), "todo_items");
    assert_eq!(item.name.snake_case, "todo_item");
}

#[test]
fn primary_key_from_field_and_model_attribute() {
    let mut src = Source::new();
    let user = src.model("struct User { name: String, #[key] #[auto] id: u64 }").unwrap();
    let pk = user.primary_key_fields().unwrap();
    assert_eq!(pk.len(), 1);
    assert_eq!(src.field_name(pk[0].name), "id");
    assert_eq!(pk[0].attrs.auto, Some(AutoStrategy::Unspecified));

    let tenant = src.model(TENANT).unwrap();
    let names: Vec<String> =
        tenant.primary_key_fields().unwrap().iter().map(|f| src.field_name(f.name)).collect();
    assert_eq!(names, vec!["account", "sk"]);
}

#[test]
fn model_errors() {
    let mut src = Source::new();
    assert_eq!(kinds(src.model("struct User { name: String }")), vec![ErrorKind::NoPrimaryKey]);
    assert!(kinds(src.model("struct User<T> { #[key] id: T }")).contains(&ErrorKind::ModelGenerics));
    assert!(kinds(src.model("#[key(id)] struct User { #[key] id: u64 }")).contains(&ErrorKind::FieldKeyWithModelKey));
    assert!(kinds(src.model("struct User { #[key] id: u64, #[version] a: u64, #[version] b: u64 }"))
        .contains(&ErrorKind::MultipleVersionFields));
}

#[test]
fn auto_strategies() {
    let mut src = Source::new();
    let m = src
        .model("struct User { #[key] #[auto(uuid(v7))] id: Uuid, #[auto(increment)] n: u64, #[auto(uuid(v4))] other: Uuid }")
        .unwrap();
    assert_eq!(m.fields[0].attrs.auto, Some(AutoStrategy::Uuid(UuidVersion::V7)));
    assert_eq!(m.fields[1].attrs.auto, Some(AutoStrategy::Increment));
    assert_eq!(m.fields[2].attrs.auto, Some(AutoStrategy::Uuid(UuidVersion::V4)));

    let def = src.struct_def("struct X { #[auto(uuid(v5))] id: Uuid }");
    let r = FieldAttr::from_attrs(&def.fields[0].attrs, &src.syms);
    assert!(r.is_err());
}

#[test]
fn filters_follow_indices() {
    let mut src = Source::new();
    let tenant = src.model(TENANT).unwrap();
    let filters = Filter::build_model_filters(&tenant);
    let got: Vec<(Vec<usize>, bool)> = filters.iter().map(|f| (f.fields.clone(), f.only_relation)).collect();
    assert_eq!(got, vec![(vec![0], false), (vec![0, 1], false), (vec![1], true)]);
    let pk = Filter::primary_key_filter(&tenant, &filters).unwrap();
    assert_eq!(pk.fields, vec![0, 1]);
    assert_eq!(method_ident(&tenant, &src.syms, &vec![0, 1], "get"), "get_by_account_and_sk");

    let user = src.model("struct User { #[key] id: u64, name: String, #[unique] email: String }").unwrap();
    let filters = Filter::build_model_filters(&user);
    let got: Vec<Vec<usize>> = filters.iter().map(|f| f.fields.clone()).collect();
    assert_eq!(got, vec![vec![0], vec![2]]);
    assert_eq!(method_ident(&user, &src.syms, &vec![2], "filter"), "filter_by_email");
}

#[test]
fn unit_enum_labels_default_to_snake_case() {
    let mut src = Source::new();
    let m = src.embed_enum("enum Status { Pending, InProgress, Archived }").unwrap();
    assert_eq!(labels(&mut src, &m), vec!["pending", "in_progress", "archived"]);
    assert_eq!(storage(&m), Some(EnumStorageStrategy::NativeEnum(None)));
}

#[test]
fn enum_rename_all_and_explicit_labels() {
    let mut src = Source::new();
    let m = src
        .embed_enum("#[column(rename_all = \"SCREAMING_SNAKE_CASE\")] enum PartyKind { Customer, PreferredSupplier }")
        .unwrap();
    assert_eq!(labels(&mut src, &m), vec!["CUSTOMER", "PREFERRED_SUPPLIER"]);

    let m = src
        .embed_enum("#[column(rename_all = \"kebab-case\")] enum PartyKind { #[column(variant = \"customer\")] Customer, PreferredSupplier }")
        .unwrap();
    assert_eq!(labels(&mut src, &m), vec!["customer", "preferred-supplier"]);
}

#[test]
fn rename_rules_match_documented_table() {
    let cases = [
        (RenameRule::Lower, "preferredsupplier"),
        (RenameRule::Upper, "PREFERREDSUPPLIER"),
        (RenameRule::Pascal, "PreferredSupplier"),
        (RenameRule::Camel, "preferredSupplier"),
        (RenameRule::Snake, "preferred_supplier"),
        (RenameRule::ScreamingSnake, "PREFERRED_SUPPLIER"),
        (RenameRule::Kebab, "preferred-supplier"),
        (RenameRule::ScreamingKebab, "PREFERRED-SUPPLIER"),
    ];
    for (rule, label) in cases {
        assert_eq!(rule.apply("PreferredSupplier"), label);
    }
}

#[test]
fn integer_enum_storage() {
    let mut src = Source::new();
    let m = src
        .embed_enum("enum Priority { #[column(variant = 10)] Low, #[column(variant = 20)] High }")
        .unwrap();
    assert_eq!(labels(&mut src, &m), vec!["10", "20"]);
    assert_eq!(storage(&m), None);

    let m = src
        .embed_enum("#[column(type = u8)] enum Priority { #[column(variant = 10)] Low, #[column(variant = 20)] High }")
        .unwrap();
    assert_eq!(storage(&m), Some(EnumStorageStrategy::Integer(ColumnType::UnsignedInteger(1))));

    let errs = kinds(src.embed_enum("#[column(type = u8)] enum P { #[column(variant = 300)] Big, #[column(variant = 1)] Small }"));
    assert!(errs.contains(&ErrorKind::DiscriminantOutOfRange { value: 300 }));
}

#[test]
fn plain_string_enum_storage() {
    let mut src = Source::new();
    let m = src.embed_enum("#[column(type = text)] enum Status { Pending, Done }").unwrap();
    assert_eq!(storage(&m), Some(EnumStorageStrategy::PlainString(ColumnType::Text)));
}

#[test]
fn enum_errors() {
    let mut src = Source::new();
    assert!(kinds(src.embed_enum("enum P { #[column(variant = 1)] A, B }")).contains(&ErrorKind::MixedDiscriminants));
    let errs = kinds(src.embed_enum("enum P { #[column(variant = 1)] A, #[column(variant = 1)] B }"));
    assert!(errs.iter().any(|k| matches!(k, ErrorKind::DuplicateDiscriminant { value: VariantValue::Integer(1), .. })));
    assert!(kinds(src.embed_enum("#[column(rename_all = \"lowercase\")] enum P { #[column(variant = 1)] A }"))
        .contains(&ErrorKind::RenameAllOnIntegerEnum));
    let long = "x".repeat(64);
    let errs = kinds(src.embed_enum(&format!("enum P {{ #[column(variant = \"{long}\")] A }}")));
    assert!(errs.iter().any(|k| matches!(k, ErrorKind::LabelTooLong { len: 64, .. })));
    let ok = "y".repeat(63);
    assert!(src.embed_enum(&format!("enum P {{ #[column(variant = \"{ok}\")] A }}")).is_ok());
    assert!(kinds(src.embed_enum("#[column(rename_all = \"Title Case\")] enum P { A }"))
        .iter()
        .any(|k| matches!(k, ErrorKind::UnknownRenameRule { .. })));
    assert!(kinds(src.embed_enum("enum P<T> { A(T) }")).contains(&ErrorKind::EnumGenerics));
}

#[test]
fn variant_value_kinds() {
    let i = VariantValue::Integer(3);
    assert!(i.is_integer());
    assert!(!i.is_string());
    let mut src = Source::new();
    let m = src.embed_enum("enum Status { Pending }").unwrap();
    match &m.kind {
        ModelKind::EmbeddedEnum(e) => {
            assert!(e.variants[0].discriminant.is_string());
            assert!(!e.variants[0].discriminant.is_integer());
            assert!(e.uses_string_discriminants());
        }
        _ => panic!("not an enum"),
    }
}

#[test]
fn embedded_struct() {
    let mut src = Source::new();
    let m = src.embed_struct("struct Address { street: String, city: String }").unwrap();
    assert_eq!(m.fields.len(), 2);
    assert!(matches!(m.kind, ModelKind::EmbeddedStruct(_)));
    assert!(kinds(src.embed_struct("struct Pair(u64, u64);")).contains(&ErrorKind::TupleStructUnsupported));
}

#[test]
fn names_convert_to_snake_case() {
    let n = Name::from_str("UserProfile");
    assert_eq!(n.snake_case, "user_profile");
    assert_eq!(n.parts, vec!["user".to_string(), "profile".to_string()]);
    assert_eq!(Name::from_str("r#type").ident_text(), "r#type");
}

#[test]
fn migration_entries() {
    assert!(is_plain_file_name("0001_init.sql"));
    assert!(is_plain_file_name("0001_init.sql/"));
    assert!(!is_plain_file_name("../0001_init.sql"));
    assert!(!is_plain_file_name("sub/0001_init.sql"));
    assert!(!is_plain_file_name("/abs.sql"));
    assert!(!is_plain_file_name(""));
    let names = |v: &[&str]| v.iter().map(|s| s.to_string()).collect::<Vec<String>>();
    assert_eq!(check_entries(&vec![1, 2], &names(&["a.sql", "b.sql"]), 7), Ok(()));
    assert_eq!(
        check_entries(&vec![1, 1], &names(&["a.sql", "b.sql"]), 7),
        Err(Diag { span: 7, kind: ErrorKind::DuplicateMigrationId { entry: 1 } })
    );
    assert_eq!(
        check_entries(&vec![1, 2], &names(&["a.sql", "a.sql"]), 7),
        Err(Diag { span: 7, kind: ErrorKind::DuplicateMigrationName { entry: 1 } })
    );
    assert_eq!(
        check_entries(&vec![1], &names(&["x/a.sql"]), 7),
        Err(Diag { span: 7, kind: ErrorKind::MigrationNameNotFile { entry: 0 } })
    );
}

#[test]
fn generated_docs() {
    assert_eq!(
        doc_create("User"),
        "Returns a builder that inserts a new `User` record.\n\nTypically constructed through the `toasty::create!` macro."
    );
    assert_eq!(doc_all("User"), "Returns a query that selects every `User` record.");
}

#[test]
fn upsert_builders_for_unique_plain_indices() {
    let mut src = Source::new();
    let m = src
        .model("struct User { #[key] id: u64, #[unique] email: String, #[default(0)] n: u64, #[default(2)] #[update(1)] m: u64, #[update(3)] u: u64, name: String }")
        .unwrap();
    let plans = UpsertPlan::build_model_upserts(&m, &src.syms);
    assert_eq!(plans.len(), 2);
    assert_eq!(plans[0].target, vec![0]);
    assert_eq!(plans[0].method_name, "upsert_by_id");
    assert_eq!(plans[0].builder, "UserUpsertById");
    assert_eq!(plans[0].ignore_builder, "UserUpsertByIdOrIgnore");
    assert_eq!(plans[0].setters, vec![1, 2, 3, 4, 5]);
    assert_eq!(
        plans[0].defaults,
        vec![(2, DefaultAction::CreateOnly), (3, DefaultAction::CreateAndUpdate), (4, DefaultAction::Shared)]
    );
    assert_eq!(plans[0].incoming, vec![0, 1, 2, 3, 4, 5]);
    assert_eq!(plans[1].target, vec![1]);
    assert_eq!(plans[1].method_name, "upsert_by_email");
    assert_eq!(plans[1].setters, vec![0, 2, 3, 4, 5]);
    assert_eq!(
        plans[1].builder_doc,
        "Builds one atomic create-or-update operation for `User` using the `email` conflict target."
    );

    let tenant = src.model(TENANT).unwrap();
    let plans = UpsertPlan::build_model_upserts(&tenant, &src.syms);
    assert_eq!(plans.len(), 1);
    assert_eq!(plans[0].target_name, "account_and_sk");
    assert_eq!(plans[0].method_name, "upsert_by_account_and_sk");
    assert_eq!(plans[0].create_builder, "TenantUpsertByAccountAndSkCreate");
    assert_eq!(upsert_setter_doc(SetterRole::Create, "name"), "Sets `name` only when the record is created.");
}

#[test]
fn field_registration_entries() {
    let mut src = Source::new();
    let m = src
        .model("struct UserRecord { #[key] #[auto] id: u64, #[column(\"user_name\")] fullName: String, #[column(type = text)] bio: String, #[version] v: u64 }")
        .unwrap();
    assert!(check_autos(&m));
    let entries = field_schemas(&m, &src.syms);
    assert_eq!(entries.len(), 4);
    assert_eq!(entries[0].app_name.as_deref(), Some("id"));
    assert!(entries[0].primary_key);
    assert_eq!(entries[0].auto, Some(AutoStrategy::Unspecified));
    assert_eq!(entries[1].app_name.as_deref(), Some("full_name"));
    assert_eq!(src.syms[entries[1].storage_name.unwrap()], "user_name");
    assert!(!entries[1].primary_key);
    assert_eq!(entries[2].storage_ty, Some(ColumnType::Text));
    assert!(entries[3].versionable);

    let loose = src.model("struct Counter { #[key] id: u64, #[auto] n: u64 }").unwrap();
    assert!(!check_autos(&loose));

    let newtype = src.embed_struct("struct UserId(u64);").unwrap();
    let entries = field_schemas(&newtype, &src.syms);
    assert_eq!(entries[0].app_name, None);
}

#[test]
fn compile_checks_of_a_model() {
    let mut src = Source::new();
    let m = src
        .model("struct Item { #[key] #[auto(uuid(v7))] id: Uuid, #[index] #[column(type = text)] name: String, #[unique] code: String, #[version] v: u64, #[auto(increment)] n: u64 }")
        .unwrap();
    let c = CompileChecks::of_model(&m);
    assert_eq!(c.storage, vec![(1, StorageTag::Text)]);
    assert_eq!(c.column_type, vec![0, 2, 3, 4]);
    assert_eq!(c.auto, vec![(0, AutoTag::Uuid), (4, AutoTag::Increment)]);
    assert_eq!(c.version, vec![3]);
    assert_eq!(c.indexable, vec![1, 2]);
    assert_eq!(c.register, vec![Some(RegisterCall::FieldType); 5]);
}

#[test]
fn create_defaults_prefer_default_over_update() {
    let mut src = Source::new();
    let m = src
        .model("struct Post { #[key] id: u64, #[default(0)] a: u64, #[default(1)] #[update(2)] b: u64, #[update(3)] c: u64, d: u64 }")
        .unwrap();
    assert_eq!(
        create_defaults(&m),
        vec![(1, CreateDefault::Default), (2, CreateDefault::Default), (3, CreateDefault::Update)]
    );
}

#[test]
fn list_query_relation_accessors_skip_reserved_names() {
    let mut src = Source::new();
    let m = src
        .model("struct User { #[key] id: u64, #[has_many] todos: HasMany<Todo>, #[has_many] count: HasMany<Todo>, #[has_one] profile: HasOne<Profile>, #[belongs_to(key = org_id, references = id)] org: BelongsTo<Org>, org_id: u64 }")
        .unwrap();
    assert_eq!(
        list_relations(&m, &src.syms),
        vec![(1, ListRelation::Many), (3, ListRelation::One), (4, ListRelation::One)]
    );
    match &m.fields[1].ty {
        FieldTy::HasMany(h) => assert_eq!(h.singular.snake_case, "todo"),
        _ => panic!("todos is a has-many relation"),
    }
}

#[test]
fn create_meta_plan() {
    let mut src = Source::new();
    let m = src
        .model("struct UserAccount { #[key] #[auto] id: u64, name: String, org_id: u64, #[belongs_to(key = org_id, references = id)] org: BelongsTo<Org>, #[has_many] todos: HasMany<Todo>, #[has_many] friends: HasMany<UserAccount>, #[default(0)] n: u64, #[has_one] profile: HasOne<Profile>, #[has_many(pair = owner)] items: HasMany<Item> }")
        .unwrap();
    let plan = CreateMetaPlan::of_model(&m, &src.syms);
    assert_eq!(plan.fields, vec![1]);
    assert_eq!(plan.belongs_to, vec![(3, vec![2])]);
    assert_eq!(
        plan.nested,
        vec![(4, "user_account".to_string()), (7, "user_account".to_string()), (8, "owner".to_string())]
    );
}

#[test]
fn table_attribute() {
    let mut src = Source::new();
    let m = src.model("#[table = \"people\"] struct Person { #[key] id: u64 }").unwrap();
    assert_eq!(m.table_name(&src.syms), "people");
    assert!(src.model("#[table(comment = \"Everyone we know\")] struct Person { #[key] id: u64 }").is_ok());
    assert!(kinds(src.model("#[table(comment = \" \\t \")] struct Person { #[key] id: u64 }")).contains(&ErrorKind::EmptyComment));
    assert!(kinds(src.model("#[table(comment = \"a\\0b\")] struct Person { #[key] id: u64 }")).contains(&ErrorKind::NulInComment));
}

/// The text of generated pieces, field types and attribute expressions
/// written out from the tokens.
fn gen_text(pieces: &[toasty_macros::gen::Gen], m: &Model, syms: &[String]) -> String {
    fn toks(ts: &[Tok], syms: &[String]) -> String {
        let mut s = String::new();
        for t in ts {
            match *t {
                Tok::Ident { sym, .. } => s.push_str(&format!("{} ", syms[sym])),
                Tok::Punct { ch, joint, .. } => {
                    s.push(ch);
                    if !joint {
                        s.push(' ');
                    }
                }
                Tok::Lit { repr, .. } => s.push_str(&format!("{} ", syms[repr])),
                Tok::Open { delim, .. } => s.push_str(match delim {
                    Delim::Paren => "( ",
                    Delim::Bracket => "[ ",
                    Delim::Brace => "{ ",
                }),
                Tok::Close { delim, .. } => s.push_str(match delim {
                    Delim::Paren => " ) ",
                    Delim::Bracket => " ] ",
                    Delim::Brace => " } ",
                }),
            }
        }
        s
    }
    let mut out = String::new();
    for g in pieces {
        match g {
            Gen::Code(s) => out.push_str(s),
            Gen::Text(s) => out.push_str(s),
            Gen::Str(s) => out.push_str(&format!("{:?}", s)),
            Gen::Sym(k) => out.push_str(&syms[*k]),
            Gen::FieldTy(k) => out.push_str(&toks(&m.fields[*k].ty_toks, syms).replace(' ', "")),
            Gen::DefaultExpr(_) => out.push_str("DEFAULT"),
            Gen::UpdateExpr(_) => out.push_str("UPDATE"),
            Gen::Int(n) => out.push_str(&n.to_string()),
            Gen::Num(n) => out.push_str(&n.to_string()),
        }
    }
    out
}

#[test]
fn expanded_root_model() {
    let mut src = Source::new();
    let m = src
        .model("struct User { #[key] #[auto] id: u64, name: String, #[unique] email: String, #[has_many] todos: HasMany<Todo> }")
        .unwrap();
    let pieces = toasty_macros::model_expand::expand_model(&m, &src.syms);
    let text = gen_text(&pieces, &m, &src.syms);
    assert!(text.starts_with("const _: () = { use toasty as _toasty;"));
    assert!(text.ends_with("};"));
    assert!(text.contains("pub struct UserListFields<__Origin> { path: _toasty::codegen_support::Path<__Origin, _toasty::codegen_support::List<User>>, }"));
    assert!(text.contains("pub struct UserQuery<__T = _toasty::codegen_support::List<User>>"));
    assert!(text.contains("pub fn filter_by_email(self, email: impl _toasty::codegen_support::IntoExpr<String>) -> UserQuery { UserQuery::from_stmt("));
    assert!(text.contains(".filter(User::fields().email().eq(email))"));
    assert!(text.contains("pub async fn get_by_id(self, executor: &mut dyn _toasty::codegen_support::Executor, id: impl _toasty::codegen_support::IntoExpr<u64>) -> _toasty::codegen_support::Result<User>"));
    assert!(text.contains("pub fn todos(self) -> _toasty::codegen_support::QueryMany<<HasMany<Todo> as _toasty::codegen_support::RelationManyField>::Target>"));
    assert!(text.contains("pub fn upsert_by_email("));
    assert!(text.contains("pub fn any(self, filter:"));
    assert!(text.contains("pub fn create(&self) -> UserCreate { UserCreate::default() }"));
    assert!(text.contains("impl User { #[doc = \"Returns a handle used to reference `User`'s fields when building query expressions.\"] pub fn fields() -> UserFields<User>"));
    assert!(text.contains("pub async fn get_by_email(executor: &mut dyn _toasty::codegen_support::Executor, email: impl _toasty::codegen_support::IntoExpr<String>) -> _toasty::codegen_support::Result<User> { Self::filter_by_email(email).get(executor).await }"));
    assert!(text.contains("pub fn filter_by_id(id: impl _toasty::codegen_support::IntoExpr<u64>) -> UserQuery { UserQuery::default().filter_by_id(id) }"));
    assert!(text.contains("#[doc = \"Returns a query over the `todos` associated with this `User`.\"] pub fn todos(&self) -> _toasty::codegen_support::QueryMany<"));
    assert!(text.contains("pub fn all() -> UserQuery { UserQuery::default() }"));
    assert!(text.contains("impl _toasty::codegen_support::stmt::IntoExpr<User> for User { fn into_expr(self) -> _toasty::codegen_support::stmt::Expr<User> { let expr: _toasty::codegen_support::stmt::Expr<u64> = _toasty::codegen_support::IntoExpr::into_expr(self.id); expr.cast() } fn by_ref(&self) -> _toasty::codegen_support::stmt::Expr<User> { let expr: _toasty::codegen_support::stmt::Expr<u64> = _toasty::codegen_support::IntoExpr::into_expr((&self.id)); expr.cast() } }"));
    assert!(text.contains("_toasty::codegen_support::IntoStatement::into_statement(UserQuery::default().filter_by_id(& self.id).one())"));
    assert!(text.contains("pub struct UserFields<__Origin> { path: _toasty::codegen_support::Path<__Origin, User>, }"));
    assert!(text.contains("pub fn name(&self) -> <String as _toasty::codegen_support::Field>::Path<__Origin> { <String as _toasty::codegen_support::Field>::new_path(self.path().chain(<User as _toasty::codegen_support::Model>::path_field::<<String as _toasty::codegen_support::Field>::ExprTarget>(1))) }"));
    assert!(text.parse::<TokenStream>().is_ok());
}

#[test]
fn expanded_belongs_to_accessor() {
    let mut src = Source::new();
    let m = src
        .model("struct Member { #[key] id: u64, team_id: u64, #[belongs_to(key = team_id, references = id)] team: BelongsTo<Team> }")
        .unwrap();
    let text = gen_text(&toasty_macros::model_expand::expand_model(&m, &src.syms), &m, &src.syms);
    let tenant = src.model(TENANT).unwrap();
    let t = gen_text(&toasty_macros::model_traits::expand_model_trait_impls(&tenant, &src.syms), &tenant, &src.syms);
    assert!(t.contains("let expr: _toasty::codegen_support::stmt::Expr<( String, String )> = _toasty::codegen_support::IntoExpr::into_expr(( & self.account, & self.sk )); expr.cast()"));
    assert!(t.contains("TenantQuery::default().filter_by_account_and_sk(& self.account, & self.sk).one()"));
    assert!(text.contains("#[doc = \"Returns a query for the `team` record this `Member` belongs to.\"] pub fn team(&self) -> <BelongsTo<Team> as _toasty::codegen_support::RelationOneField>::One { if false { let _ = &self.team; let _ = &self.team_id; } <BelongsTo<Team> as _toasty::codegen_support::RelationOneField>::make_one(<BelongsTo<Team> as _toasty::codegen_support::RelationOneField>::Target::filter(_toasty::codegen_support::Field::key_constraint(&self.team_id, <BelongsTo<Team> as _toasty::codegen_support::RelationOneField>::Target::fields().id().into(),))) }"));
    assert!(text.parse::<TokenStream>().is_ok());
}

#[test]
fn expanded_embedded_struct() {
    let mut src = Source::new();
    let m = src.embed_struct("struct Address { street: String, path: String }").unwrap();
    let pieces = toasty_macros::model_expand::expand_embedded(&m, &src.syms);
    let text = gen_text(&pieces, &m, &src.syms);
    assert!(text.contains("pub struct AddressListFields<__Origin>"));
    assert!(text.contains("pub struct AddressFields<__Origin>"));
    assert!(text.contains("AddressFields::from_path(<Address as _toasty::codegen_support::Embed>::path_root())"));
    assert!(text.contains("pub fn street(&self) -> <String as _toasty::codegen_support::Field>::ListPath<__Origin>"));
    assert!(text.contains("<Address as _toasty::codegen_support::Embed>::path_field(0)"));
    assert!(!text.contains("pub fn path(&self) -> <"));
    assert!(!text.contains("pub fn any("));
    assert!(!text.contains("pub fn create("));
    assert!(text.parse::<TokenStream>().is_ok());
}

#[test]
fn field_list_skips_filter_combinator_for_field_named_filter() {
    let mut src = Source::new();
    let m = src.model("struct Rule { #[key] id: u64, filter: String }").unwrap();
    let text = gen_text(&toasty_macros::field_list::expand_field_list_struct(&m, &src.syms), &m, &src.syms);
    assert!(!text.contains("Restricts the related rows"));
    assert!(text.contains("pub fn filter(&self) -> <String as _toasty::codegen_support::Field>::ListPath<__Origin>"));
    let m = src.model("struct Plain { #[key] id: u64 }").unwrap();
    let text = gen_text(&toasty_macros::field_list::expand_field_list_struct(&m, &src.syms), &m, &src.syms);
    assert!(text.contains("Restricts the related rows"));
}

#[test]
fn registered_fields_nullability_and_create_meta_required() {
    let mut src = Source::new();
    let m = src
        .model("struct User { #[key] #[auto] id: u64, name: String, #[has_many] todos: HasMany<Todo> }")
        .unwrap();
    assert!(toasty_macros::model_gen::check_column_types(&m));
    let text = gen_text(&toasty_macros::model_gen::expand_model_fields(&m, &src.syms), &m, &src.syms);
    assert!(text.starts_with("vec!["));
    assert!(text.contains("nullable: false"));
    assert!(text.contains("primary_key: true"));
    let text = gen_text(&toasty_macros::create_meta::expand_create_meta(&m, &src.syms), &m, &src.syms);
    assert!(text.contains("required: !<String as _toasty::codegen_support::Field>::NULLABLE"));
    assert!(text.contains("model_name: \"User\""));
}

#[test]
fn pluralizable_names() {
    assert!(toasty_macros::case::is_pluralizable("todos"));
    assert!(toasty_macros::case::is_pluralizable("aéus"));
    assert!(!toasty_macros::case::is_pluralizable("Aéus"));
    let mut src = Source::new();
    let def = src.struct_def("struct User { #[key] id: u64, #[has_many] todos: HasMany<Todo> }");
    assert!(def.check_wf(&src.syms));
    let def = src.struct_def("struct User { #[key] id: u64, #[has_many] Aéus: HasMany<Todo> }");
    assert!(!def.check_wf(&src.syms));
}

#[test]
fn registration_nullability_by_field_kind() {
    let mut src = Source::new();
    let m = src
        .model("struct User { #[key] id: u64, #[belongs_to(key = team_id, references = id)] team: BelongsTo<Team>, team_id: u64, #[has_many] todos: HasMany<Todo> }")
        .unwrap();
    let entries = field_schemas(&m, &src.syms);
    assert_eq!(entries[0].nullable, toasty_macros::registration::Nullability::FieldType);
    assert_eq!(entries[1].nullable, toasty_macros::registration::Nullability::OneRelation);
    assert_eq!(entries[3].nullable, toasty_macros::registration::Nullability::Never);
}

#[test]
fn unrelated_attributes_are_skipped() {
    let mut src = Source::new();
    let plain = src.struct_def("struct X { #[key] #[default(5)] id: u64 }");
    let extra = src.struct_def("struct X { #[key] #[doc = \"id\"] #[serde(rename = \"i\")] #[default(5)] id: u64 }");
    let a = FieldAttr::from_attrs(&plain.fields[0].attrs, &src.syms).unwrap();
    let b = FieldAttr::from_attrs(&extra.fields[0].attrs, &src.syms).unwrap();
    assert_eq!(a.default_expr, Some(toasty_macros::schema::field::ExprSrc::Arg(1)));
    assert_eq!(b.default_expr, Some(toasty_macros::schema::field::ExprSrc::Arg(3)));
    assert_eq!((a.key.is_some(), a.unique, a.auto, a.index, a.versionable), (b.key.is_some(), b.unique, b.auto, b.index, b.versionable));
}

#[test]
fn default_takes_one_expression() {
    let mut src = Source::new();
    let def = src.struct_def("struct X { #[default(1, 2)] a: u64, #[default((1, 2))] b: (u64, u64), #[update(f(a, b))] c: u64 }");
    let a = FieldAttr::from_attrs(&def.fields[0].attrs, &src.syms);
    match a {
        Err(es) => assert_eq!(es.iter().map(|d| d.kind).collect::<Vec<_>>(), vec![ErrorKind::Unexpected { delim: None }]),
        Ok(_) => panic!("a second argument is rejected"),
    }
    assert!(FieldAttr::from_attrs(&def.fields[1].attrs, &src.syms).is_ok());
    assert!(FieldAttr::from_attrs(&def.fields[2].attrs, &src.syms).is_ok());
}

#[test]
fn expanded_compile_time_checks() {
    let mut src = Source::new();
    let m = src
        .model("struct Post { #[key] id: u64, #[column(type = text)] body: String, #[unique] slug: String, #[version] v: u64 }")
        .unwrap();
    let text = gen_text(&toasty_macros::checks_gen::expand_checks(&m, true), &m, &src.syms);
    assert_eq!(
        text,
        "const _: () = { fn _check<__T>() where __T: _toasty::codegen_support::storage::CompatibleWith<_toasty::codegen_support::storage::tag::Text>, {} let _ = _check::<String>; }; \
const _: () = { if <u64 as _toasty::codegen_support::Field>::REQUIRES_EXPLICIT_COLUMN_TYPE { panic!(\"`toasty::Json<T>` fields require `#[column(type = ...)]`; use `#[column(type = text)]` for text-backed JSON storage\"); } }; \
const _: () = { if <String as _toasty::codegen_support::Field>::REQUIRES_EXPLICIT_COLUMN_TYPE { panic!(\"`toasty::Json<T>` fields require `#[column(type = ...)]`; use `#[column(type = text)]` for text-backed JSON storage\"); } }; \
const _: () = { if <u64 as _toasty::codegen_support::Field>::REQUIRES_EXPLICIT_COLUMN_TYPE { panic!(\"`toasty::Json<T>` fields require `#[column(type = ...)]`; use `#[column(type = text)]` for text-backed JSON storage\"); } }; \
const _: () = { fn _check<__T>() where __T: _toasty::codegen_support::Version, {} let _ = _check::<u64>; }; \
const _: () = { fn _check<__T>() where __T: _toasty::codegen_support::index::IndexableField, {} let _ = _check::<String>; }; "
    );
    let embedded = toasty_macros::checks_gen::expand_checks(&m, false);
    assert!(!gen_text(&embedded, &m, &src.syms).contains("Version"));
}

#[test]
fn derive_entry_points_expand_valid_definitions() {
    let mut src = Source::new();
    let def = src.struct_def("struct User { #[key] id: u64, name: String }");
    let (m, pieces) = toasty_macros::derive_model_expanded(&def, &src.syms).unwrap();
    let text = gen_text(&pieces.unwrap(), &m, &src.syms);
    assert!(text.contains("impl User { "));
    assert!(text.parse::<TokenStream>().is_ok());
    let def = src.struct_def("struct User { name: String }");
    assert!(toasty_macros::derive_model_expanded(&def, &src.syms).is_err());

    let def = src.enum_def("enum Status { Active, Done }");
    let (m, pieces) = toasty_macros::derive_embed_expanded(&EmbedItem::Enum(def), &src.syms).unwrap();
    let text = gen_text(&pieces.unwrap(), &m, &src.syms);
    assert!(text.contains("pub struct StatusListFields<__Origin>"));
    assert!(!text.contains("pub struct StatusFields<__Origin>"));
    assert!(text.contains("impl _toasty::codegen_support::index::IndexableField for Status {} impl _toasty::codegen_support::Scalar for Status {} "));
    assert!(text.contains("impl _toasty::codegen_support::Field for Status { type ExprTarget = Self;"));
    assert!(text.contains("type Update<'a> = ();"));
    assert!(text.parse::<TokenStream>().is_ok());
}

#[test]
fn generated_code_is_valid_rust_items() {
    let mut src = Source::new();
    let m = src
        .model("struct User { #[key] #[auto] id: u64, name: String, #[unique] email: String, #[default(0)] #[update(1)] n: u64, team_id: u64, #[belongs_to(key = team_id, references = id)] team: BelongsTo<Team>, #[has_many] todos: HasMany<Todo> }")
        .unwrap();
    let text = gen_text(&toasty_macros::model_expand::expand_model(&m, &src.syms), &m, &src.syms);
    let file: syn::File = syn::parse_str(&text).unwrap();
    assert_eq!(file.items.len(), 1);
    let tenant = src.model(TENANT).unwrap();
    let text = gen_text(&toasty_macros::model_expand::expand_model(&tenant, &src.syms), &tenant, &src.syms);
    assert!(syn::parse_str::<syn::File>(&text).is_ok());
    let e = src.embed_struct("struct Address { street: String, city: String }").unwrap();
    let text = gen_text(&toasty_macros::model_expand::expand_embedded(&e, &src.syms), &e, &src.syms);
    assert!(syn::parse_str::<syn::File>(&text).is_ok());
}

#[test]
fn expanded_model_core() {
    let mut src = Source::new();
    let m = src
        .model("struct TodoItem { #[key] #[auto] id: u64, title: String, #[default(0)] n: u64, #[version] v: u64 }")
        .unwrap();
    let text = gen_text(&toasty_macros::model_core::expand_model_core(&m, &src.syms), &m, &src.syms);
    assert!(text.contains("impl _toasty::codegen_support::Model for TodoItem { type Query<T> = TodoItemQuery<T>; type Create = TodoItemCreate;"));
    assert!(text.contains("type PrimaryKey = u64;"));
    assert!(text.contains("const CREATE_META: _toasty::codegen_support::CreateMeta = _toasty::codegen_support::CreateMeta { fields: &["));
    assert!(text.contains("model_name: \"TodoItem\" }; fn id()"));
    assert!(text.contains("fn find_by_primary_key(id: _toasty::codegen_support::stmt::Expr<Self::PrimaryKey>,) -> Self::Query<_toasty::codegen_support::List<Self>> { Self::filter_by_id(id) }"));
    assert!(text.contains("table_name: \"todo_items\".to_string()"));
    assert!(text.contains("name: _toasty::codegen_support::core::schema::Name { parts: vec![\"todo\".to_string(), \"item\".to_string(), ], }"));
    assert!(text.contains("version_field: Some(_toasty::codegen_support::core::schema::app::FieldId { model: id, index: 3, })"));
    assert!(text.contains("\"title\" => _toasty::codegen_support::core::schema::app::FieldId { model: Self::id(), index: 1 }, "));
    assert!(text.contains("title: <String as _toasty::codegen_support::Load>::load(record[1].take())?, "));
    assert!(text.contains("<String as _toasty::codegen_support::Field>::register(model_set); "));
    assert!(text.contains("pub fn title(mut self, title: impl IntoExpr<FieldExprTarget<String>>) -> Self { self.stmt.set(1, title.into_expr()); self } "));
    assert!(text.contains("s.stmt.set(2, <u64 as _toasty::codegen_support::IntoExpr<<u64 as _toasty::codegen_support::Field>::ExprTarget>>::into_expr(DEFAULT)); "));
    assert!(text.contains("let __delete = TodoItemQuery::default().filter_by_id(& self.id).delete(); __delete.set_condition("));
    assert!(text.contains("_toasty::codegen_support::inventory::submit!"));
    assert!(syn::parse_str::<syn::File>(&text).is_ok());
}

#[test]
fn item_collection_child_has_no_top_level_create_or_owned_setters() {
    let mut src = Source::new();
    let m = src
        .model("#[key(account, sk)] struct User { account: String, sk: String, name: String, #[item_parent] tenant: Deferred<Tenant> }")
        .unwrap();
    let text = gen_text(&toasty_macros::model_expand::expand_model(&m, &src.syms), &m, &src.syms);
    assert!(!text.contains("pub fn create() -> UserCreate"));
    let start = text.find("pub struct UserCreate").unwrap();
    let end = text.find("impl _toasty::codegen_support::IntoInsert for UserCreate").unwrap();
    let builder = &text[start..end];
    assert!(builder.contains("pub fn name(mut self, name: impl IntoExpr<FieldExprTarget<String>>) -> Self"));
    assert!(!builder.contains("pub fn account(mut self"));
    assert!(!builder.contains("pub fn sk(mut self"));
    assert!(!builder.contains("pub fn tenant(mut self"));
    let tenant = src.model(TENANT).unwrap();
    let text = gen_text(&toasty_macros::model_expand::expand_model(&tenant, &src.syms), &tenant, &src.syms);
    assert!(text.contains("pub fn create() -> TenantCreate { TenantCreate::default() } "));
    assert!(text.contains("pub fn account(mut self, account: impl IntoExpr<FieldExprTarget<String>>) -> Self"));
    assert!(text.contains("type PrimaryKey = ( String, String );"));
    assert!(text.contains("let pk_expr: _toasty::codegen_support::stmt::Expr<Self::PrimaryKey> = _toasty::codegen_support::IntoExpr::into_expr(( Tenant::fields().account(), Tenant::fields().sk() )); Self::filter(pk_expr.eq(id))"));
}

#[test]
fn expanded_embedded_struct_impls() {
    let mut src = Source::new();
    let e = src.embed_struct("struct Address { street: String, city: String }").unwrap();
    let text = gen_text(&toasty_macros::model_expand::expand_embedded(&e, &src.syms), &e, &src.syms);
    assert!(text.contains("impl _toasty::codegen_support::Embed for Address {"));
    assert!(text.contains("_toasty::codegen_support::core::schema::app::Model::EmbeddedStruct(_toasty::codegen_support::core::schema::app::EmbeddedStruct { id, name: "));
    assert!(text.contains("Ok(Address { street: <String as _toasty::codegen_support::Load>::load(record[0].take())?, city: <String as _toasty::codegen_support::Load>::load(record[1].take())?, })"));
    assert!(text.contains("0 => <String as _toasty::codegen_support::Load>::reload(&mut target.street, value)?, "));
    assert!(text.contains("type Update<'a> = AddressUpdate<'a>;"));
    assert!(text.contains("impl _toasty::codegen_support::Document for Address {}"));
    assert!(text.contains("_toasty::codegen_support::into_untyped_expr::<FieldExprTarget<String>, _>(self.street), _toasty::codegen_support::into_untyped_expr::<FieldExprTarget<String>, _>(self.city)"));
    assert!(!text.contains("NewtypeOf"));
    assert!(syn::parse_str::<syn::File>(&text).is_ok());

    let n = src.embed_struct("struct UserId(u64);").unwrap();
    let text = gen_text(&toasty_macros::model_expand::expand_embedded(&n, &src.syms), &n, &src.syms);
    assert!(text.contains("impl _toasty::codegen_support::newtype::NewtypeOf for UserId { type Inner = u64; fn into_inner(self) -> u64 { self.0 } fn from_inner(inner: u64) -> Self { Self(inner) } }"));
    assert!(text.contains("Ok(UserId( <u64 as _toasty::codegen_support::Load>::load(record[0].take())?, ))"));
    assert!(text.contains("(&self.0)"));
    assert!(text.parse::<TokenStream>().is_ok());
}

#[test]
fn derive_model_expanded_reports_unregistrable_models() {
    let mut src = Source::new();
    let def = src.struct_def("struct Counter { #[key] id: u64, #[auto] n: u64 }");
    let (m, pieces) = toasty_macros::derive_model_expanded(&def, &src.syms).unwrap();
    assert!(pieces.is_none());
    assert!(!toasty_macros::model_expand::check_core_expandable(&m));
    let def = src.struct_def("#[table = \"people\"] struct Person { #[key] id: u64 }");
    let (m, pieces) = toasty_macros::derive_model_expanded(&def, &src.syms).unwrap();
    let text = gen_text(&pieces.unwrap(), &m, &src.syms);
    assert!(text.contains("table_name: \"people\".to_string()"));
}
