use inherit_config::config_derive;
use inherit_config::derive::DeriveError;
use inherit_config::derive::Field;
use inherit_config::derive::RecordShape;
use inherit_config::derive::Schema;
use inherit_config::policy::Attribute;
use inherit_config::policy::PolicyError;
use quote::ToTokens;
use syn::Data;
use syn::DataStruct;
use syn::DeriveInput;
use syn::Fields;
use syn::Meta;

fn attribute_of(attr: &syn::Attribute) -> Attribute {
    let path = attr.path().to_token_stream().to_string();
    match &attr.meta {
        Meta::List(list) => Attribute::parse(&path, Some(&list.tokens.to_string())),
        _ => Attribute::parse(&path, None),
    }
}

fn field_of(field: &syn::Field) -> Field {
    Field {
        ident: field.ident.as_ref().map(|ident| ident.to_string()).unwrap_or_default(),
        ty: field.ty.to_token_stream().to_string(),
        attrs: field.attrs.iter().map(attribute_of).collect(),
    }
}

fn schema_of(source: &str) -> Schema {
    let ast: DeriveInput = syn::parse_str(source).unwrap();
    let (shape, fields) = match &ast.data {
        Data::Struct(DataStruct { fields: Fields::Named(fields), .. }) => {
            (RecordShape::NamedFields, fields.named.iter().map(field_of).collect())
        }
        Data::Struct(DataStruct { fields: Fields::Unnamed(_), .. }) => {
            (RecordShape::PositionalFields, Vec::new())
        }
        Data::Struct(DataStruct { fields: Fields::Unit, .. }) => {
            (RecordShape::NoFields, Vec::new())
        }
        _ => (RecordShape::NotAStruct, Vec::new()),
    };
    Schema { name: ast.ident.to_string(), shape, fields }
}

fn squeezed(text: &str) -> String {
    text.chars().filter(|c| !c.is_whitespace()).collect()
}

#[test]
fn struct_with_annotated_fields() {
    let schema = schema_of(
        "struct Layer {
            /// The level.
            #[config(default = 7)]
            level: u32,
            name: ConfigField<String>,
            #[serde(skip)]
            #[config(skip_inherit)]
            id: u64,
        }",
    );
    let text = config_derive(&schema).unwrap();
    assert_eq!(
        squeezed(&text),
        squeezed(
            "impl ::core::default::Default for Layer { fn default() -> Self { Self {
                level: 7,
                name: <ConfigField<String> as ::core::default::Default>::default(),
                id: <u64 as ::core::default::Default>::default()
            } } }
            impl ::inherit_config::InheritAble for Layer {
                fn inherit(&self, other: &Self) -> Self { Self {
                    level: ::inherit_config::InheritAble::inherit(&self.level, &other.level),
                    name: ::inherit_config::InheritAble::inherit(&self.name, &other.name),
                    id: self.id.clone()
                } }
            }"
        )
    );
    let file = syn::parse_file(&text).unwrap();
    assert_eq!(file.items.len(), 2);
}

#[test]
fn struct_with_two_defaults_on_one_field() {
    let schema = schema_of(
        "struct Layer {
            a: u8,
            #[config(default = 1)]
            #[config(default = 2)]
            b: u8,
        }",
    );
    assert_eq!(
        config_derive(&schema),
        Err(DeriveError::Policy {
            field: "b".to_string(),
            error: PolicyError::DuplicateDefault { annotation: "default = 2".to_string() },
        })
    );
}

#[test]
fn struct_with_an_unknown_annotation() {
    let schema = schema_of("struct Layer { #[config(skip_inherit, rename = \"x\")] a: u8 }");
    assert_eq!(
        config_derive(&schema),
        Err(DeriveError::Policy {
            field: "a".to_string(),
            error: PolicyError::Unrecognized { annotation: "rename = \"x\"".to_string() },
        })
    );
}

#[test]
fn struct_with_a_bare_config_annotation() {
    let schema = schema_of("struct Layer { #[config] a: u8 }");
    assert!(matches!(
        config_derive(&schema),
        Err(DeriveError::Policy { error: PolicyError::Malformed { .. }, .. })
    ));
    let schema = schema_of("struct Layer { #[config = \"x\"] a: u8 }");
    assert!(matches!(
        config_derive(&schema),
        Err(DeriveError::Policy { error: PolicyError::Malformed { .. }, .. })
    ));
}

#[test]
fn tuple_struct_is_refused() {
    let schema = schema_of("struct Pair(u8, #[config(default = 1, default = 2)] u8);");
    assert_eq!(config_derive(&schema), Err(DeriveError::Shape { record: "Pair".to_string() }));
}

#[test]
fn unit_struct_enum_and_union_are_refused() {
    for (source, name) in [
        ("struct Nothing;", "Nothing"),
        ("enum Choice { A, B }", "Choice"),
        ("union Bits { a: u8, b: i8 }", "Bits"),
    ] {
        assert_eq!(
            config_derive(&schema_of(source)),
            Err(DeriveError::Shape { record: name.to_string() })
        );
    }
}

#[test]
fn struct_without_fields_is_accepted() {
    assert!(config_derive(&schema_of("struct Empty {}")).is_ok());
}
