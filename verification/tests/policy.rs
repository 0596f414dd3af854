use inherit_config::policy::apply_meta_items;
use inherit_config::policy::parse_field_config;
use inherit_config::policy::Attribute;
use inherit_config::policy::FieldConfig;
use inherit_config::policy::MetaItem;
use inherit_config::policy::PolicyError;

fn config(args: &str) -> Attribute {
    Attribute::parse("config", Some(args))
}

fn path(name: &str) -> MetaItem {
    MetaItem::Path { path: name.to_string() }
}

fn name_value(name: &str, value: &str) -> MetaItem {
    MetaItem::NameValue { path: name.to_string(), value: value.to_string() }
}

#[test]
fn no_annotations_give_the_plain_policy() {
    assert_eq!(parse_field_config(&vec![]), Ok(FieldConfig { default: None, skip_inherit: false }));
    assert_eq!(FieldConfig::<String>::default(), FieldConfig { default: None, skip_inherit: false });
}

#[test]
fn argument_list_is_read_entry_by_entry() {
    let attr = config("default = 7, skip_inherit, any(a, b)");
    assert_eq!(attr.path, "config");
    assert_eq!(
        attr.items,
        Ok(vec![
            name_value("default", "7"),
            path("skip_inherit"),
            MetaItem::List { text: "any (a , b)".to_string() },
        ])
    );
}

#[test]
fn empty_argument_list_has_no_entries() {
    assert_eq!(config("").items, Ok(vec![]));
    assert_eq!(
        parse_field_config(&vec![config("")]),
        Ok(FieldConfig { default: None, skip_inherit: false })
    );
}

#[test]
fn trailing_comma_is_accepted() {
    assert_eq!(config("skip_inherit,").items, Ok(vec![path("skip_inherit")]));
}

#[test]
fn default_expression_is_kept() {
    assert_eq!(
        parse_field_config(&vec![config("default = 7")]),
        Ok(FieldConfig { default: Some("7".to_string()), skip_inherit: false })
    );
    assert_eq!(
        parse_field_config(&vec![config("default = \"text\"")]),
        Ok(FieldConfig { default: Some("\"text\"".to_string()), skip_inherit: false })
    );
}

#[test]
fn default_expression_may_be_any_expression() {
    let parsed = parse_field_config(&vec![config("default = ConfigField::Value(1 + 2)")]);
    let expr = parsed.unwrap().default.unwrap();
    let squeezed: String = expr.chars().filter(|c| !c.is_whitespace()).collect();
    assert_eq!(squeezed, "ConfigField::Value(1+2)");
}

#[test]
fn skip_inherit_sets_the_flag() {
    assert_eq!(
        parse_field_config(&vec![config("skip_inherit")]),
        Ok(FieldConfig { default: None, skip_inherit: true })
    );
}

#[test]
fn both_directives_in_one_annotation() {
    assert_eq!(
        parse_field_config(&vec![config("skip_inherit, default = 1")]),
        Ok(FieldConfig { default: Some("1".to_string()), skip_inherit: true })
    );
}

#[test]
fn directives_spread_over_annotations() {
    assert_eq!(
        parse_field_config(&vec![config("default = 1"), config("skip_inherit")]),
        Ok(FieldConfig { default: Some("1".to_string()), skip_inherit: true })
    );
}

#[test]
fn skip_inherit_may_be_repeated() {
    assert_eq!(
        parse_field_config(&vec![config("skip_inherit, skip_inherit")]),
        Ok(FieldConfig { default: None, skip_inherit: true })
    );
}

#[test]
fn other_annotations_are_passed_over() {
    let attrs = vec![
        Attribute::parse("doc", None),
        Attribute::parse("serde", Some("rename = \"x\"")),
        config("default = 3"),
        Attribute::parse("allow", Some("dead_code")),
    ];
    assert_eq!(
        parse_field_config(&attrs),
        Ok(FieldConfig { default: Some("3".to_string()), skip_inherit: false })
    );
}

#[test]
fn duplicate_default_in_one_annotation_is_refused() {
    assert_eq!(
        parse_field_config(&vec![config("default = 1, default = 2")]),
        Err(PolicyError::DuplicateDefault { annotation: "default = 2".to_string() })
    );
}

#[test]
fn duplicate_default_over_two_annotations_is_refused() {
    assert_eq!(
        parse_field_config(&vec![config("default = 1"), config("skip_inherit, default = 1")]),
        Err(PolicyError::DuplicateDefault { annotation: "default = 1".to_string() })
    );
}

#[test]
fn unknown_word_is_refused() {
    assert_eq!(
        parse_field_config(&vec![config("skip")]),
        Err(PolicyError::Unrecognized { annotation: "skip".to_string() })
    );
}

#[test]
fn unknown_assignment_is_refused() {
    assert_eq!(
        parse_field_config(&vec![config("fallback = 1")]),
        Err(PolicyError::Unrecognized { annotation: "fallback = 1".to_string() })
    );
}

#[test]
fn skip_inherit_with_a_value_is_refused() {
    assert_eq!(
        parse_field_config(&vec![config("skip_inherit = true")]),
        Err(PolicyError::Unrecognized { annotation: "skip_inherit = true".to_string() })
    );
}

#[test]
fn default_without_a_value_is_refused() {
    assert_eq!(
        parse_field_config(&vec![config("default")]),
        Err(PolicyError::Unrecognized { annotation: "default".to_string() })
    );
}

#[test]
fn nested_list_is_refused() {
    assert_eq!(
        parse_field_config(&vec![config("default(1)")]),
        Err(PolicyError::Unrecognized { annotation: "default (1)".to_string() })
    );
}

#[test]
fn first_offence_is_reported() {
    assert_eq!(
        parse_field_config(&vec![config("bogus, default = 1, default = 2")]),
        Err(PolicyError::Unrecognized { annotation: "bogus".to_string() })
    );
    assert_eq!(
        parse_field_config(&vec![config("default = 1, default = 2, bogus")]),
        Err(PolicyError::DuplicateDefault { annotation: "default = 2".to_string() })
    );
    assert_eq!(
        parse_field_config(&vec![config("default = 1, default = 2"), Attribute::parse("config", None)]),
        Err(PolicyError::DuplicateDefault { annotation: "default = 2".to_string() })
    );
}

#[test]
fn annotation_without_arguments_is_malformed() {
    let attr = Attribute::parse("config", None);
    assert_eq!(attr.items, Err("expected attribute arguments in parentheses".to_string()));
    assert_eq!(
        parse_field_config(&vec![attr]),
        Err(PolicyError::Malformed {
            reason: "expected attribute arguments in parentheses".to_string()
        })
    );
}

#[test]
fn argument_list_that_does_not_parse_is_malformed() {
    let attr = config("default = ");
    assert!(attr.items.is_err());
    assert!(matches!(parse_field_config(&vec![attr]), Err(PolicyError::Malformed { .. })));
    assert!(config("= 3").items.is_err());
    assert!(config("a b").items.is_err());
    assert!(config("\"unterminated").items.is_err());
}

#[test]
fn malformed_annotation_elsewhere_is_passed_over() {
    let attrs = vec![Attribute::parse("other", Some("= =")), config("skip_inherit")];
    assert!(attrs[0].items.is_err());
    assert_eq!(
        parse_field_config(&attrs),
        Ok(FieldConfig { default: None, skip_inherit: true })
    );
}

#[test]
fn entries_apply_to_the_policy_read_so_far() {
    let start = FieldConfig { default: Some("1".to_string()), skip_inherit: false };
    assert_eq!(
        apply_meta_items(start.clone(), &vec![path("skip_inherit")]),
        Ok(FieldConfig { default: Some("1".to_string()), skip_inherit: true })
    );
    assert_eq!(
        apply_meta_items(start.clone(), &vec![name_value("default", "2")]),
        Err(PolicyError::DuplicateDefault { annotation: "default = 2".to_string() })
    );
    assert_eq!(apply_meta_items(start.clone(), &vec![]), Ok(start));
}

#[test]
fn path_of_several_segments_is_not_a_directive() {
    assert_eq!(
        apply_meta_items(FieldConfig::default(), &vec![path("config :: skip_inherit")]),
        Err(PolicyError::Unrecognized { annotation: "config :: skip_inherit".to_string() })
    );
    assert!(matches!(
        parse_field_config(&vec![config("a::skip_inherit")]),
        Err(PolicyError::Unrecognized { .. })
    ));
}

#[test]
fn entry_text_is_its_source() {
    assert_eq!(path("skip_inherit").text(), "skip_inherit");
    assert_eq!(name_value("default", "7").text(), "default = 7");
    assert_eq!(MetaItem::List { text: "any (a)".to_string() }.text(), "any (a)");
}

#[test]
fn policy_error_messages() {
    assert_eq!(
        PolicyError::DuplicateDefault { annotation: "default = 2".to_string() }.message(),
        "duplicate `default` attribute: `default = 2`"
    );
    assert_eq!(
        PolicyError::Unrecognized { annotation: "bogus".to_string() }.message(),
        "unrecognized config attribute: `bogus`"
    );
    assert_eq!(
        PolicyError::Malformed { reason: "no list".to_string() }.message(),
        "malformed config attribute: no list"
    );
}
