use inherit_config::ConfigField;
use inherit_config::InheritAble;

#[derive(Debug, Clone, PartialEq)]
struct Plain(u32);

impl InheritAble for Plain {}

#[test]
fn test_config_field_get() {
    let field_set = ConfigField::Value(42);
    assert_eq!(field_set.get(), Some(&42));

    let field_inherit: ConfigField<i32> = ConfigField::Inherit;
    assert_eq!(field_inherit.get(), None);

    let field_unset: ConfigField<i32> = ConfigField::Unset;
    assert_eq!(field_unset.get(), None);
}

#[test]
fn test_config_field_default() {
    let default_field: ConfigField<i32> = ConfigField::default();
    assert_eq!(default_field, ConfigField::Inherit);
}

#[test]
fn test_config_field_inherit() {
    let parent_set = ConfigField::Value(100);
    let parent_unset = ConfigField::Unset;
    let parent_inherit: ConfigField<i32> = ConfigField::Inherit;

    let child_inherit: ConfigField<i32> = ConfigField::Inherit;
    let child_set = ConfigField::Value(200);
    let child_unset = ConfigField::Unset;

    // A child with no opinion takes what the parent holds.
    assert_eq!(child_inherit.inherit(&parent_set), parent_set);
    assert_eq!(child_inherit.inherit(&parent_unset), parent_unset);
    assert_eq!(child_inherit.inherit(&parent_inherit), parent_inherit);

    // A child with a value keeps it.
    assert_eq!(child_set.inherit(&parent_set), child_set);
    assert_eq!(child_set.inherit(&parent_unset), child_set);
    assert_eq!(child_set.inherit(&parent_inherit), child_set);

    // A cleared child stays cleared.
    assert_eq!(child_unset.inherit(&parent_set), child_unset);
    assert_eq!(child_unset.inherit(&parent_unset), child_unset);
    assert_eq!(child_unset.inherit(&parent_inherit), child_unset);
}

#[test]
fn test_option_inherit() {
    let parent_some = Some(100);
    let parent_none: Option<i32> = None;

    let child_some = Some(200);
    let child_none: Option<i32> = None;

    // An absent child takes what the parent holds.
    assert_eq!(child_none.inherit(&parent_some), parent_some);
    assert_eq!(child_none.inherit(&parent_none), parent_none);

    // A present child keeps its value.
    assert_eq!(child_some.inherit(&parent_some), child_some);
    assert_eq!(child_some.inherit(&parent_none), child_some);
}

#[test]
fn value_wins_over_any_parent() {
    let child = ConfigField::Value(String::from("mine"));
    for parent in [
        ConfigField::Inherit,
        ConfigField::Unset,
        ConfigField::Value(String::from("theirs")),
    ] {
        assert_eq!(child.inherit(&parent), ConfigField::Value(String::from("mine")));
    }
}

#[test]
fn unset_is_not_resolved_from_any_parent() {
    let child: ConfigField<u8> = ConfigField::Unset;
    for parent in [ConfigField::Inherit, ConfigField::Unset, ConfigField::Value(1)] {
        assert_eq!(child.inherit(&parent), ConfigField::Unset);
    }
}

#[test]
fn inherit_resolves_to_the_parent() {
    let child: ConfigField<u8> = ConfigField::Inherit;
    for parent in [ConfigField::Inherit, ConfigField::Unset, ConfigField::Value(9)] {
        assert_eq!(child.inherit(&parent), parent);
    }
}

#[test]
fn merging_a_field_over_itself_changes_nothing() {
    for field in [ConfigField::Inherit, ConfigField::Unset, ConfigField::Value(5)] {
        assert_eq!(field.inherit(&field), field);
    }
    for value in [None, Some(5)] {
        assert_eq!(value.inherit(&value), value);
    }
}

#[test]
fn chain_resolves_one_parent_at_a_time() {
    let variants = [ConfigField::Inherit, ConfigField::Unset, ConfigField::Value(1)];
    let others = [ConfigField::Inherit, ConfigField::Unset, ConfigField::Value(2)];
    let roots = [ConfigField::Inherit, ConfigField::Unset, ConfigField::Value(3)];
    for leaf in &variants {
        for mid in &others {
            for root in &roots {
                let stepwise = leaf.inherit(mid).inherit(root);
                let resolved = leaf.inherit(&mid.inherit(root));
                assert_eq!(stepwise, resolved);
                if *leaf != ConfigField::Inherit {
                    assert_eq!(stepwise, *leaf);
                }
            }
        }
    }
}

#[test]
fn merge_is_not_commutative() {
    let a = ConfigField::Value(1);
    let b = ConfigField::Value(2);
    assert_eq!(a.inherit(&b), ConfigField::Value(1));
    assert_eq!(b.inherit(&a), ConfigField::Value(2));
}

#[test]
fn equality_is_by_variant_and_payload() {
    let inherit: ConfigField<i32> = ConfigField::Inherit;
    let unset: ConfigField<i32> = ConfigField::Unset;
    assert_ne!(inherit, unset);
    assert_ne!(unset, ConfigField::Value(0));
    assert_ne!(inherit, ConfigField::Value(0));
    assert_ne!(ConfigField::Value(1), ConfigField::Value(2));
    assert_eq!(ConfigField::Value(1), ConfigField::Value(1));
    assert_eq!(unset, ConfigField::Unset);
}

#[test]
fn clone_keeps_variant_and_payload() {
    let field = ConfigField::Value(vec![1, 2, 3]);
    assert_eq!(field.clone(), field);
    let unset: ConfigField<Vec<i32>> = ConfigField::Unset;
    assert_eq!(unset.clone(), ConfigField::Unset);
    let inherit: ConfigField<Vec<i32>> = ConfigField::Inherit;
    assert_eq!(inherit.clone(), ConfigField::Inherit);
}

#[test]
fn get_borrows_the_payload() {
    let field = ConfigField::Value(String::from("text"));
    assert_eq!(field.get().map(|s| s.len()), Some(4));
}

#[test]
fn a_type_without_its_own_merge_keeps_itself() {
    let mine = Plain(1);
    let theirs = Plain(2);
    assert_eq!(mine.inherit(&theirs), Plain(1));
    assert_eq!(theirs.inherit(&mine), Plain(2));
}
