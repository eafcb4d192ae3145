use gearsx::structure::data::{
    VType, VTypeBoolean, VTypeBooleanContainer, VTypeContainer, VTypeInteger,
    VTypeIntegerContainer, VTypeString, VTypeStringContainer, VTypeVariableDefinition,
};

#[test]
fn test_vtype_string() {
    let vtype = VTypeString { default: Some((&"thing").to_string()) };

    let vval = vtype.new_instance();
    assert_eq!(vval.value, "thing");
}

#[test]
fn test_vtype_boolean() {
    let vtype = VTypeBoolean { default: Some(true) };

    let vval = vtype.new_instance();
    assert_eq!(vval.value, true);
}

#[test]
fn test_vtype_integer() {
    let vtype = VTypeInteger { default: Some(200), min: Some(0), max: Some(500) };

    let vval = vtype.new_instance();
    assert_eq!(vval.value, 200);
}

#[test]
fn instances_without_a_default_hold_the_neutral_value() {
    assert_eq!(VTypeString { default: None }.new_instance().value, "");
    assert_eq!(VTypeBoolean { default: None }.new_instance().value, false);
    assert_eq!(VTypeInteger { default: None, min: None, max: None }.new_instance().value, 0);
}

#[test]
fn integer_defaults_are_checked_against_their_bounds() {
    let inside = VTypeInteger { default: Some(200), min: Some(0), max: Some(500) };
    assert!(inside.is_consistent());
    let on_the_bounds = VTypeInteger { default: Some(5), min: Some(5), max: Some(5) };
    assert!(on_the_bounds.is_consistent());
    let below = VTypeInteger { default: Some(-1), min: Some(0), max: None };
    assert!(!below.is_consistent());
    let above = VTypeInteger { default: Some(501), min: None, max: Some(500) };
    assert!(!above.is_consistent());
    // No default counts as zero.
    assert!(!VTypeInteger { default: None, min: Some(1), max: None }.is_consistent());
    assert!(VTypeInteger { default: None, min: None, max: None }.is_consistent());
    assert!(VTypeString { default: None }.is_consistent());
    assert!(VTypeBoolean { default: Some(true) }.is_consistent());
}

#[test]
fn a_variable_type_of_any_kind_is_instantiated() {
    let text = VType::VTypeString(VTypeString { default: Some("thing".to_string()) });
    assert_eq!(
        text.new_instance(),
        VTypeContainer::VTypeStringContainer(VTypeStringContainer { value: "thing".to_string() })
    );
    let flag = VType::VTypeBoolean(VTypeBoolean { default: None });
    assert_eq!(
        flag.new_instance(),
        VTypeContainer::VTypeBooleanContainer(VTypeBooleanContainer { value: false })
    );
    let count = VType::VTypeInteger(VTypeInteger { default: Some(7), min: Some(8), max: None });
    assert_eq!(
        count.new_instance(),
        VTypeContainer::VTypeIntegerContainer(VTypeIntegerContainer { value: 7 })
    );
    assert!(text.is_consistent());
    assert!(flag.is_consistent());
    assert!(!count.is_consistent());
}
