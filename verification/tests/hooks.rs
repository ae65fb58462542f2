use leptonic::aria::AriaExpanded;
use leptonic::aria::AriaHasPopup;
use leptonic::hooks::AttributeValue;
use leptonic::hooks::InitialButtonProps;
use leptonic::hooks::bool_attr_text;
use leptonic::hooks::use_button;

fn text_of(a: &AttributeValue) -> &str {
    match a {
        AttributeValue::Text(t) => t.as_str(),
        other => panic!("expected a text attribute, got {:?}", other),
    }
}

#[test]
fn disabled_control_has_no_tabindex_and_true_aria_disabled() {
    let r = use_button(InitialButtonProps {
        disabled: true,
        aria_haspopup: AriaHasPopup::default(),
        aria_expanded: AriaExpanded::default(),
    });
    assert!(matches!(r.props.tabindex, AttributeValue::Absent));
    assert_eq!(text_of(&r.props.aria_disabled), "true");
    assert!(matches!(r.props.disabled, AttributeValue::Flag(true)));
    assert_eq!(text_of(&r.props.role), "button");
}

#[test]
fn enabled_control_has_tabindex_zero_and_false_aria_disabled() {
    let r = use_button(InitialButtonProps {
        disabled: false,
        aria_haspopup: AriaHasPopup::default(),
        aria_expanded: AriaExpanded::default(),
    });
    assert_eq!(text_of(&r.props.tabindex), "0");
    assert_eq!(text_of(&r.props.aria_disabled), "false");
    assert!(matches!(r.props.disabled, AttributeValue::Flag(false)));
}

#[test]
fn toggling_disabled_swaps_both_attributes_on_recomposition() {
    let enabled = use_button(InitialButtonProps {
        disabled: false,
        aria_haspopup: AriaHasPopup::default(),
        aria_expanded: AriaExpanded::default(),
    });
    let disabled = use_button(InitialButtonProps {
        disabled: true,
        aria_haspopup: AriaHasPopup::default(),
        aria_expanded: AriaExpanded::default(),
    });
    assert_eq!(text_of(&enabled.props.tabindex), "0");
    assert!(matches!(disabled.props.tabindex, AttributeValue::Absent));
    assert_eq!(text_of(&enabled.props.aria_disabled), "false");
    assert_eq!(text_of(&disabled.props.aria_disabled), "true");
}

#[test]
fn aria_values_pass_through_as_their_text() {
    let r = use_button(InitialButtonProps {
        disabled: false,
        aria_haspopup: AriaHasPopup::Menu,
        aria_expanded: AriaExpanded::True,
    });
    assert_eq!(text_of(&r.props.aria_haspopup), "menu");
    assert_eq!(text_of(&r.props.aria_expanded), "true");
}

#[test]
fn aria_defaults_are_no_popup_and_not_expanded() {
    assert_eq!(AriaHasPopup::default(), AriaHasPopup::False);
    assert_eq!(AriaExpanded::default(), AriaExpanded::False);
    let r = use_button(InitialButtonProps {
        disabled: false,
        aria_haspopup: AriaHasPopup::default(),
        aria_expanded: AriaExpanded::default(),
    });
    assert_eq!(text_of(&r.props.aria_haspopup), "false");
    assert_eq!(text_of(&r.props.aria_expanded), "false");
}

#[test]
fn popup_kinds_spell_their_attribute_text() {
    assert_eq!(AriaHasPopup::False.as_str(), "false");
    assert_eq!(AriaHasPopup::True.as_str(), "true");
    assert_eq!(AriaHasPopup::Menu.as_str(), "menu");
    assert_eq!(AriaHasPopup::Listbox.as_str(), "listbox");
    assert_eq!(AriaHasPopup::Tree.as_str(), "tree");
    assert_eq!(AriaHasPopup::Grid.as_str(), "grid");
    assert_eq!(AriaHasPopup::Dialog.as_str(), "dialog");
    assert_eq!(AriaExpanded::True.as_str(), "true");
    assert_eq!(AriaExpanded::False.as_str(), "false");
}

#[test]
fn bool_text_matches_the_boolean() {
    assert_eq!(bool_attr_text(true), "true");
    assert_eq!(bool_attr_text(false), "false");
}
