//! Accessible-control state composer: turns the declarative intent of a
//! button-like control (disabled?, popup semantics, expanded state) into the
//! complete, mutually consistent set of element attributes. The host binds
//! each field to the element and recomputes the map whenever an input signal
//! changes.

use vstd::prelude::*;

use crate::aria::AriaExpanded;
use crate::aria::AriaHasPopup;
use crate::aria::aria_expanded_text;
use crate::aria::aria_has_popup_text;

verus! {

/// One attribute slot: removed from the element, plain text, or a native
/// boolean attribute.
#[derive(Debug)]
pub enum AttributeValue {
    Absent,
    Text(String),
    Flag(bool),
}

/// The slot holds the text `s`.
pub open spec fn is_text(a: &AttributeValue, s: Seq<char>) -> bool {
    match a {
        AttributeValue::Text(t) => t@ == s,
        _ => false,
    }
}

/// The slot holds the native boolean `b`.
pub open spec fn is_flag(a: &AttributeValue, b: bool) -> bool {
    match a {
        AttributeValue::Flag(f) => *f == b,
        _ => false,
    }
}

/// The string form of a boolean, as ARIA attributes spell it.
pub open spec fn spec_bool_text(b: bool) -> Seq<char> {
    if b {
        "true"@
    } else {
        "false"@
    }
}

/// The tabindex attribute is present exactly while the control is enabled:
/// disabling removes the control from tab order at once, re-enabling restores
/// it.
pub open spec fn tabindex_present(disabled: bool) -> bool {
    !disabled
}

/// The string form of a boolean: `"true"` or `"false"`.
pub fn bool_attr_text(b: bool) -> (s: &'static str)
    ensures
        s@ == spec_bool_text(b),
{
    if b {
        "true"
    } else {
        "false"
    }
}

/// The declarative intent the composer works from; each field is the current
/// snapshot of the corresponding input signal.
#[derive(Debug, Clone, Copy)]
pub struct InitialButtonProps {
    pub disabled: bool,
    pub aria_haspopup: AriaHasPopup,
    pub aria_expanded: AriaExpanded,
}

/// The attribute map of a control. The keys are fixed, one field each, so no
/// two conflicting values can ever share a key.
#[derive(Debug)]
pub struct ButtonAttributes {
    pub role: AttributeValue,
    pub tabindex: AttributeValue,
    pub disabled: AttributeValue,
    pub aria_disabled: AttributeValue,
    pub aria_haspopup: AttributeValue,
    pub aria_expanded: AttributeValue,
}

/// What the composer hands back: the props to spread onto the element.
#[derive(Debug)]
pub struct UseButtonReturn {
    pub props: ButtonAttributes,
}

/// Composes the full attribute map of an accessible button-like control from
/// its current intent. Every attribute is pinned: the role is constantly
/// `"button"`; tabindex is `"0"` while enabled and removed while disabled;
/// the native disabled flag mirrors the intent; `aria-disabled` carries its
/// string form in lockstep; popup and expanded state pass through as their
/// attribute text.
pub fn use_button(initial_props: InitialButtonProps) -> (r: UseButtonReturn)
    ensures
        is_text(&r.props.role, "button"@),
        tabindex_present(initial_props.disabled) ==> is_text(&r.props.tabindex, "0"@),
        !tabindex_present(initial_props.disabled) ==> r.props.tabindex is Absent,
        is_flag(&r.props.disabled, initial_props.disabled),
        is_text(&r.props.aria_disabled, spec_bool_text(initial_props.disabled)),
        is_text(&r.props.aria_haspopup, aria_has_popup_text(initial_props.aria_haspopup)),
        is_text(&r.props.aria_expanded, aria_expanded_text(initial_props.aria_expanded)),
{
    let tabindex = if initial_props.disabled {
        AttributeValue::Absent
    } else {
        AttributeValue::Text(String::from_str("0"))
    };
    UseButtonReturn {
        props: ButtonAttributes {
            role: AttributeValue::Text(String::from_str("button")),
            tabindex,
            disabled: AttributeValue::Flag(initial_props.disabled),
            aria_disabled: AttributeValue::Text(
                String::from_str(bool_attr_text(initial_props.disabled)),
            ),
            aria_haspopup: AttributeValue::Text(
                String::from_str(initial_props.aria_haspopup.as_str()),
            ),
            aria_expanded: AttributeValue::Text(
                String::from_str(initial_props.aria_expanded.as_str()),
            ),
        },
    }
}

/// Tab order and the ARIA disabled string stay in lockstep with `disabled`,
/// for every value of it: tabindex is present exactly while the control is
/// enabled, `aria-disabled` is the boolean's string form, and recomposing
/// after a toggle of `disabled` swaps both at once.
pub proof fn lemma_disabled_lockstep(disabled: bool)
    ensures
        tabindex_present(disabled) <==> !disabled,
        spec_bool_text(disabled) == (if disabled {
            "true"@
        } else {
            "false"@
        }),
        tabindex_present(!disabled) <==> disabled,
        spec_bool_text(!disabled) == (if disabled {
            "false"@
        } else {
            "true"@
        }),
{
}

} // verus!
