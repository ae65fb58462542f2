//! ARIA state values a control hands to the attribute composer: whether the
//! control owns a popup, and whether that popup is currently expanded.

use vstd::prelude::*;

verus! {

/// The kind of popup a control opens, if any; the `aria-haspopup` value.
#[derive(Debug, Clone, Copy, PartialEq, Eq, Structural)]
pub enum AriaHasPopup {
    False,
    True,
    Menu,
    Listbox,
    Tree,
    Grid,
    Dialog,
}

impl Default for AriaHasPopup {
    /// Without a caller override, a control announces no popup.
    fn default() -> (r: Self)
        ensures
            r == AriaHasPopup::False,
    {
        AriaHasPopup::False
    }
}

/// The attribute text of each popup kind.
pub open spec fn aria_has_popup_text(v: AriaHasPopup) -> Seq<char> {
    match v {
        AriaHasPopup::False => "false"@,
        AriaHasPopup::True => "true"@,
        AriaHasPopup::Menu => "menu"@,
        AriaHasPopup::Listbox => "listbox"@,
        AriaHasPopup::Tree => "tree"@,
        AriaHasPopup::Grid => "grid"@,
        AriaHasPopup::Dialog => "dialog"@,
    }
}

impl AriaHasPopup {
    /// The text this popup kind contributes to the attribute map.
    pub fn as_str(&self) -> (s: &'static str)
        ensures
            s@ == aria_has_popup_text(*self),
    {
        match self {
            AriaHasPopup::False => "false",
            AriaHasPopup::True => "true",
            AriaHasPopup::Menu => "menu",
            AriaHasPopup::Listbox => "listbox",
            AriaHasPopup::Tree => "tree",
            AriaHasPopup::Grid => "grid",
            AriaHasPopup::Dialog => "dialog",
        }
    }
}

/// Whether the widget a control commands is expanded; the `aria-expanded`
/// value.
#[derive(Debug, Clone, Copy, PartialEq, Eq, Structural)]
pub enum AriaExpanded {
    False,
    True,
}

impl Default for AriaExpanded {
    /// Without a caller override, a control announces a collapsed widget.
    fn default() -> (r: Self)
        ensures
            r == AriaExpanded::False,
    {
        AriaExpanded::False
    }
}

/// The attribute text of each expanded state.
pub open spec fn aria_expanded_text(v: AriaExpanded) -> Seq<char> {
    match v {
        AriaExpanded::False => "false"@,
        AriaExpanded::True => "true"@,
    }
}

impl AriaExpanded {
    /// The text this expanded state contributes to the attribute map.
    pub fn as_str(&self) -> (s: &'static str)
        ensures
            s@ == aria_expanded_text(*self),
    {
        match self {
            AriaExpanded::False => "false",
            AriaExpanded::True => "true",
        }
    }
}

} // verus!
