//! Button-level logic: the styling enums carried as data attributes, the
//! click guard, class-string composition for the button and the link-styled
//! button, and the choice between a plain button and one with a dropdown
//! variations panel.

use vstd::prelude::*;

use crate::dropdown::CaretDirection;
use crate::dropdown::DropdownController;
use crate::dropdown::DropdownState;
use crate::dropdown::after_trigger_click;
use crate::hooks::spec_bool_text;

verus! {

/// The visual variant carried as the `data-variant` attribute.
#[derive(Debug, Clone, Copy, PartialEq, Eq, Structural)]
pub enum ButtonVariant {
    Flat,
    Outlined,
    Filled,
}

impl Default for ButtonVariant {
    /// Without a caller override, a button renders filled.
    fn default() -> (r: Self)
        ensures
            r == ButtonVariant::Filled,
    {
        ButtonVariant::Filled
    }
}

/// The attribute text of each variant.
pub open spec fn button_variant_text(v: ButtonVariant) -> Seq<char> {
    match v {
        ButtonVariant::Flat => "flat"@,
        ButtonVariant::Outlined => "outlined"@,
        ButtonVariant::Filled => "filled"@,
    }
}

impl ButtonVariant {
    /// The text this variant contributes as the `data-variant` attribute.
    pub fn as_str(&self) -> (s: &'static str)
        ensures
            s@ == button_variant_text(*self),
    {
        match self {
            ButtonVariant::Flat => "flat",
            ButtonVariant::Outlined => "outlined",
            ButtonVariant::Filled => "filled",
        }
    }
}

/// The color carried as the `data-color` attribute.
#[derive(Debug, Clone, Copy, PartialEq, Eq, Structural)]
pub enum ButtonColor {
    Primary,
    Secondary,
    Success,
    Info,
    Warn,
    Danger,
}

impl Default for ButtonColor {
    /// Without a caller override, a button renders in the primary color.
    fn default() -> (r: Self)
        ensures
            r == ButtonColor::Primary,
    {
        ButtonColor::Primary
    }
}

/// The attribute text of each color.
pub open spec fn button_color_text(c: ButtonColor) -> Seq<char> {
    match c {
        ButtonColor::Primary => "primary"@,
        ButtonColor::Secondary => "secondary"@,
        ButtonColor::Success => "success"@,
        ButtonColor::Info => "info"@,
        ButtonColor::Warn => "warn"@,
        ButtonColor::Danger => "danger"@,
    }
}

impl ButtonColor {
    /// The text this color contributes as the `data-color` attribute.
    pub fn as_str(&self) -> (s: &'static str)
        ensures
            s@ == button_color_text(*self),
    {
        match self {
            ButtonColor::Primary => "primary",
            ButtonColor::Secondary => "secondary",
            ButtonColor::Success => "success",
            ButtonColor::Info => "info",
            ButtonColor::Warn => "warn",
            ButtonColor::Danger => "danger",
        }
    }
}

/// The size carried as the `data-size` attribute.
#[derive(Debug, Clone, Copy, PartialEq, Eq, Structural)]
pub enum ButtonSize {
    Small,
    Normal,
    Big,
}

impl Default for ButtonSize {
    /// Without a caller override, a button renders at normal size.
    fn default() -> (r: Self)
        ensures
            r == ButtonSize::Normal,
    {
        ButtonSize::Normal
    }
}

/// The attribute text of each size.
pub open spec fn button_size_text(s: ButtonSize) -> Seq<char> {
    match s {
        ButtonSize::Small => "small"@,
        ButtonSize::Normal => "normal"@,
        ButtonSize::Big => "big"@,
    }
}

impl ButtonSize {
    /// The text this size contributes as the `data-size` attribute.
    pub fn as_str(&self) -> (s: &'static str)
        ensures
            s@ == button_size_text(*self),
    {
        match self {
            ButtonSize::Small => "small",
            ButtonSize::Normal => "normal",
            ButtonSize::Big => "big",
        }
    }
}

/// What a click on the main control effects: whether the caller's handler
/// runs and whether the event stops propagating to ancestors.
#[derive(Debug, Clone, Copy, PartialEq, Eq, Structural)]
pub struct ClickOutcome {
    pub handler_invoked: bool,
    pub propagation_stopped: bool,
}

/// Decides a click against the current snapshot of the disabled signal: an
/// enabled control invokes the handler exactly once and stops the event from
/// bubbling; a disabled control does neither.
pub fn button_click_outcome(disabled: bool) -> (o: ClickOutcome)
    ensures
        o == button_click_outcome_spec(disabled),
        o.handler_invoked == !disabled,
        o.propagation_stopped == !disabled,
{
    ClickOutcome { handler_invoked: !disabled, propagation_stopped: !disabled }
}

/// The element class of a button: the caller's classes, if any, followed by
/// the library's own class.
pub fn button_class(user: Option<&str>) -> (s: String)
    ensures
        match user {
            Some(u) => s@ == u@ + " leptonic-btn"@,
            None => s@ == "leptonic-btn"@,
        },
{
    match user {
        Some(u) => String::from_str(u).concat(" leptonic-btn"),
        None => String::from_str("leptonic-btn"),
    }
}

/// The element class of a link-styled button: the library's class, the
/// caller's classes, and `active` exactly while the link is marked active.
pub fn link_button_class(user: &str, active: bool) -> (s: String)
    ensures
        s@ == "leptonic-btn "@ + user@ + " "@ + (if active {
            "active"@
        } else {
            ""@
        }),
{
    let marker: &str = if active {
        "active"
    } else {
        ""
    };
    String::from_str("leptonic-btn ").concat(user).concat(" ").concat(marker)
}

/// A link-styled button mirrors its disabled intent as `aria-disabled` text.
pub fn link_aria_disabled(disabled: bool) -> (s: &'static str)
    ensures
        s@ == spec_bool_text(disabled),
{
    crate::hooks::bool_attr_text(disabled)
}

/// Whether a button owns a dropdown, decided once at construction: a button
/// built without variations content never grows a controller, one built with
/// it owns a controller for its whole life.
#[derive(Debug, Clone, Copy, PartialEq, Eq, Structural)]
pub enum ButtonDropdown {
    Plain,
    WithDropdown(DropdownController),
}

/// Whether the dropdown state is open; a plain button has no open panel.
pub open spec fn dropdown_open(b: ButtonDropdown) -> bool {
    match b {
        ButtonDropdown::Plain => false,
        ButtonDropdown::WithDropdown(c) => c.state is Open,
    }
}

impl ButtonDropdown {
    /// Builds the dropdown side of a button: a controller, starting closed,
    /// exactly when variations content was supplied.
    pub fn new(has_variations: bool) -> (b: ButtonDropdown)
        ensures
            has_variations ==> b == ButtonDropdown::WithDropdown(
                DropdownController { state: DropdownState::Closed },
            ),
            !has_variations ==> b == ButtonDropdown::Plain,
    {
        if has_variations {
            ButtonDropdown::WithDropdown(DropdownController::new())
        } else {
            ButtonDropdown::Plain
        }
    }

    /// Forwards a trigger click to the controller, if one exists; a plain
    /// button has no trigger region, so nothing happens and the event keeps
    /// propagating.
    pub fn trigger_click(&mut self, disabled: bool) -> (stopped: bool)
        ensures
            match *old(self) {
                ButtonDropdown::Plain => *final(self) == ButtonDropdown::Plain && !stopped,
                ButtonDropdown::WithDropdown(c) => *final(self) == ButtonDropdown::WithDropdown(
                    DropdownController { state: after_trigger_click(c.state, disabled) },
                ) && stopped == !disabled,
            },
    {
        match self {
            ButtonDropdown::Plain => false,
            ButtonDropdown::WithDropdown(c) => c.trigger_click(disabled),
        }
    }

    /// Forwards an outside click: whatever dropdown state exists is forced
    /// closed.
    pub fn outside_click(&mut self)
        ensures
            !dropdown_open(*final(self)),
            *old(self) is Plain ==> *final(self) is Plain,
            *old(self) is WithDropdown ==> *final(self) is WithDropdown,
    {
        match self {
            ButtonDropdown::Plain => (),
            ButtonDropdown::WithDropdown(c) => c.outside_click(),
        }
    }

    /// Whether the dropdown state is open.
    pub fn is_open(&self) -> (open: bool)
        ensures
            open == dropdown_open(*self),
    {
        match self {
            ButtonDropdown::Plain => false,
            ButtonDropdown::WithDropdown(c) => c.is_open(),
        }
    }

    /// The caret indicator of the trigger region: none for a plain button,
    /// which has no trigger; up exactly while the panel state is open.
    pub fn caret(&self) -> (c: Option<CaretDirection>)
        ensures
            *self is Plain <==> c is None,
            c is Some ==> ((c->0 is Up) <==> dropdown_open(*self)),
    {
        match self {
            ButtonDropdown::Plain => None,
            ButtonDropdown::WithDropdown(c) => Some(c.caret()),
        }
    }

    /// Whether the variations panel renders active: open and not disabled.
    pub fn panel_active(&self, disabled: bool) -> (active: bool)
        ensures
            active == (dropdown_open(*self) && !disabled),
    {
        match self {
            ButtonDropdown::Plain => false,
            ButtonDropdown::WithDropdown(c) => c.panel_active(disabled),
        }
    }
}

/// A disabled control neither runs its click handler nor stops the event;
/// an enabled one does both, for every value of `disabled`.
pub proof fn lemma_click_guard(disabled: bool)
    ensures
        disabled ==> !button_click_outcome_spec(disabled).handler_invoked,
        !disabled ==> button_click_outcome_spec(disabled).handler_invoked,
        button_click_outcome_spec(disabled).handler_invoked == button_click_outcome_spec(
            disabled,
        ).propagation_stopped,
{
}

/// What a click effects, as a function of the disabled snapshot.
pub open spec fn button_click_outcome_spec(disabled: bool) -> ClickOutcome {
    ClickOutcome { handler_invoked: !disabled, propagation_stopped: !disabled }
}

} // verus!
