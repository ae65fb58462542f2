//! Dropdown-variation controller: a two-state machine layered on a button.
//! A trigger click toggles it while the owning control is enabled; a click
//! anywhere outside the trigger's subtree forces it closed unconditionally.
//! The host delivers both events and reads the state back for rendering.

use vstd::prelude::*;

verus! {

/// The controller's state; a freshly built controller starts `Closed`.
#[derive(Debug, Clone, Copy, PartialEq, Eq, Structural)]
pub enum DropdownState {
    Closed,
    Open,
}

/// The direction the caret indicator points: up while the panel is open,
/// down while it is closed.
#[derive(Debug, Clone, Copy, PartialEq, Eq, Structural)]
pub enum CaretDirection {
    Up,
    Down,
}

/// The state after a click on the trigger region: toggled while the owning
/// control is enabled, unchanged while it is disabled.
pub open spec fn after_trigger_click(s: DropdownState, disabled: bool) -> DropdownState {
    if disabled {
        s
    } else {
        match s {
            DropdownState::Closed => DropdownState::Open,
            DropdownState::Open => DropdownState::Closed,
        }
    }
}

/// The state after a click outside the trigger's subtree: closed, whatever
/// the state and whether or not the control is disabled.
pub open spec fn after_outside_click(s: DropdownState) -> DropdownState {
    DropdownState::Closed
}

/// One control's dropdown state, owned exclusively by the control instance
/// for its lifetime.
#[derive(Debug, Clone, Copy, PartialEq, Eq, Structural)]
pub struct DropdownController {
    pub state: DropdownState,
}

impl DropdownController {
    /// A controller begins closed.
    pub fn new() -> (c: DropdownController)
        ensures
            c.state == DropdownState::Closed,
    {
        DropdownController { state: DropdownState::Closed }
    }

    /// Reacts to a click on the trigger region, checked against the current
    /// snapshot of the disabled signal. Returns whether the event must stop
    /// propagating: exactly when the click was acted on, so the trigger click
    /// never doubles as the main control's click.
    pub fn trigger_click(&mut self, disabled: bool) -> (stopped: bool)
        ensures
            final(self).state == after_trigger_click(old(self).state, disabled),
            stopped == !disabled,
    {
        if !disabled {
            self.state = match self.state {
                DropdownState::Closed => DropdownState::Open,
                DropdownState::Open => DropdownState::Closed,
            };
            true
        } else {
            false
        }
    }

    /// Reacts to a click outside the trigger's subtree: forces the state
    /// closed, with no disabled guard.
    pub fn outside_click(&mut self)
        ensures
            final(self).state == DropdownState::Closed,
    {
        self.state = DropdownState::Closed;
    }

    /// Whether the panel state is open.
    pub fn is_open(&self) -> (open: bool)
        ensures
            open == (self.state is Open),
    {
        match self.state {
            DropdownState::Open => true,
            DropdownState::Closed => false,
        }
    }

    /// The caret indicator for the current state: up exactly while open.
    pub fn caret(&self) -> (c: CaretDirection)
        ensures
            c is Up <==> self.state is Open,
    {
        match self.state {
            DropdownState::Open => CaretDirection::Up,
            DropdownState::Closed => CaretDirection::Down,
        }
    }

    /// Whether the variations panel is rendered active: the state must be
    /// open and the control enabled, so disabling suppresses the panel even
    /// while the state still claims open.
    pub fn panel_active(&self, disabled: bool) -> (active: bool)
        ensures
            active == (self.state is Open && !disabled),
    {
        let open = self.is_open();
        open && !disabled
    }
}

/// Trigger clicks on an enabled control toggle: from `Closed` one click opens,
/// a second click returns to the starting state from anywhere; a click while
/// the control is disabled never changes the state.
pub proof fn lemma_trigger_click_toggle(s: DropdownState)
    ensures
        after_trigger_click(DropdownState::Closed, false) == DropdownState::Open,
        after_trigger_click(after_trigger_click(s, false), false) == s,
        after_trigger_click(s, true) == s,
{
}

/// An outside click always forces the state closed, disabled or not, and is
/// idempotent: a closed controller stays closed.
pub proof fn lemma_outside_click_closes(s: DropdownState)
    ensures
        after_outside_click(s) == DropdownState::Closed,
        after_outside_click(after_outside_click(s)) == after_outside_click(s),
{
}

} // verus!
