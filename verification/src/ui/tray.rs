use vstd::prelude::*;

use crate::controller::events::{ControllerEvent, ControllerEventView};
use crate::controller::state::{ControllerState, ControllerStateView};
use crate::error::AppResult;

verus! {

/// The entries of the tray menu.
#[derive(Debug, Clone, Copy, PartialEq, Eq, Structural)]
pub enum TrayMenuItem {
    Toggle,
    Doctor,
    Quit,
}

/// The event a click on a menu entry sends.
pub open spec fn spec_menu_event(item: TrayMenuItem) -> ControllerEventView {
    match item {
        TrayMenuItem::Toggle => ControllerEventView::Toggle,
        TrayMenuItem::Doctor => ControllerEventView::RunDoctor,
        TrayMenuItem::Quit => ControllerEventView::Shutdown,
    }
}

/// Translates a click on a menu entry.
pub fn menu_event(item: TrayMenuItem) -> (event: ControllerEvent)
    ensures
        event@ == spec_menu_event(item),
{
    match item {
        TrayMenuItem::Toggle => ControllerEvent::Toggle,
        TrayMenuItem::Doctor => ControllerEvent::RunDoctor,
        TrayMenuItem::Quit => ControllerEvent::Shutdown,
    }
}

/// The tooltip shown for a state.
pub open spec fn spec_tooltip(state: ControllerStateView) -> Seq<char> {
    match state {
        ControllerStateView::Idle => "Quedo: idle"@,
        ControllerStateView::Recording => "Quedo: recording"@,
        ControllerStateView::Processing => "Quedo: processing"@,
        ControllerStateView::Degraded(_) => "Quedo: degraded"@,
        ControllerStateView::Unavailable(_) => "Quedo: unavailable"@,
    }
}

/// Chooses the tooltip for a state.
pub fn tooltip(state: &ControllerState) -> (r: &'static str)
    ensures
        r@ == spec_tooltip(state@),
{
    match state {
        ControllerState::Idle => "Quedo: idle",
        ControllerState::Recording => "Quedo: recording",
        ControllerState::Processing => "Quedo: processing",
        ControllerState::Degraded(_) => "Quedo: degraded",
        ControllerState::Unavailable(_) => "Quedo: unavailable",
    }
}

/// The tray on a platform without one: it never produces events and accepts every state.
#[derive(Debug, Clone, Copy)]
pub struct TrayController;

impl TrayController {
    /// Creates the tray; there is nothing to set up.
    pub fn new() -> (r: AppResult<Self>)
        ensures
            r is Ok,
    {
        Ok(TrayController)
    }

    /// The menu clicks since the last call: none.
    pub fn drain_events(&self) -> (events: Vec<ControllerEvent>)
        ensures
            events@.len() == 0,
    {
        Vec::new()
    }

    /// Shows `state`; there is nothing to show it on.
    pub fn set_state(&self, state: &ControllerState) -> (r: AppResult<()>)
        ensures
            r is Ok,
    {
        Ok(())
    }
}

} // verus!
