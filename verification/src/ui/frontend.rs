use vstd::prelude::*;

use crate::controller::events::ControllerEvent;
use crate::controller::state::ControllerState;
use crate::error::AppResult;
use crate::ui::hotkey::HotkeyController;
use crate::ui::tray::TrayController;

verus! {

/// The tray and the hotkey together: one source of events, one sink for the state.
#[derive(Debug, Clone, Copy)]
pub struct UiFrontend {
    tray: TrayController,
    hotkey: HotkeyController,
}

impl UiFrontend {
    /// Sets up the tray and registers the hotkey `binding`.
    pub fn new(binding: &str) -> (r: AppResult<Self>)
        ensures
            r is Ok,
    {
        let tray = match TrayController::new() {
            Ok(t) => t,
            Err(e) => return Err(e),
        };
        let hotkey = match HotkeyController::new(binding) {
            Ok(h) => h,
            Err(e) => return Err(e),
        };
        Ok(UiFrontend { tray, hotkey })
    }

    /// The events since the last call: the tray's first, then the hotkey's.
    pub fn drain_events(&self) -> (events: Vec<ControllerEvent>)
        ensures
            events@.len() == 0,
    {
        let mut events = self.tray.drain_events();
        let mut more = self.hotkey.drain_events();
        events.append(&mut more);
        events
    }

    /// Shows `state` in the tray.
    pub fn set_state(&self, state: &ControllerState) -> (r: AppResult<()>)
        ensures
            r is Ok,
    {
        self.tray.set_state(state)
    }
}

} // verus!
