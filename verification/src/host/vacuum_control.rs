//! The vacuum control screen's decisions: which dialog is shown, and when
//! the TMP is started or stopped in answer to a key.
//!
//! Starting the TMP takes two keys: `P` asks for it, and is refused with an
//! error while the chamber pressure is above the TMP's maximum backing
//! pressure; otherwise it asks the operator to confirm that the roughing
//! pump is running, and `C` confirms. A low chamber pressure doesn't prove
//! the roughing pump is still running, and without it pressure builds up in
//! the TMP's outlet and can damage it.
use vstd::prelude::*;

verus! {

/// A key the operator pressed on the vacuum control screen.
#[derive(Clone, Copy, Debug, PartialEq, Eq, Structural)]
pub enum ControlKey {
    /// `C`: confirm that the roughing pump is running.
    Confirm,
    /// `Esc` or `Q`: dismiss a dialog, or quit.
    Dismiss,
    /// `P`: turn the TMP on or off.
    TogglePump,
    /// Any other key.
    Other,
}

/// What the application does after a key press.
#[derive(Clone, Copy, Debug, PartialEq, Eq, Structural)]
pub enum ControlAction {
    /// Nothing beyond redrawing.
    Nothing,
    /// Start the TMP.
    StartTmp,
    /// Stop the TMP.
    StopTmp,
    /// Quit the application.
    Quit,
}

/// The state of the vacuum control screen that keys change.
#[derive(Clone, Copy, Debug, PartialEq, Eq, Structural)]
pub struct ControlState {
    /// If the "confirm the roughing pump is running" message is shown.
    pub show_roughing_pump_confirmation: bool,

    /// If the "chamber pressure too high for TMP" error is shown.
    pub show_tmp_pressure_error: bool,

    /// If the TMP is running, as last read or started.
    pub tmp_running: bool,
}

impl Default for ControlState {
    /// No dialog shown and the TMP not running.
    fn default() -> (r: Self)
        ensures
            r == (ControlState {
                show_roughing_pump_confirmation: false,
                show_tmp_pressure_error: false,
                tmp_running: false,
            }),
    {
        ControlState { show_roughing_pump_confirmation: false, show_tmp_pressure_error: false, tmp_running: false }
    }
}

impl ControlState {
    /// Takes in `key`, given whether the latest chamber pressure is at most
    /// the TMP's maximum backing pressure (`None` before the first reading),
    /// and returns what the application has to do.
    pub fn handle_key(&mut self, key: ControlKey, pressure_ok: Option<bool>) -> (r: ControlAction)
        ensures
            match key {
                ControlKey::Confirm => if old(self).show_roughing_pump_confirmation {
                    r == ControlAction::StartTmp && *final(self) == (ControlState {
                        show_roughing_pump_confirmation: false,
                        tmp_running: true,
                        ..*old(self)
                    })
                } else {
                    r == ControlAction::Nothing && *final(self) == *old(self)
                },
                ControlKey::Dismiss => if old(self).show_roughing_pump_confirmation {
                    r == ControlAction::Nothing && *final(self) == (ControlState {
                        show_roughing_pump_confirmation: false,
                        ..*old(self)
                    })
                } else if old(self).show_tmp_pressure_error {
                    r == ControlAction::Nothing && *final(self) == (ControlState {
                        show_tmp_pressure_error: false,
                        ..*old(self)
                    })
                } else {
                    r == ControlAction::Quit && *final(self) == *old(self)
                },
                ControlKey::TogglePump => if old(self).tmp_running {
                    r == ControlAction::StopTmp && *final(self) == *old(self)
                } else {
                    r == ControlAction::Nothing && match pressure_ok {
                        Some(true) => *final(self) == (ControlState {
                            show_roughing_pump_confirmation: true,
                            ..*old(self)
                        }),
                        Some(false) => *final(self) == (ControlState {
                            show_tmp_pressure_error: true,
                            ..*old(self)
                        }),
                        None => *final(self) == *old(self),
                    }
                },
                ControlKey::Other => r == ControlAction::Nothing && *final(self) == *old(self),
            },
            r == ControlAction::StartTmp ==> old(self).show_roughing_pump_confirmation,
            final(self).show_roughing_pump_confirmation && !old(self).show_roughing_pump_confirmation
                ==> pressure_ok == Some(true),
    {
        match key {
            ControlKey::Confirm => {
                if self.show_roughing_pump_confirmation {
                    // The message is only shown when the chamber pressure was
                    // low enough, and the operator has now confirmed that the
                    // roughing pump is running, so the TMP can start.
                    self.show_roughing_pump_confirmation = false;
                    self.tmp_running = true;
                    ControlAction::StartTmp
                } else {
                    ControlAction::Nothing
                }
            },
            ControlKey::Dismiss => {
                if self.show_roughing_pump_confirmation {
                    self.show_roughing_pump_confirmation = false;
                    ControlAction::Nothing
                } else if self.show_tmp_pressure_error {
                    self.show_tmp_pressure_error = false;
                    ControlAction::Nothing
                } else {
                    ControlAction::Quit
                }
            },
            ControlKey::TogglePump => {
                if self.tmp_running {
                    // If the TMP is already running, turn it off.
                    ControlAction::StopTmp
                } else {
                    match pressure_ok {
                        Some(true) => {
                            self.show_roughing_pump_confirmation = true;
                        },
                        Some(false) => {
                            self.show_tmp_pressure_error = true;
                        },
                        None => {},
                    }
                    ControlAction::Nothing
                }
            },
            ControlKey::Other => ControlAction::Nothing,
        }
    }

    /// The shortcuts bar's text: `Esc` or `Q` dismisses a shown dialog, or
    /// quits; `P` turns the TMP off or on.
    pub fn shortcuts(&self) -> (s: String)
        ensures
            s@ == "[Esc / Q]: "@ + (if self.show_roughing_pump_confirmation || self.show_tmp_pressure_error {
                "Dismiss"@
            } else {
                "Quit"@
            }) + "   [P]: Turn TMP "@ + (if self.tmp_running {
                "off"@
            } else {
                "on"@
            }),
    {
        let mut s = crate::text::to_string("[Esc / Q]: ");
        if self.show_roughing_pump_confirmation || self.show_tmp_pressure_error {
            s.append("Dismiss");
        } else {
            s.append("Quit");
        }
        s.append("   [P]: Turn TMP ");
        if self.tmp_running {
            s.append("off");
        } else {
            s.append("on");
        }
        s
    }
}

/// The number of pressure readings the graph shows: roughly the past
/// minute, at a reading every ~2 seconds.
pub const GRAPH_READINGS: usize = 30;

/// The index of the first reading the graph shows, out of `count`.
pub fn graph_start(count: usize) -> (r: usize)
    ensures
        r == (if count >= GRAPH_READINGS {
            count - GRAPH_READINGS
        } else {
            0
        }),
{
    count.saturating_sub(GRAPH_READINGS)
}

} // verus!
