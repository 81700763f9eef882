//! The Rigol DP-932E power supply that heats the filament, and the SPDT
//! relays, driven by the vacuum controller, that set the direction of the
//! current through it.
//!
//! Always uses the power supply's first channel. Only some commands and
//! queries are implemented. See the supply's programming guide for a list of
//! all supported commands and queries.
use crate::controller_error::ControllerError;
use crate::text::{str_eq, to_string, trim, trim_spec};
use crate::usb_tmc::error::Error as UsbTmcError;
use vstd::prelude::*;

verus! {

/// The USB product ID of the Rigol DP-932E power supply.
///
/// Shared by the whole DP900 series.
pub const PRODUCT_ID: u16 = 0xa4a8;

/// The USB vendor ID of the Rigol DP-932E power supply.
pub const VENDOR_ID: u16 = 0x1ab1;

/// An error returned from the power supply.
#[derive(Debug)]
pub enum PowerSupplyError {
    /// An error returned from the vacuum system controller.
    ///
    /// Note that this isn't an error returned from the power supply, but may
    /// be encountered when switching the polarity relays, which are driven by
    /// the controller rather than by the supply.
    Controller(ControllerError),

    /// A reading wasn't a floating-point number.
    InvalidFloatError(core::num::ParseFloatError),

    /// The method hasn't been implemented yet.
    NotImplemented,

    /// The controller returned an unknown relay polarity.
    UnknownRelayPolarity(String),

    /// An error encountered while communicating with the supply over USBTMC.
    UsbTmc(UsbTmcError),
}

/// The direction of the current through the filament.
///
/// Each side of the filament is switched by one SPDT relay. With both relays
/// de-energised, both sides sit on the negative rail, no current can flow,
/// and the current has no direction — that's `Nil`. That is the state the
/// controller powers up in, and the state cleanup returns to. Energising one
/// relay or the other puts one side on the positive rail, setting the
/// direction.
///
/// Reversing the direction lets the Seebeck voltages at the filament's
/// junctions cancel when a forward and a reverse measurement are averaged.
///
/// A fourth relay state exists — both energised, both sides on the positive
/// rail — which is equivalent to `Nil` and is never used.
#[derive(Clone, Copy, Debug, PartialEq, Eq, Structural)]
pub enum Polarity {
    /// Relay 1 energised: current flows through the filament one way.
    Forward,

    /// Both relays de-energised: no current flows, so there is no polarity.
    Nil,

    /// Relay 2 energised: current flows the other way.
    Reverse,
}

impl Default for Polarity {
    /// `Nil`: the state the controller powers up in.
    fn default() -> (r: Self)
        ensures
            r == Polarity::Nil,
    {
        Polarity::Nil
    }
}

impl Polarity {
    /// The polarity's name, as it's shown.
    pub open spec fn name_spec(self) -> Seq<char> {
        match self {
            Polarity::Forward => "Forward"@,
            Polarity::Nil => "Nil"@,
            Polarity::Reverse => "Reverse"@,
        }
    }

    /// The polarity's name, as it's shown.
    pub fn name(&self) -> (s: &'static str)
        ensures
            s@ == self.name_spec(),
    {
        match self {
            Polarity::Forward => "Forward",
            Polarity::Nil => "Nil",
            Polarity::Reverse => "Reverse",
        }
    }

    /// The polarity's name, as it's shown.
    pub fn to_string(&self) -> (s: String)
        ensures
            s@ == self.name_spec(),
    {
        to_string(self.name())
    }

    /// The relay state that gives the polarity, as the controller's relay
    /// command takes it: which relay is energised, if any.
    pub open spec fn relay_code(self) -> Seq<char> {
        match self {
            Polarity::Nil => "0"@,
            Polarity::Forward => "1"@,
            Polarity::Reverse => "2"@,
        }
    }

    /// The command, sent to the controller's relays (`Destination::RLY`),
    /// that sets the polarity.
    ///
    /// IMPORTANT: The output must be disabled before the relays are
    /// switched, otherwise the contacts may arc.
    pub fn relay_command(&self) -> (s: &'static str)
        ensures
            s@ == self.relay_code(),
    {
        match self {
            Polarity::Nil => "0",
            Polarity::Forward => "1",
            Polarity::Reverse => "2",
        }
    }
}

/// The query, sent to the controller's relays, that reads their state.
pub fn relay_query() -> (s: &'static str)
    ensures
        s@ == "?"@,
{
    "?"
}

/// The polarity the relay state `state` gives: `0` (neither relay) and `3`
/// (both relays) are `Nil`, `1` is `Forward`, `2` is `Reverse`.
pub open spec fn polarity_of_relays(state: Seq<char>) -> Option<Polarity> {
    if state == "0"@ || state == "3"@ {
        Some(Polarity::Nil)
    } else if state == "1"@ {
        Some(Polarity::Forward)
    } else if state == "2"@ {
        Some(Polarity::Reverse)
    } else {
        None
    }
}

/// Reads the polarity from the controller's answer to `relay_query()`,
/// ignoring surrounding white space.
pub fn polarity_from_relays(response: &str) -> (r: Result<Polarity, PowerSupplyError>)
    ensures
        match polarity_of_relays(trim_spec(response@)) {
            Some(p) => r matches Ok(q) && q == p,
            None => r matches Err(PowerSupplyError::UnknownRelayPolarity(s)) && s@ == trim_spec(
                response@,
            ),
        },
{
    let state = trim(response);
    if str_eq(state, "0") || str_eq(state, "3") {
        Ok(Polarity::Nil)
    } else if str_eq(state, "1") {
        Ok(Polarity::Forward)
    } else if str_eq(state, "2") {
        Ok(Polarity::Reverse)
    } else {
        Err(PowerSupplyError::UnknownRelayPolarity(to_string(state)))
    }
}

/// The query that measures the current flowing out of channel 1, answered in
/// amperes.
pub fn current_query() -> (s: &'static str)
    ensures
        s@ == ":MEASure:CURRent? CH1"@,
{
    ":MEASure:CURRent? CH1"
}

/// The query that reads whether channel 1's output is enabled.
pub fn output_enabled_query() -> (s: &'static str)
    ensures
        s@ == ":OUTPut? CH1"@,
{
    ":OUTPut? CH1"
}

/// Whether the answer to `output_enabled_query()` says the output is
/// enabled: `1`, ignoring surrounding white space.
pub fn output_enabled_from_response(response: &str) -> (r: bool)
    ensures
        r == (trim_spec(response@) == "1"@),
{
    str_eq(trim(response), "1")
}

/// The command that enables or disables channel 1's output.
pub open spec fn output_command_spec(enabled: bool) -> Seq<char> {
    if enabled {
        ":OUTPut CH1,1"@
    } else {
        ":OUTPut CH1,0"@
    }
}

/// The command that enables or disables channel 1's output.
pub fn output_command(enabled: bool) -> (s: &'static str)
    ensures
        s@ == output_command_spec(enabled),
{
    if enabled {
        ":OUTPut CH1,1"
    } else {
        ":OUTPut CH1,0"
    }
}

/// The relays read back the polarity they were set to: the state that
/// `relay_command` sets for a polarity is read as that polarity.
pub proof fn lemma_relay_round_trip(p: Polarity)
    ensures
        polarity_of_relays(p.relay_code()) == Some(p),
{
    reveal_strlit("0");
    reveal_strlit("1");
    reveal_strlit("2");
    reveal_strlit("3");
    assert("0"@[0] != "1"@[0] && "3"@[0] != "1"@[0]);
    assert("0"@[0] != "2"@[0] && "3"@[0] != "2"@[0] && "1"@[0] != "2"@[0]);
}

} // verus!

verus! {

impl From<ControllerError> for PowerSupplyError {
    fn from(e: ControllerError) -> (r: Self) {
        PowerSupplyError::Controller(e)
    }
}

impl vstd::std_specs::convert::FromSpecImpl<ControllerError> for PowerSupplyError {
    open spec fn obeys_from_spec() -> bool {
        true
    }

    open spec fn from_spec(e: ControllerError) -> Self {
        PowerSupplyError::Controller(e)
    }
}

impl From<core::num::ParseFloatError> for PowerSupplyError {
    fn from(e: core::num::ParseFloatError) -> (r: Self) {
        PowerSupplyError::InvalidFloatError(e)
    }
}

impl vstd::std_specs::convert::FromSpecImpl<core::num::ParseFloatError> for PowerSupplyError {
    open spec fn obeys_from_spec() -> bool {
        true
    }

    open spec fn from_spec(e: core::num::ParseFloatError) -> Self {
        PowerSupplyError::InvalidFloatError(e)
    }
}

impl From<UsbTmcError> for PowerSupplyError {
    fn from(e: UsbTmcError) -> (r: Self) {
        PowerSupplyError::UsbTmc(e)
    }
}

impl vstd::std_specs::convert::FromSpecImpl<UsbTmcError> for PowerSupplyError {
    open spec fn obeys_from_spec() -> bool {
        true
    }

    open spec fn from_spec(e: UsbTmcError) -> Self {
        PowerSupplyError::UsbTmc(e)
    }
}

} // verus!
