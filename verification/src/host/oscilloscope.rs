//! The Rigol DHO-814 oscilloscope that measures the voltage across the
//! filament, on channel 1.
//!
//! Only some commands and queries are implemented. See the scope's
//! programming guide for a list of all supported commands and queries.
use crate::usb_tmc::error::Error as UsbTmcError;
use vstd::prelude::*;

verus! {

/// The USB product ID of the Rigol DHO-814 oscilloscope.
///
/// Shared by the whole DHO800/900 series.
pub const PRODUCT_ID: u16 = 0x044d;

/// The USB vendor ID of the Rigol DHO-814 oscilloscope.
pub const VENDOR_ID: u16 = 0x1ab1;

/// An error returned from the oscilloscope.
#[derive(Debug)]
pub enum OscilloscopeError {
    /// A voltage was larger than the oscilloscope's vertical range.
    ClippedVoltage,

    /// An argument was invalid.
    InvalidArgument(String),

    /// A reading wasn't a floating-point number.
    InvalidVoltage(core::num::ParseFloatError),

    /// The method hasn't been implemented yet.
    NotImplemented,

    /// A catch all error for anything else that might happen.
    Unknown(String),

    /// An error encountered while communicating with the scope over USBTMC.
    UsbTmc(UsbTmcError),
}

} // verus!

verus! {

impl From<core::num::ParseFloatError> for OscilloscopeError {
    fn from(e: core::num::ParseFloatError) -> (r: Self) {
        OscilloscopeError::InvalidVoltage(e)
    }
}

impl vstd::std_specs::convert::FromSpecImpl<core::num::ParseFloatError> for OscilloscopeError {
    open spec fn obeys_from_spec() -> bool {
        true
    }

    open spec fn from_spec(e: core::num::ParseFloatError) -> Self {
        OscilloscopeError::InvalidVoltage(e)
    }
}

impl From<UsbTmcError> for OscilloscopeError {
    fn from(e: UsbTmcError) -> (r: Self) {
        OscilloscopeError::UsbTmc(e)
    }
}

impl vstd::std_specs::convert::FromSpecImpl<UsbTmcError> for OscilloscopeError {
    open spec fn obeys_from_spec() -> bool {
        true
    }

    open spec fn from_spec(e: UsbTmcError) -> Self {
        OscilloscopeError::UsbTmc(e)
    }
}

/// The number of times a reading is attempted before giving up.
pub const POLL_ATTEMPTS: u32 = 3;

/// What to do after an attempt at a reading.
#[derive(Debug)]
pub enum PollDecision<T> {
    /// Stop, with this outcome.
    Finish(Result<T, OscilloscopeError>),

    /// Wait a moment and make attempt number `next_attempt`.
    Retry { next_attempt: u32 },
}

/// Decides what follows attempt number `attempt` (counted from 1) at a
/// reading, given its `outcome`.
///
/// `outcome` is `Ok(Ok(value))` when the reading is done, `Ok(Err(e))` when
/// the scope hasn't caught up yet and the attempt is worth repeating, and
/// `Err(e)` for a failure no retry can fix. A retryable error is returned as
/// it is once the attempts run out, which is what reports `ClippedVoltage`
/// when the voltage really is off screen. The attempts are compared with `>=`
/// so that polling stops even if it's started past the last attempt.
pub fn poll_decision<T>(attempt: u32, outcome: Result<Result<T, OscilloscopeError>, OscilloscopeError>) -> (r: PollDecision<T>)
    ensures
        match outcome {
            Err(e) => r matches PollDecision::Finish(Err(f)) && f == e,
            Ok(Ok(v)) => r matches PollDecision::Finish(Ok(w)) && w == v,
            Ok(Err(e)) => if attempt >= POLL_ATTEMPTS {
                r matches PollDecision::Finish(Err(f)) && f == e
            } else {
                r matches PollDecision::Retry { next_attempt } && next_attempt == attempt + 1
            },
        },
        r matches PollDecision::Retry { next_attempt } ==> next_attempt <= POLL_ATTEMPTS,
{
    match outcome {
        Err(e) => PollDecision::Finish(Err(e)),
        Ok(Ok(v)) => PollDecision::Finish(Ok(v)),
        Ok(Err(e)) => if attempt >= POLL_ATTEMPTS {
            PollDecision::Finish(Err(e))
        } else {
            PollDecision::Retry { next_attempt: attempt + 1 }
        },
    }
}

/// Whether the scope is currently measuring the average voltage on channel
/// 1.
///
/// Kept locally so the scope's state doesn't have to be queried on each
/// reading.
#[derive(Clone, Copy, Debug, PartialEq, Eq, Structural)]
pub struct MeasurementState {
    pub is_measuring_voltage: bool,
}

impl MeasurementState {
    /// The state of a scope that was just opened: not measuring.
    pub fn new() -> (r: Self)
        ensures
            !r.is_measuring_voltage,
    {
        MeasurementState { is_measuring_voltage: false }
    }

    /// Prepares a voltage reading: returns whether the measurement has to
    /// be added first (with `measure_command()`), and records that it then
    /// runs.
    pub fn start_voltage_measurement(&mut self) -> (add: bool)
        ensures
            add == !old(self).is_measuring_voltage,
            final(self).is_measuring_voltage,
    {
        let add = !self.is_measuring_voltage;
        self.is_measuring_voltage = true;
        add
    }

    /// Records that the scope was reset (with `reset_commands()`), which
    /// clears its measurements.
    pub fn reset(&mut self)
        ensures
            !final(self).is_measuring_voltage,
    {
        self.is_measuring_voltage = false;
    }
}

/// The command that adds the measurement of the mean voltage on channel 1.
///
/// This is the command form rather than the query form, so there's no
/// response to read and nothing left in the scope's output queue for the next
/// query to pick up by mistake.
pub fn measure_command() -> (s: &'static str)
    ensures
        s@ == ":MEASure:ITEM VAVG,CHANnel1"@,
{
    ":MEASure:ITEM VAVG,CHANnel1"
}

/// The query that reads the mean voltage on channel 1, e.g. `-4.2016E-04`.
pub fn voltage_query() -> (s: &'static str)
    ensures
        s@ == ":MEASure:ITEM? VAVG,CHANnel1"@,
{
    ":MEASure:ITEM? VAVG,CHANnel1"
}

/// The query that reads channel 1's vertical scale.
pub fn vertical_scale_query() -> (s: &'static str)
    ensures
        s@ == ":CHANnel1:SCALe?"@,
{
    ":CHANnel1:SCALe?"
}

/// The commands that reset the scope, making it ready for use, in order.
pub open spec fn reset_commands_spec() -> Seq<Seq<char>> {
    seq![
        ":STOP"@,
        ":MEASure:CLEar"@,
        ":CLEar"@,
        ":CHANnel1:DISPLAY OFF"@,
        ":CHANnel2:DISPLAY OFF"@,
        ":CHANnel3:DISPLAY OFF"@,
        ":CHANnel4:DISPLAY OFF"@,
        ":TIMebase:SCALe 0.002"@,
        ":CHANnel1:DISPLAY ON"@,
        ":CHANnel1:OFFSet 0"@,
        ":CHANnel1:SCALe 0.01"@,
        ":RUN"@,
    ]
}

/// The commands that reset the scope, making it ready for use, in order:
/// stop it, clear all measurements and the screen, turn off all channels,
/// set the horizontal scale to 2 ms/div, show channel 1 with an offset of
/// 0 V and a vertical scale of 10 mV/div, and run it.
pub fn reset_commands() -> (r: Vec<&'static str>)
    ensures
        r@.len() == reset_commands_spec().len(),
        forall|i: int| 0 <= i < r@.len() ==> #[trigger] r@[i]@ == reset_commands_spec()[i],
{
    let mut r: Vec<&'static str> = Vec::new();
    // Stop the scope
    r.push(":STOP");
    // Clear all measurements
    r.push(":MEASure:CLEar");
    // Clear the screen
    r.push(":CLEar");
    // Turn off all channels
    r.push(":CHANnel1:DISPLAY OFF");
    r.push(":CHANnel2:DISPLAY OFF");
    r.push(":CHANnel3:DISPLAY OFF");
    r.push(":CHANnel4:DISPLAY OFF");
    // Set the horizontal scale to 2 ms/div
    r.push(":TIMebase:SCALe 0.002");
    // Show channel 1
    r.push(":CHANnel1:DISPLAY ON");
    // Set the offset of channel 1 to 0 V
    r.push(":CHANnel1:OFFSet 0");
    // Set the vertical scale of channel 1 to 10 mV/div
    r.push(":CHANnel1:SCALe 0.01");
    // Run the scope
    r.push(":RUN");
    r
}

} // verus!
