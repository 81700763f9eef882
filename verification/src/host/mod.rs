//! The host side of the vacuum rig: the serial protocol to the controller and
//! the instruments reached through it or over USBTMC.
pub mod controller;
pub mod adc;
pub mod tmp;
pub mod power_supply;
pub mod oscilloscope;
pub mod vacuum_control;

use vstd::prelude::*;

verus! {

/// The error of reading a floating-point number from text. Readings that are
/// floating-point numbers are parsed outside this library; their failures are
/// carried through its error types.
#[verifier::external_type_specification]
#[verifier::external_body]
pub struct ExParseFloatError(core::num::ParseFloatError);

} // verus!
