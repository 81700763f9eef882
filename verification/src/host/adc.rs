//! The Edwards ADC MkII pressure gauge controller: its error numbers, its
//! pressure units and the format of its pressure readings.
//!
//! Only some commands and queries are implemented. See the controller manual
//! for a list of all supported commands and queries.
use crate::controller_error::ControllerError;
use crate::text::{
    byte_piece, byte_slice,
    parse_i32, parse_i32_spec, push_decimal, decimal, starts_with, starts_with_spec, str_eq,
    to_string,
};
use vstd::prelude::*;
use vstd::utf8::{
    encode_utf8, encode_utf8_valid_utf8, is_char_boundary, is_char_boundary_start_end_of_seq,
};

verus! {

/// The query that reads the ADC's pressure unit.
pub fn unit_query() -> (s: &'static str)
    ensures
        s@ == "?US"@,
{
    "?US"
}

/// An error returned from the ADC.
///
/// See section 13.1 of the Edwards ADC manual for detailed error descriptions.
#[derive(Clone, Debug, PartialEq, Eq)]
pub enum AdcError {
    /// An error returned from the vacuum system controller.
    ///
    /// Note that this isn't an error returned from the ADC, but may be
    /// encountered when we try to communicate with it (e.g. a timeout).
    Controller(ControllerError),

    // Controller errors
    Eeprom,
    IdReference,

    // Gauge errors
    /// "No error": how the ADC confirms a command.
    NoError,
    GaugeVoltageTooHigh,
    GaugeVoltageTooLow,
    AimGaugeNotStriking,
    WrgPirani,
    WrgInvertedMagnetronContaminatedOrShorted,
    WrgStrikerFilamentBroken,
    WrgInvertedMagnetronNotStruck,
    ApgxFilamentBroken,
    ApgxCalibration,
    ApgxTubeDisconnected,

    // RS-232 errors
    InvalidQueryOrCommand,
    MessageIncomplete,
    MessageTooLong,
    InvalidGaugeNumber,
    InvalidNumberFormat,
    InvalidPressureFormat,
    NoGaugeConnected,
    UnknownGaugeType,
    GaugeNotReadingPressure,
    AimGaugeStriking,
    InvalidGaugeType,
    GaugeTurnOnInhibitedByLink,

    // Custom errors
    /// The ADC reported a pressure unit this doesn't know.
    InvalidPressureUnit(String),

    /// A catch all error for anything else we might receive.
    Unknown(String),
}

/// The error an ADC error number denotes, or `None` for a number it doesn't
/// know.
pub open spec fn error_for_number(n: Seq<char>) -> Option<AdcError> {
    if n == "00"@ {
        Some(AdcError::NoError)
    } else if n == "01"@ {
        Some(AdcError::Eeprom)
    } else if n == "02"@ {
        Some(AdcError::IdReference)
    } else if n == "11"@ {
        Some(AdcError::GaugeVoltageTooHigh)
    } else if n == "12"@ {
        Some(AdcError::GaugeVoltageTooLow)
    } else if n == "13"@ {
        Some(AdcError::AimGaugeNotStriking)
    } else if n == "21"@ {
        Some(AdcError::WrgPirani)
    } else if n == "22"@ {
        Some(AdcError::WrgInvertedMagnetronContaminatedOrShorted)
    } else if n == "23"@ {
        Some(AdcError::WrgStrikerFilamentBroken)
    } else if n == "24"@ {
        Some(AdcError::WrgInvertedMagnetronNotStruck)
    } else if n == "25"@ {
        Some(AdcError::ApgxFilamentBroken)
    } else if n == "26"@ {
        Some(AdcError::ApgxCalibration)
    } else if n == "27"@ {
        Some(AdcError::ApgxTubeDisconnected)
    } else if n == "51"@ {
        Some(AdcError::InvalidQueryOrCommand)
    } else if n == "52"@ {
        Some(AdcError::MessageIncomplete)
    } else if n == "53"@ {
        Some(AdcError::MessageTooLong)
    } else if n == "54"@ {
        Some(AdcError::InvalidGaugeNumber)
    } else if n == "57"@ {
        Some(AdcError::InvalidNumberFormat)
    } else if n == "58"@ {
        Some(AdcError::InvalidPressureFormat)
    } else if n == "81"@ {
        Some(AdcError::NoGaugeConnected)
    } else if n == "82"@ {
        Some(AdcError::UnknownGaugeType)
    } else if n == "83"@ {
        Some(AdcError::GaugeNotReadingPressure)
    } else if n == "84"@ {
        Some(AdcError::AimGaugeStriking)
    } else if n == "90"@ {
        Some(AdcError::InvalidGaugeType)
    } else if n == "91"@ {
        Some(AdcError::GaugeTurnOnInhibitedByLink)
    } else {
        None
    }
}

/// Whether `e` is what the error number `n` denotes.
pub open spec fn is_error_for_number(e: AdcError, n: Seq<char>) -> bool {
    match error_for_number(n) {
        Some(known) => e == known,
        None => e matches AdcError::Unknown(s) && s@ == n,
    }
}

impl AdcError {
    /// The error the ADC reports with `error_number`.
    pub fn from_error_number(error_number: &str) -> (r: AdcError)
        ensures
            is_error_for_number(r, error_number@),
    {
        let n = error_number;
        if str_eq(n, "00") {
            AdcError::NoError
        } else if str_eq(n, "01") {
            AdcError::Eeprom
        } else if str_eq(n, "02") {
            AdcError::IdReference
        } else if str_eq(n, "11") {
            AdcError::GaugeVoltageTooHigh
        } else if str_eq(n, "12") {
            AdcError::GaugeVoltageTooLow
        } else if str_eq(n, "13") {
            AdcError::AimGaugeNotStriking
        } else if str_eq(n, "21") {
            AdcError::WrgPirani
        } else if str_eq(n, "22") {
            AdcError::WrgInvertedMagnetronContaminatedOrShorted
        } else if str_eq(n, "23") {
            AdcError::WrgStrikerFilamentBroken
        } else if str_eq(n, "24") {
            AdcError::WrgInvertedMagnetronNotStruck
        } else if str_eq(n, "25") {
            AdcError::ApgxFilamentBroken
        } else if str_eq(n, "26") {
            AdcError::ApgxCalibration
        } else if str_eq(n, "27") {
            AdcError::ApgxTubeDisconnected
        } else if str_eq(n, "51") {
            AdcError::InvalidQueryOrCommand
        } else if str_eq(n, "52") {
            AdcError::MessageIncomplete
        } else if str_eq(n, "53") {
            AdcError::MessageTooLong
        } else if str_eq(n, "54") {
            AdcError::InvalidGaugeNumber
        } else if str_eq(n, "57") {
            AdcError::InvalidNumberFormat
        } else if str_eq(n, "58") {
            AdcError::InvalidPressureFormat
        } else if str_eq(n, "81") {
            AdcError::NoGaugeConnected
        } else if str_eq(n, "82") {
            AdcError::UnknownGaugeType
        } else if str_eq(n, "83") {
            AdcError::GaugeNotReadingPressure
        } else if str_eq(n, "84") {
            AdcError::AimGaugeStriking
        } else if str_eq(n, "90") {
            AdcError::InvalidGaugeType
        } else if str_eq(n, "91") {
            AdcError::GaugeTurnOnInhibitedByLink
        } else {
            AdcError::Unknown(to_string(n))
        }
    }
}

/// What the ADC's answer to a command means: an `Err` followed by an error
/// number is that error, anything else is the response. The error number is
/// bytes 3 and 4, as `&response[3..5]` counts them.
pub open spec fn check_response_spec(response: Seq<char>, e: Result<String, AdcError>) -> bool {
    if starts_with_spec(response, "Err"@) {
        e matches Err(err) && is_error_for_number(err, byte_piece(response, 3, 5))
    } else {
        e matches Ok(s) && s@ == response
    }
}

/// Whether the error number of an `Err` answer can be cut out of it: the
/// answer has five bytes or more, and characters start at bytes 3 and 5.
pub open spec fn error_number_readable(response: Seq<char>) -> bool {
    starts_with_spec(response, "Err"@) ==> encode_utf8(response).len() >= 5 && is_char_boundary(
        encode_utf8(response),
        3,
    ) && is_char_boundary(encode_utf8(response), 5)
}

/// Whether the error number of `response` can be cut out of it.
pub fn is_error_number_readable(response: &str) -> (r: bool)
    ensures
        r == error_number_readable(response@),
{
    if !starts_with(response, "Err") {
        return true;
    }
    response.as_bytes().len() >= 5 && response.is_char_boundary(3) && response.is_char_boundary(5)
}

/// Turns the ADC's `Err` answers into the errors their numbers denote.
pub fn check_response(response: String) -> (r: Result<String, AdcError>)
    requires
        error_number_readable(response@),
    ensures
        check_response_spec(response@, r),
{
    if starts_with(response.as_str(), "Err") {
        let number = byte_slice(response.as_str(), 3, 5);
        return Err(AdcError::from_error_number(number));
    }
    Ok(response)
}

/// The unit in which pressure is being reported by the ADC.
#[derive(Clone, Copy, Debug, PartialEq, Eq, Structural)]
pub enum PressureUnit {
    Millibar,
    Pascal,
    Torr,
    Volt,
}

impl PressureUnit {
    /// The number the ADC uses for the unit.
    pub open spec fn number(self) -> Seq<char> {
        match self {
            PressureUnit::Volt => "0"@,
            PressureUnit::Millibar => "1"@,
            PressureUnit::Pascal => "2"@,
            PressureUnit::Torr => "3"@,
        }
    }

    /// The number the ADC uses for the unit.
    pub fn unit_number(&self) -> (s: &'static str)
        ensures
            s@ == self.number(),
    {
        match self {
            PressureUnit::Volt => "0",
            PressureUnit::Millibar => "1",
            PressureUnit::Pascal => "2",
            PressureUnit::Torr => "3",
        }
    }

    /// The unit's symbol, as a pressure in it is shown.
    pub open spec fn symbol_spec(self) -> Seq<char> {
        match self {
            PressureUnit::Millibar => "mbar"@,
            PressureUnit::Pascal => "Pa"@,
            PressureUnit::Torr => "Torr"@,
            PressureUnit::Volt => "V"@,
        }
    }

    /// The unit's symbol, as a pressure in it is shown.
    pub fn symbol(&self) -> (s: &'static str)
        ensures
            s@ == self.symbol_spec(),
    {
        match self {
            PressureUnit::Millibar => "mbar",
            PressureUnit::Pascal => "Pa",
            PressureUnit::Torr => "Torr",
            PressureUnit::Volt => "V",
        }
    }

    /// The unit the ADC's answer to `?US` names, if it names one.
    pub open spec fn from_number_spec(s: Seq<char>) -> Option<PressureUnit> {
        if s == "0"@ {
            Some(PressureUnit::Volt)
        } else if s == "1"@ {
            Some(PressureUnit::Millibar)
        } else if s == "2"@ {
            Some(PressureUnit::Pascal)
        } else if s == "3"@ {
            Some(PressureUnit::Torr)
        } else {
            None
        }
    }
}

/// The pressure unit the ADC is known to be using, which is learnt the first
/// time the units are read or written.
#[derive(Clone, Copy, Debug, PartialEq, Eq, Structural)]
pub struct AdcState {
    /// The pressure unit currently being used by the ADC.
    ///
    /// Starts as `None` and is set when we first read/write the units.
    pub pressure_unit: Option<PressureUnit>,
}

impl AdcState {
    /// A state in which the unit isn't known yet.
    pub fn new() -> (r: Self)
        ensures
            r.pressure_unit is None,
    {
        AdcState { pressure_unit: None }
    }

    /// Whether the ADC has to be asked for its unit (with `unit_query()`) before
    /// a pressure can be read.
    pub fn needs_unit_query(&self) -> (r: bool)
        ensures
            r == self.pressure_unit is None,
    {
        self.pressure_unit.is_none()
    }

    /// Takes in the ADC's answer to `unit_query()`, remembering the unit it
    /// names.
    pub fn record_unit_response(&mut self, response: String) -> (r: Result<PressureUnit, AdcError>)
        ensures
            match PressureUnit::from_number_spec(response@) {
                Some(u) => r == Ok::<PressureUnit, AdcError>(u) && final(self).pressure_unit
                    == Some(u),
                None => r matches Err(AdcError::InvalidPressureUnit(s)) && s@ == response@ && *final(self) == *old(self),
            },
    {
        let s = response.as_str();
        let unit = if str_eq(s, "0") {
            PressureUnit::Volt
        } else if str_eq(s, "1") {
            PressureUnit::Millibar
        } else if str_eq(s, "2") {
            PressureUnit::Pascal
        } else if str_eq(s, "3") {
            PressureUnit::Torr
        } else {
            return Err(AdcError::InvalidPressureUnit(response));
        };
        self.pressure_unit = Some(unit);
        Ok(unit)
    }

    /// Takes in the outcome of `unit_command(unit)`: the ADC confirms the
    /// change by answering with the error `NoError` ("no error"); any other answer
    /// is a failure. The unit is remembered only on success.
    pub fn finish_set_unit(&mut self, unit: PressureUnit, outcome: Result<String, AdcError>) -> (r:
        Result<(), AdcError>)
        ensures
            match outcome {
                Ok(response) => r matches Err(AdcError::Unknown(s)) && s@ == response@ && *final(self) == *old(self),
                Err(AdcError::NoError) => r is Ok && final(self).pressure_unit == Some(unit),
                Err(e) => r == Err::<(), AdcError>(e) && *final(self) == *old(self),
            },
    {
        match outcome {
            Ok(response) => Err(AdcError::Unknown(response)),
            Err(AdcError::NoError) => {
                self.pressure_unit = Some(unit);
                Ok(())
            },
            Err(e) => Err(e),
        }
    }
}

/// The command that sets the ADC's pressure unit: `!US` and the unit's number.
pub fn unit_command(unit: PressureUnit) -> (r: String)
    ensures
        r@ == "!US"@ + unit.number(),
{
    let mut c = String::from_str("!US");
    c.append(unit.unit_number());
    c
}

/// The query that reads the pressure of gauge `gauge_number`: `?GA` and the
/// gauge number.
pub fn pressure_query(gauge_number: u8) -> (r: String)
    ensures
        r@ == "?GA"@ + decimal(gauge_number as nat),
{
    let mut c = String::from_str("?GA");
    push_decimal(&mut c, gauge_number as u64);
    c
}

/// The parts of a pressure reading, as the ADC sends it in its current unit.
#[derive(Clone, Debug, PartialEq, Eq)]
pub enum PressureText {
    /// A pressure in volts: a plain decimal number.
    Volts(String),

    /// A pressure in any other unit: `mantissa × 10^exponent`, sent as eight
    /// characters such as `1.00E-03`.
    Scientific { mantissa: String, exponent: i32 },
}

/// Whether `r` is what a pressure reading `response` in `unit` splits into.
///
/// Positions are byte positions, as `&response[..4]` and `&response[5..]`
/// count them.
pub open spec fn split_pressure_spec(
    unit: PressureUnit,
    response: Seq<char>,
    r: Result<PressureText, AdcError>,
) -> bool {
    if unit == PressureUnit::Volt {
        r matches Ok(PressureText::Volts(s)) && s@ == response
    } else if encode_utf8(response).len() == 8 && parse_i32_spec(byte_piece(response, 5, 8)) is Some {
        r matches Ok(PressureText::Scientific { mantissa, exponent }) && mantissa@ == byte_piece(
            response,
            0,
            4,
        ) && Some(exponent as int) == parse_i32_spec(byte_piece(response, 5, 8))
    } else {
        r == Err::<PressureText, AdcError>(AdcError::InvalidPressureFormat)
    }
}

/// Whether a reading in `unit` can be cut into its parts: one in volts is
/// never cut, and one of eight bytes in any other unit must have characters
/// starting at bytes 4 and 5, where the mantissa ends and the exponent
/// begins.
pub open spec fn pressure_readable(unit: PressureUnit, response: Seq<char>) -> bool {
    unit != PressureUnit::Volt && encode_utf8(response).len() == 8 ==> is_char_boundary(
        encode_utf8(response),
        4,
    ) && is_char_boundary(encode_utf8(response), 5)
}

/// Whether a reading `response` in `unit` can be cut into its parts.
pub fn is_pressure_readable(unit: PressureUnit, response: &str) -> (r: bool)
    ensures
        r == pressure_readable(unit, response@),
{
    if let PressureUnit::Volt = unit {
        return true;
    }
    if response.as_bytes().len() != 8 {
        return true;
    }
    response.is_char_boundary(4) && response.is_char_boundary(5)
}

/// Splits a pressure reading in `unit` into its parts, checking its format.
///
/// Pressures in volts are a plain number. Every other unit has the same
/// eight-byte format: four bytes of mantissa, a separator, and a signed
/// exponent. The mantissa is still text: a mantissa that isn't a number is
/// reported as `InvalidPressureFormat` once it's read as one.
pub fn split_pressure(unit: PressureUnit, response: String) -> (r: Result<PressureText, AdcError>)
    requires
        pressure_readable(unit, response@),
    ensures
        split_pressure_spec(unit, response@, r),
{
    if let PressureUnit::Volt = unit {
        return Ok(PressureText::Volts(response));
    }
    let s = response.as_str();
    if s.as_bytes().len() != 8 {
        return Err(AdcError::InvalidPressureFormat);
    }
    proof {
        encode_utf8_valid_utf8(s@);
        is_char_boundary_start_end_of_seq(encode_utf8(s@));
    }
    let mantissa = to_string(byte_slice(s, 0, 4));
    match parse_i32(byte_slice(s, 5, 8)) {
        Some(exponent) => Ok(PressureText::Scientific { mantissa, exponent }),
        None => Err(AdcError::InvalidPressureFormat),
    }
}

} // verus!

verus! {

/// The unit read back from the ADC's answer to `unit_query()` is the unit
/// whose number the answer is: every unit is read back as itself from the
/// number `unit_command` sets it with, and no two units share a number.
pub proof fn lemma_unit_number_round_trip(u: PressureUnit, v: PressureUnit)
    ensures
        PressureUnit::from_number_spec(u.number()) == Some(u),
        u.number() == v.number() ==> u == v,
{
    reveal_strlit("0");
    reveal_strlit("1");
    reveal_strlit("2");
    reveal_strlit("3");
    assert("0"@[0] != "1"@[0] && "0"@[0] != "2"@[0] && "0"@[0] != "3"@[0]);
    assert("1"@[0] != "2"@[0] && "1"@[0] != "3"@[0] && "2"@[0] != "3"@[0]);
}

} // verus!

verus! {

impl From<ControllerError> for AdcError {
    fn from(e: ControllerError) -> (r: Self) {
        AdcError::Controller(e)
    }
}

impl vstd::std_specs::convert::FromSpecImpl<ControllerError> for AdcError {
    open spec fn obeys_from_spec() -> bool {
        true
    }

    open spec fn from_spec(e: ControllerError) -> Self {
        AdcError::Controller(e)
    }
}

} // verus!
