//! The errors the vacuum system controller reports, shared by its firmware
//! and the host that talks to it.
use crate::text::str_eq;
use vstd::prelude::*;

verus! {

/// The maximum USB packet size that can be read or written. For full-speed
/// devices (like the Raspberry Pi Pico 2) this must be 8, 16, 32 or 64.
pub const USB_MAX_PACKET_SIZE: u8 = 64;

/// A vacuum system controller error.
#[derive(Clone, Copy, Debug, PartialEq, Eq, Structural)]
pub enum ControllerError {
    /// A command was missing a destination prefix.
    ///
    /// Each command must include a three letter destination prefix followed by
    /// a colon (e.g. "ADC:?GA1\r").
    CommandMissingDestination,

    /// The USB host took too long to send a command.
    CommandTimeout,

    /// A command was too long.
    ///
    /// The maximum length is the length of the firmware's command buffer.
    CommandTooLong,

    /// A command was too short.
    ///
    /// Each command must include a three letter destination prefix, a colon,
    /// at least one letter, and a terminator, making a minimum of 6
    /// characters.
    CommandTooShort,

    /// The USB host disconnected.
    Disconnected,

    /// A response wasn't valid UTF-8.
    ResponseNotUtf8,

    /// One of the devices took too long to send a response.
    ResponseTimeout,

    /// One of the devices sent a response that was too long.
    ///
    /// The maximum length is the length of the firmware's response buffer.
    ResponseTooLong,

    /// An unknown error.
    Unknown,

    /// A command contained an unknown destination prefix.
    UnknownDestination,
}

impl ControllerError {
    /// The name the controller reports the error by.
    pub open spec fn name(self) -> Seq<char> {
        match self {
            ControllerError::CommandMissingDestination => "COMMAND_MISSING_DESTINATION"@,
            ControllerError::CommandTimeout => "COMMAND_TIMEOUT"@,
            ControllerError::CommandTooLong => "COMMAND_TOO_LONG"@,
            ControllerError::CommandTooShort => "COMMAND_TOO_SHORT"@,
            ControllerError::Disconnected => "DISCONNECTED"@,
            ControllerError::ResponseNotUtf8 => "RESPONSE_NOT_UTF8"@,
            ControllerError::ResponseTimeout => "RESPONSE_TIMEOUT"@,
            ControllerError::ResponseTooLong => "RESPONSE_TOO_LONG"@,
            ControllerError::Unknown => "UNKNOWN"@,
            ControllerError::UnknownDestination => "UNKNOWN_DESTINATION"@,
        }
    }

    /// The error a name denotes; any name that isn't one of the errors'
    /// denotes `Unknown`.
    pub open spec fn from_name_spec(s: Seq<char>) -> ControllerError {
        if s == "COMMAND_MISSING_DESTINATION"@ {
            ControllerError::CommandMissingDestination
        } else if s == "COMMAND_TIMEOUT"@ {
            ControllerError::CommandTimeout
        } else if s == "COMMAND_TOO_LONG"@ {
            ControllerError::CommandTooLong
        } else if s == "COMMAND_TOO_SHORT"@ {
            ControllerError::CommandTooShort
        } else if s == "DISCONNECTED"@ {
            ControllerError::Disconnected
        } else if s == "RESPONSE_NOT_UTF8"@ {
            ControllerError::ResponseNotUtf8
        } else if s == "RESPONSE_TIMEOUT"@ {
            ControllerError::ResponseTimeout
        } else if s == "RESPONSE_TOO_LONG"@ {
            ControllerError::ResponseTooLong
        } else if s == "UNKNOWN_DESTINATION"@ {
            ControllerError::UnknownDestination
        } else {
            ControllerError::Unknown
        }
    }

    /// The name the controller reports the error by, as its `Display` shows
    /// it.
    pub fn as_str(&self) -> (s: &'static str)
        ensures
            s@ == self.name(),
    {
        match self {
            ControllerError::CommandMissingDestination => "COMMAND_MISSING_DESTINATION",
            ControllerError::CommandTimeout => "COMMAND_TIMEOUT",
            ControllerError::CommandTooLong => "COMMAND_TOO_LONG",
            ControllerError::CommandTooShort => "COMMAND_TOO_SHORT",
            ControllerError::Disconnected => "DISCONNECTED",
            ControllerError::ResponseNotUtf8 => "RESPONSE_NOT_UTF8",
            ControllerError::ResponseTimeout => "RESPONSE_TIMEOUT",
            ControllerError::ResponseTooLong => "RESPONSE_TOO_LONG",
            ControllerError::Unknown => "UNKNOWN",
            ControllerError::UnknownDestination => "UNKNOWN_DESTINATION",
        }
    }

    /// The error named `s`, as the host reads it back from the controller.
    pub fn from_name(s: &str) -> (e: ControllerError)
        ensures
            e == Self::from_name_spec(s@),
    {
        if str_eq(s, "COMMAND_MISSING_DESTINATION") {
            ControllerError::CommandMissingDestination
        } else if str_eq(s, "COMMAND_TIMEOUT") {
            ControllerError::CommandTimeout
        } else if str_eq(s, "COMMAND_TOO_LONG") {
            ControllerError::CommandTooLong
        } else if str_eq(s, "COMMAND_TOO_SHORT") {
            ControllerError::CommandTooShort
        } else if str_eq(s, "DISCONNECTED") {
            ControllerError::Disconnected
        } else if str_eq(s, "RESPONSE_NOT_UTF8") {
            ControllerError::ResponseNotUtf8
        } else if str_eq(s, "RESPONSE_TIMEOUT") {
            ControllerError::ResponseTimeout
        } else if str_eq(s, "RESPONSE_TOO_LONG") {
            ControllerError::ResponseTooLong
        } else if str_eq(s, "UNKNOWN_DESTINATION") {
            ControllerError::UnknownDestination
        } else {
            ControllerError::Unknown
        }
    }

    /// What the firmware sends the host for this error: `ERR:`, the error's
    /// name, and the `\r\n` terminator.
    pub fn to_response(&self) -> (r: String)
        ensures
            r@ == error_response_body(*self) + "\r\n"@,
    {
        let mut r = String::from_str("ERR:");
        r.append(self.as_str());
        r.append("\r\n");
        r
    }
}

impl core::str::FromStr for ControllerError {
    type Err = ControllerError;

    /// The error named `s`: every name reads back as an error, and one the
    /// controller doesn't report reads as `Unknown`.
    fn from_str(s: &str) -> (r: Result<Self, Self::Err>)
        ensures
            r == Ok::<ControllerError, ControllerError>(ControllerError::from_name_spec(s@)),
    {
        Ok(ControllerError::from_name(s))
    }
}

/// What the firmware sends for `e`, without the terminator.
pub open spec fn error_response_body(e: ControllerError) -> Seq<char> {
    "ERR:"@ + e.name()
}

/// Every error is read back as itself from its name.
pub proof fn lemma_name_round_trip(e: ControllerError)
    ensures
        ControllerError::from_name_spec(e.name()) == e,
{
    match e {
        ControllerError::CommandMissingDestination => {

        },
        ControllerError::CommandTimeout => {
            reveal_strlit("COMMAND_TIMEOUT");
            reveal_strlit("COMMAND_MISSING_DESTINATION");
            assert("COMMAND_TIMEOUT"@.len() != "COMMAND_MISSING_DESTINATION"@.len());
        },
        ControllerError::CommandTooLong => {
            reveal_strlit("COMMAND_TOO_LONG");
            reveal_strlit("COMMAND_MISSING_DESTINATION");
            assert("COMMAND_TOO_LONG"@.len() != "COMMAND_MISSING_DESTINATION"@.len());
            reveal_strlit("COMMAND_TOO_LONG");
            reveal_strlit("COMMAND_TIMEOUT");
            assert("COMMAND_TOO_LONG"@.len() != "COMMAND_TIMEOUT"@.len());
        },
        ControllerError::CommandTooShort => {
            reveal_strlit("COMMAND_TOO_SHORT");
            reveal_strlit("COMMAND_MISSING_DESTINATION");
            assert("COMMAND_TOO_SHORT"@.len() != "COMMAND_MISSING_DESTINATION"@.len());
            reveal_strlit("COMMAND_TOO_SHORT");
            reveal_strlit("COMMAND_TIMEOUT");
            assert("COMMAND_TOO_SHORT"@.len() != "COMMAND_TIMEOUT"@.len());
            reveal_strlit("COMMAND_TOO_SHORT");
            reveal_strlit("COMMAND_TOO_LONG");
            assert("COMMAND_TOO_SHORT"@.len() != "COMMAND_TOO_LONG"@.len());
        },
        ControllerError::Disconnected => {
            reveal_strlit("DISCONNECTED");
            reveal_strlit("COMMAND_MISSING_DESTINATION");
            assert("DISCONNECTED"@.len() != "COMMAND_MISSING_DESTINATION"@.len());
            reveal_strlit("DISCONNECTED");
            reveal_strlit("COMMAND_TIMEOUT");
            assert("DISCONNECTED"@.len() != "COMMAND_TIMEOUT"@.len());
            reveal_strlit("DISCONNECTED");
            reveal_strlit("COMMAND_TOO_LONG");
            assert("DISCONNECTED"@.len() != "COMMAND_TOO_LONG"@.len());
            reveal_strlit("DISCONNECTED");
            reveal_strlit("COMMAND_TOO_SHORT");
            assert("DISCONNECTED"@.len() != "COMMAND_TOO_SHORT"@.len());
        },
        ControllerError::ResponseNotUtf8 => {
            reveal_strlit("RESPONSE_NOT_UTF8");
            reveal_strlit("COMMAND_MISSING_DESTINATION");
            assert("RESPONSE_NOT_UTF8"@.len() != "COMMAND_MISSING_DESTINATION"@.len());
            reveal_strlit("RESPONSE_NOT_UTF8");
            reveal_strlit("COMMAND_TIMEOUT");
            assert("RESPONSE_NOT_UTF8"@.len() != "COMMAND_TIMEOUT"@.len());
            reveal_strlit("RESPONSE_NOT_UTF8");
            reveal_strlit("COMMAND_TOO_LONG");
            assert("RESPONSE_NOT_UTF8"@.len() != "COMMAND_TOO_LONG"@.len());
            reveal_strlit("RESPONSE_NOT_UTF8");
            reveal_strlit("COMMAND_TOO_SHORT");
            assert("RESPONSE_NOT_UTF8"@[0] != "COMMAND_TOO_SHORT"@[0]);
            reveal_strlit("RESPONSE_NOT_UTF8");
            reveal_strlit("DISCONNECTED");
            assert("RESPONSE_NOT_UTF8"@.len() != "DISCONNECTED"@.len());
        },
        ControllerError::ResponseTimeout => {
            reveal_strlit("RESPONSE_TIMEOUT");
            reveal_strlit("COMMAND_MISSING_DESTINATION");
            assert("RESPONSE_TIMEOUT"@.len() != "COMMAND_MISSING_DESTINATION"@.len());
            reveal_strlit("RESPONSE_TIMEOUT");
            reveal_strlit("COMMAND_TIMEOUT");
            assert("RESPONSE_TIMEOUT"@.len() != "COMMAND_TIMEOUT"@.len());
            reveal_strlit("RESPONSE_TIMEOUT");
            reveal_strlit("COMMAND_TOO_LONG");
            assert("RESPONSE_TIMEOUT"@[0] != "COMMAND_TOO_LONG"@[0]);
            reveal_strlit("RESPONSE_TIMEOUT");
            reveal_strlit("COMMAND_TOO_SHORT");
            assert("RESPONSE_TIMEOUT"@.len() != "COMMAND_TOO_SHORT"@.len());
            reveal_strlit("RESPONSE_TIMEOUT");
            reveal_strlit("DISCONNECTED");
            assert("RESPONSE_TIMEOUT"@.len() != "DISCONNECTED"@.len());
            reveal_strlit("RESPONSE_TIMEOUT");
            reveal_strlit("RESPONSE_NOT_UTF8");
            assert("RESPONSE_TIMEOUT"@.len() != "RESPONSE_NOT_UTF8"@.len());
        },
        ControllerError::ResponseTooLong => {
            reveal_strlit("RESPONSE_TOO_LONG");
            reveal_strlit("COMMAND_MISSING_DESTINATION");
            assert("RESPONSE_TOO_LONG"@.len() != "COMMAND_MISSING_DESTINATION"@.len());
            reveal_strlit("RESPONSE_TOO_LONG");
            reveal_strlit("COMMAND_TIMEOUT");
            assert("RESPONSE_TOO_LONG"@.len() != "COMMAND_TIMEOUT"@.len());
            reveal_strlit("RESPONSE_TOO_LONG");
            reveal_strlit("COMMAND_TOO_LONG");
            assert("RESPONSE_TOO_LONG"@.len() != "COMMAND_TOO_LONG"@.len());
            reveal_strlit("RESPONSE_TOO_LONG");
            reveal_strlit("COMMAND_TOO_SHORT");
            assert("RESPONSE_TOO_LONG"@[0] != "COMMAND_TOO_SHORT"@[0]);
            reveal_strlit("RESPONSE_TOO_LONG");
            reveal_strlit("DISCONNECTED");
            assert("RESPONSE_TOO_LONG"@.len() != "DISCONNECTED"@.len());
            reveal_strlit("RESPONSE_TOO_LONG");
            reveal_strlit("RESPONSE_NOT_UTF8");
            assert("RESPONSE_TOO_LONG"@[9] != "RESPONSE_NOT_UTF8"@[9]);
            reveal_strlit("RESPONSE_TOO_LONG");
            reveal_strlit("RESPONSE_TIMEOUT");
            assert("RESPONSE_TOO_LONG"@.len() != "RESPONSE_TIMEOUT"@.len());
        },
        ControllerError::UnknownDestination => {
            reveal_strlit("UNKNOWN_DESTINATION");
            reveal_strlit("COMMAND_MISSING_DESTINATION");
            assert("UNKNOWN_DESTINATION"@.len() != "COMMAND_MISSING_DESTINATION"@.len());
            reveal_strlit("UNKNOWN_DESTINATION");
            reveal_strlit("COMMAND_TIMEOUT");
            assert("UNKNOWN_DESTINATION"@.len() != "COMMAND_TIMEOUT"@.len());
            reveal_strlit("UNKNOWN_DESTINATION");
            reveal_strlit("COMMAND_TOO_LONG");
            assert("UNKNOWN_DESTINATION"@.len() != "COMMAND_TOO_LONG"@.len());
            reveal_strlit("UNKNOWN_DESTINATION");
            reveal_strlit("COMMAND_TOO_SHORT");
            assert("UNKNOWN_DESTINATION"@.len() != "COMMAND_TOO_SHORT"@.len());
            reveal_strlit("UNKNOWN_DESTINATION");
            reveal_strlit("DISCONNECTED");
            assert("UNKNOWN_DESTINATION"@.len() != "DISCONNECTED"@.len());
            reveal_strlit("UNKNOWN_DESTINATION");
            reveal_strlit("RESPONSE_NOT_UTF8");
            assert("UNKNOWN_DESTINATION"@.len() != "RESPONSE_NOT_UTF8"@.len());
            reveal_strlit("UNKNOWN_DESTINATION");
            reveal_strlit("RESPONSE_TIMEOUT");
            assert("UNKNOWN_DESTINATION"@.len() != "RESPONSE_TIMEOUT"@.len());
            reveal_strlit("UNKNOWN_DESTINATION");
            reveal_strlit("RESPONSE_TOO_LONG");
            assert("UNKNOWN_DESTINATION"@.len() != "RESPONSE_TOO_LONG"@.len());
        },
        ControllerError::Unknown => {
            reveal_strlit("UNKNOWN");
            reveal_strlit("COMMAND_MISSING_DESTINATION");
            assert("UNKNOWN"@.len() != "COMMAND_MISSING_DESTINATION"@.len());
            reveal_strlit("COMMAND_TIMEOUT");
            assert("UNKNOWN"@.len() != "COMMAND_TIMEOUT"@.len());
            reveal_strlit("COMMAND_TOO_LONG");
            assert("UNKNOWN"@.len() != "COMMAND_TOO_LONG"@.len());
            reveal_strlit("COMMAND_TOO_SHORT");
            assert("UNKNOWN"@.len() != "COMMAND_TOO_SHORT"@.len());
            reveal_strlit("DISCONNECTED");
            assert("UNKNOWN"@.len() != "DISCONNECTED"@.len());
            reveal_strlit("RESPONSE_NOT_UTF8");
            assert("UNKNOWN"@.len() != "RESPONSE_NOT_UTF8"@.len());
            reveal_strlit("RESPONSE_TIMEOUT");
            assert("UNKNOWN"@.len() != "RESPONSE_TIMEOUT"@.len());
            reveal_strlit("RESPONSE_TOO_LONG");
            assert("UNKNOWN"@.len() != "RESPONSE_TOO_LONG"@.len());
            reveal_strlit("UNKNOWN_DESTINATION");
            assert("UNKNOWN"@.len() != "UNKNOWN_DESTINATION"@.len());
        },
    }
}

} // verus!
