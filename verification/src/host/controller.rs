//! The serial protocol between the host and the vacuum system controller.
//!
//! A command is a three letter destination, a colon, the command, and `\r\n`.
//! The controller answers with the destination's response and `\r\n`, or with
//! `ERR:` and the name of what went wrong.
use crate::controller_error::{error_response_body, lemma_name_round_trip, ControllerError};
use crate::text::{lemma_encode_utf8_concat, starts_with, starts_with_spec, string_from_utf8};
use vstd::prelude::*;
use vstd::utf8::{decode_utf8, encode_utf8, encode_utf8_decode_utf8, encode_utf8_valid_utf8, valid_utf8};

verus! {

/// The destination for a command sent to the controller.
#[derive(Clone, Copy, Debug, PartialEq, Eq, Structural)]
#[allow(clippy::upper_case_acronyms)]
pub enum Destination {
    /// The Edwards ADC MkII pressure gauge controller.
    ADC,

    /// The polarity relays of the filament supply.
    RLY,

    /// The Pfeiffer TC 600 TMP controller.
    TMP,
}

impl Destination {
    /// The destination's prefix.
    pub open spec fn prefix(self) -> Seq<char> {
        match self {
            Destination::ADC => "ADC"@,
            Destination::RLY => "RLY"@,
            Destination::TMP => "TMP"@,
        }
    }

    /// The destination's prefix, as a command to the controller carries it.
    pub fn as_str(&self) -> (s: &'static str)
        ensures
            s@ == self.prefix(),
    {
        match self {
            Destination::ADC => "ADC",
            Destination::RLY => "RLY",
            Destination::TMP => "TMP",
        }
    }
}

/// The line sent to the controller for `command` to `destination`.
pub open spec fn command_line(destination: Destination, command: Seq<char>) -> Seq<char> {
    destination.prefix() + ":"@ + command + "\r\n"@
}

/// Frames `command` for `destination`: the prefix, a colon, the command and
/// the `\r\n` terminator.
pub fn frame_command(destination: Destination, command: &str) -> (r: String)
    ensures
        r@ == command_line(destination, command@),
{
    let mut line = String::from_str(destination.as_str());
    line.append(":");
    line.append(command);
    line.append("\r\n");
    line
}

/// Whether a response read so far ends with the `\r\n` terminator.
pub open spec fn is_terminated(response: Seq<u8>) -> bool {
    response.len() >= 2 && response[response.len() - 2] == 13 && response[response.len() - 1] == 10
}

/// Whether `response` ends with the `\r\n` terminator, so reading can stop.
pub fn is_response_complete(response: &[u8]) -> (r: bool)
    ensures
        r == is_terminated(response@),
{
    let n = response.len();
    n >= 2 && response[n - 2] == 13 && response[n - 1] == 10
}

/// What the controller's answer means once its terminator is removed: an
/// error if it begins with `ERR:`, otherwise the response itself.
pub open spec fn answer_spec(text: Seq<char>) -> Result<Seq<char>, ControllerError> {
    if starts_with_spec(text, "ERR:"@) {
        Err(ControllerError::from_name_spec(text.skip(4)))
    } else {
        Ok(text)
    }
}

/// What a complete response from the controller means: its body (without
/// the terminator) decoded as UTF-8 and read by `answer_spec`.
pub open spec fn response_spec(response: Seq<u8>) -> Result<Seq<char>, ControllerError> {
    let body = response.take(response.len() - 2);
    if !valid_utf8(body) {
        Err(ControllerError::ResponseNotUtf8)
    } else {
        answer_spec(decode_utf8(body))
    }
}

/// Interprets a complete response from the controller: removes the `\r\n`
/// terminator, decodes UTF-8, and turns an `ERR:` response into the error it
/// names.
pub fn parse_response(response: Vec<u8>) -> (r: Result<String, ControllerError>)
    requires
        is_terminated(response@),
    ensures
        match response_spec(response@) {
            Ok(text) => r matches Ok(s) && s@ == text,
            Err(e) => r == Err::<String, ControllerError>(e),
        },
{
    let mut response = response;
    let n = response.len();
    response.truncate(n - 2);
    let text = match string_from_utf8(response) {
        Some(text) => text,
        None => return Err(ControllerError::ResponseNotUtf8),
    };
    answer(text)
}

/// Turns an `ERR:` answer from the controller into the error it names.
pub fn answer(text: String) -> (r: Result<String, ControllerError>)
    ensures
        match answer_spec(text@) {
            Ok(t) => r matches Ok(s) && s@ == t,
            Err(e) => r == Err::<String, ControllerError>(e),
        },
{
    proof {
        reveal_strlit("ERR:");
    }
    if starts_with(text.as_str(), "ERR:") {
        let len = text.as_str().unicode_len();
        let name = text.as_str().substring_char(4, len);
        assert(name@ =~= text@.skip(4));
        return Err(ControllerError::from_name(name));
    }
    Ok(text)
}

/// Whatever error the firmware reports, the host reads back that same error
/// from the bytes it receives.
pub proof fn lemma_error_read_back(e: ControllerError)
    ensures
        is_terminated(encode_utf8(error_response_body(e) + "\r\n"@)),
        response_spec(encode_utf8(error_response_body(e) + "\r\n"@)) == Err::<Seq<char>, ControllerError>(e),
{
    let body = error_response_body(e);
    reveal_strlit("\r\n");
    reveal_strlit("ERR:");
    lemma_encode_utf8_concat(body, "\r\n"@);
    let tail = encode_utf8("\r\n"@);
    assert("\r\n"@.drop_first().drop_first() =~= Seq::<char>::empty());
    assert((13u32 & 0x7f) as u8 == 13u8) by (bit_vector);
    assert((10u32 & 0x7f) as u8 == 10u8) by (bit_vector);
    assert(encode_utf8("\r\n"@.drop_first().drop_first()) =~= Seq::<u8>::empty());
    assert(encode_utf8("\r\n"@.drop_first()) =~= seq![10u8]);
    assert(tail =~= seq![13u8, 10u8]);
    let bytes = encode_utf8(body + "\r\n"@);
    assert(bytes.take(bytes.len() - 2) =~= encode_utf8(body));
    encode_utf8_valid_utf8(body);
    encode_utf8_decode_utf8(body);
    assert(body.take(4) =~= "ERR:"@);
    assert(body.skip(4) =~= e.name());
    lemma_name_round_trip(e);
}

} // verus!
