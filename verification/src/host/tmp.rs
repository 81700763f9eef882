//! The Pfeiffer TC 600 TMP controller's telegrams (the Pfeiffer Vacuum
//! Protocol over RS-485).
//!
//! A telegram is the pump's three-digit address, a two-digit action, a
//! three-digit parameter number, a two-digit data length, the data, and a
//! three-digit checksum: the sum of the preceding characters modulo 256.
//!
//! Only some parameters are supported. See the "Pumping Operations With DCU"
//! document for a full list of all parameters supported by the TC 600.
use crate::controller_error::ControllerError;
use crate::text::{
    byte_piece, byte_slice, lemma_ascii_piece, lemma_encode_len,
    all_ascii, is_ascii_char, all_digits, parse_i32, parse_i32_spec, parse_unsigned, parse_unsigned_spec, push_zero_padded,
    str_eq, to_string, zero_padded,
};
use vstd::prelude::*;
use vstd::utf8::{
    encode_utf8, encode_utf8_valid_utf8, is_char_boundary, is_char_boundary_start_end_of_seq,
};

verus! {

/// An error returned from the TMP.
#[derive(Clone, Debug, PartialEq, Eq)]
pub enum TmpError {
    /// An error returned from the vacuum system controller.
    ///
    /// Note that this isn't an error returned from the TMP, but may be
    /// encountered when we try to communicate with it (e.g. a timeout).
    Controller(ControllerError),

    // Telegram errors
    /// The parameter doesn't exist.
    InvalidParameter(String),
    /// A logic error.
    Logic,
    /// The value was outside the permitted range.
    ValueOutsideRange,

    // Custom errors
    /// A response's checksum didn't match its contents.
    InvalidChecksum,
    /// A response wasn't a well-formed answer to the command sent.
    InvalidResponse,
    /// A telegram contained a character outside ASCII.
    NonAsciiCharacter(char),
}

/// Describes the action of a telegram (command or response).
#[derive(Clone, Copy, Debug, PartialEq, Eq, Structural)]
pub enum Action {
    /// The telegram contains a description of a parameter (its value).
    ///
    /// When used in a command, this sets the value of a parameter. This is
    /// used in all responses to state the value of the parameter that was
    /// read/set.
    Describe,

    /// The telegram contains a request to read the value of a parameter.
    ///
    /// This can only be used in commands.
    Read,
}

impl Action {
    /// The action's two digits in a telegram.
    pub open spec fn code(self) -> Seq<char> {
        match self {
            Action::Describe => "10"@,
            Action::Read => "00"@,
        }
    }

    /// The action's two digits in a telegram.
    pub fn as_str(&self) -> (s: &'static str)
        ensures
            s@ == self.code(),
    {
        match self {
            Action::Describe => "10",
            Action::Read => "00",
        }
    }
}

/// The first character of `s` that isn't ASCII.
pub open spec fn first_non_ascii(s: Seq<char>) -> char {
    s[choose|i: int|
        0 <= i < s.len() && !is_ascii_char(#[trigger] s[i]) && forall|j: int|
            0 <= j < i ==> is_ascii_char(#[trigger] s[j])]
}

/// The sum of the character codes of `s`.
pub open spec fn char_sum(s: Seq<char>) -> int
    decreases s.len(),
{
    if s.len() == 0 {
        0
    } else {
        char_sum(s.drop_last()) + (s.last() as u32) as int
    }
}

/// The checksum of `s`: the sum of its character codes modulo 256, or the
/// first character that isn't ASCII, which can't be summed.
pub open spec fn checksum_spec(s: Seq<char>) -> Result<int, char> {
    if all_ascii(s) {
        Ok(char_sum(s) % 256)
    } else {
        Err(first_non_ascii(s))
    }
}

/// The longest text whose checksum can be summed in an `i32`.
pub const MAX_CHECKSUM_LEN: usize = 16_909_320;

/// Calculates the checksum of `s`: the sum of its character codes modulo 256.
/// Every character must be ASCII.
pub fn calculate_checksum(s: &str) -> (r: Result<i32, TmpError>)
    requires
        s@.len() <= MAX_CHECKSUM_LEN,
    ensures
        match checksum_spec(s@) {
            Ok(sum) => r == Ok::<i32, TmpError>(sum as i32),
            Err(c) => r == Err::<i32, TmpError>(TmpError::NonAsciiCharacter(c)),
        },
{
    let len = s.unicode_len();
    let mut checksum: i32 = 0;
    let mut i: usize = 0;
    while i < len
        invariant
            i <= len,
            len == s@.len(),
            len <= MAX_CHECKSUM_LEN,
            all_ascii(s@.take(i as int)),
            checksum == char_sum(s@.take(i as int)),
            0 <= checksum <= 127 * i,
        decreases len - i,
    {
        let c = s.get_char(i);
        if !((c as u32) < 128) {
            proof {
                assert forall|j: int| 0 <= j < i implies is_ascii_char(#[trigger] s@[j]) by {
                    assert(s@.take(i as int)[j] == s@[j]);
                }
                assert(s@[i as int] == c);
                assert(!is_ascii_char(s@[i as int]));
                let k = choose|k: int|
                    0 <= k < s@.len() && !is_ascii_char(#[trigger] s@[k]) && forall|j: int|
                        0 <= j < k ==> is_ascii_char(#[trigger] s@[j]);
                if k > i {
                    assert(is_ascii_char(s@[i as int]));
                }
                assert(k == i);
            }
            return Err(TmpError::NonAsciiCharacter(c));
        }
        assert(s@.take(i + 1).drop_last() =~= s@.take(i as int));
        checksum += c as u32 as i32;
        i += 1;
        assert(all_ascii(s@.take(i as int))) by {
            assert forall|j: int| 0 <= j < i implies is_ascii_char(#[trigger] s@.take(i as int)[j]) by {
                if j < i - 1 {
                    assert(s@.take(i as int)[j] == s@.take(i - 1)[j]);
                }
            }
        }
    }
    assert(s@.take(len as int) =~= s@);
    Ok(checksum % 256)
}

/// The telegram that carries `data` for parameter `parameter_number` with
/// `action` to the pump at `address`, or the first character that isn't
/// ASCII.
pub open spec fn telegram_spec(
    address: Seq<char>,
    action: Action,
    parameter_number: Seq<char>,
    data: Seq<char>,
) -> Result<Seq<char>, char> {
    let command = address + action.code() + parameter_number + zero_padded(data.len(), 2) + data;
    match checksum_spec(command) {
        Ok(sum) => Ok(command + zero_padded(sum as nat, 3)),
        Err(c) => Err(c),
    }
}

/// The largest combined length of the address, parameter number and data of
/// a telegram, which keeps its checksum within an `i32`.
pub const MAX_TELEGRAM_FIELDS_LEN: usize = 16_900_000;

/// Builds the telegram that carries `data` for `parameter_number` with
/// `action` to the pump at `address`.
pub fn encode_telegram(address: &str, action: Action, parameter_number: &str, data: &str) -> (r:
    Result<String, TmpError>)
    requires
        address@.len() + parameter_number@.len() + data@.len() <= MAX_TELEGRAM_FIELDS_LEN,
    ensures
        match telegram_spec(address@, action, parameter_number@, data@) {
            Ok(t) => r matches Ok(s) && s@ == t,
            Err(c) => r == Err::<String, TmpError>(TmpError::NonAsciiCharacter(c)),
        },
{
    let mut command = String::from_str(address);
    command.append(action.as_str());
    command.append(parameter_number);
    let data_len = data.unicode_len();
    push_zero_padded(&mut command, data_len as u64, 2);
    command.append(data);
    proof {
        crate::text::lemma_zero_padded_len_bound(data_len as nat, 2);
        reveal_with_fuel(crate::text::pow10, 9);
        crate::text::lemma_decimal_len_pow10(data_len as nat, 8);
        reveal_strlit("10");
        reveal_strlit("00");
        assert(action.code().len() == 2);
        assert(command@.len() <= MAX_CHECKSUM_LEN);
    }
    let checksum = calculate_checksum(command.as_str())?;
    push_zero_padded(&mut command, checksum as u64, 3);
    Ok(command)
}

/// Why a response to a telegram was refused.
#[derive(Clone, Copy, Debug, PartialEq, Eq, Structural)]
pub enum TelegramFailure {
    InvalidChecksum,
    InvalidParameter,
    InvalidResponse,
    Logic,
    NonAsciiCharacter(char),
    ValueOutsideRange,
}

/// Whether `e` is the error for `failure` in a response about
/// `parameter_number`.
pub open spec fn is_failure(e: TmpError, failure: TelegramFailure, parameter_number: Seq<char>) -> bool {
    match failure {
        TelegramFailure::InvalidChecksum => e == TmpError::InvalidChecksum,
        TelegramFailure::InvalidParameter => e matches TmpError::InvalidParameter(p) && p@
            == parameter_number,
        TelegramFailure::InvalidResponse => e == TmpError::InvalidResponse,
        TelegramFailure::Logic => e == TmpError::Logic,
        TelegramFailure::NonAsciiCharacter(c) => e == TmpError::NonAsciiCharacter(c),
        TelegramFailure::ValueOutsideRange => e == TmpError::ValueOutsideRange,
    }
}

/// What the response `response` to a telegram about `parameter_number` sent
/// to `address` says: the data it describes, or why it's refused.
///
/// Fields are found by their byte positions in the response, as the
/// protocol lays them out. In order: the address must be ours, the action
/// `10` (describe), the parameter number the one asked about, the data
/// length a number that agrees with the response's length in bytes; the data
/// mustn't be one of the error codes `_LOGIC`, `_RANGE` or `NO_DEF`; and the
/// checksum must be a number equal to the checksum of everything before it.
pub open spec fn response_spec(address: Seq<char>, parameter_number: Seq<char>, response: Seq<char>) -> Result<
    Seq<char>,
    TelegramFailure,
> {
    let len = encode_utf8(response).len();
    if byte_piece(response, 0, 3) != address {
        Err(TelegramFailure::InvalidResponse)
    } else if byte_piece(response, 3, 5) != "10"@ {
        Err(TelegramFailure::InvalidResponse)
    } else if byte_piece(response, 5, 8) != parameter_number {
        Err(TelegramFailure::InvalidResponse)
    } else {
        match parse_unsigned_spec(byte_piece(response, 8, 10), 99) {
            None => Err(TelegramFailure::InvalidResponse),
            Some(n) => if len != 13 + n {
                Err(TelegramFailure::InvalidResponse)
            } else {
                let data = byte_piece(response, 10, 10 + n as int);
                if data == "_LOGIC"@ {
                    Err(TelegramFailure::Logic)
                } else if data == "_RANGE"@ {
                    Err(TelegramFailure::ValueOutsideRange)
                } else if data == "NO_DEF"@ {
                    Err(TelegramFailure::InvalidParameter)
                } else {
                    match parse_i32_spec(byte_piece(response, 10 + n as int, len as int)) {
                        None => Err(TelegramFailure::InvalidResponse),
                        Some(received) => match checksum_spec(byte_piece(response, 0, 10 + n as int)) {
                            Err(c) => Err(TelegramFailure::NonAsciiCharacter(c)),
                            Ok(sum) => if received != sum {
                                Err(TelegramFailure::InvalidChecksum)
                            } else {
                                Ok(data)
                            },
                        },
                    }
                }
            },
        }
    }
}

/// Whether the field of `response` ending at byte `end` can be read: the
/// response is that long and a character starts there, or it ends there.
pub open spec fn field_readable(response: Seq<char>, end: int) -> bool {
    encode_utf8(response).len() >= end && is_char_boundary(encode_utf8(response), end)
}

/// Whether every field that is read before `response` is refused can be
/// cut out of it: the address, and then, as long as each field read so far
/// is the expected one, the action, the parameter number, the data length,
/// and, when the length agrees, the data.
pub open spec fn response_readable(address: Seq<char>, parameter_number: Seq<char>, response: Seq<char>) -> bool {
    let len = encode_utf8(response).len();
    &&& field_readable(response, 3)
    &&& byte_piece(response, 0, 3) == address ==> field_readable(response, 5)
    &&& byte_piece(response, 0, 3) == address && byte_piece(response, 3, 5) == "10"@
        ==> field_readable(response, 8)
    &&& byte_piece(response, 0, 3) == address && byte_piece(response, 3, 5) == "10"@
        && byte_piece(response, 5, 8) == parameter_number ==> field_readable(response, 10)
    &&& byte_piece(response, 0, 3) == address && byte_piece(response, 3, 5) == "10"@
        && byte_piece(response, 5, 8) == parameter_number ==> (parse_unsigned_spec(
        byte_piece(response, 8, 10),
        99,
    ) matches Some(n) ==> (len == 13 + n ==> field_readable(response, 10 + n as int)))
}

/// Checks the TMP's response to a telegram about `parameter_number` sent to
/// `address`, returning the data it describes.
#[verifier::rlimit(60)]
pub fn parse_response(address: &str, parameter_number: &str, response: &str) -> (r: Result<
    String,
    TmpError,
>)
    requires
        response_readable(address@, parameter_number@, response@),
        encode_utf8(response@).len() <= MAX_CHECKSUM_LEN,
    ensures
        match response_spec(address@, parameter_number@, response@) {
            Ok(data) => r matches Ok(s) && s@ == data,
            Err(failure) => r matches Err(e) && is_failure(e, failure, parameter_number@),
        },
{
    let len = response.len();
    proof {
        encode_utf8_valid_utf8(response@);
        is_char_boundary_start_end_of_seq(encode_utf8(response@));
    }

    // The address must equal our address.
    if !str_eq(byte_slice(response, 0, 3), address) {
        return Err(TmpError::InvalidResponse);
    }

    // The action must be 10 (describe).
    if !str_eq(byte_slice(response, 3, 5), "10") {
        return Err(TmpError::InvalidResponse);
    }

    // The parameter number must match.
    let response_parameter_number = byte_slice(response, 5, 8);
    if !str_eq(response_parameter_number, parameter_number) {
        return Err(TmpError::InvalidResponse);
    }

    // The data length must be a valid number. Two digits can't exceed 99.
    let data_length = match parse_unsigned(byte_slice(response, 8, 10), 99) {
        Some(n) => n as usize,
        None => return Err(TmpError::InvalidResponse),
    };

    // The response length must agree with `data_length`.
    if len != 3 + 2 + 3 + 2 + data_length + 3 {
        return Err(TmpError::InvalidResponse);
    }

    // Determine if the response is an error.
    let response_data = byte_slice(response, 10, 10 + data_length);
    if str_eq(response_data, "_LOGIC") {
        return Err(TmpError::Logic);
    }
    if str_eq(response_data, "_RANGE") {
        return Err(TmpError::ValueOutsideRange);
    }
    if str_eq(response_data, "NO_DEF") {
        return Err(TmpError::InvalidParameter(to_string(response_parameter_number)));
    }

    // Validate the response checksum.
    let response_checksum = match parse_i32(byte_slice(response, 10 + data_length, len)) {
        Some(c) => c,
        None => return Err(TmpError::InvalidResponse),
    };
    let checked = byte_slice(response, 0, 10 + data_length);
    proof {
        lemma_encode_len(checked@);
    }
    let checksum = calculate_checksum(checked)?;
    if response_checksum != checksum {
        return Err(TmpError::InvalidChecksum);
    }

    Ok(to_string(response_data))
}

} // verus!

verus! {

/// A telegram's data can't be mistaken for one of the error codes a TMP
/// answers with.
pub open spec fn is_not_error_code(data: Seq<char>) -> bool {
    data != "_LOGIC"@ && data != "_RANGE"@ && data != "NO_DEF"@
}

/// The describing telegram the TMP at `address` answers with about parameter
/// `parameter_number` is read back as the data it carries, whenever the
/// address and parameter number are three ASCII characters and the data is
/// ASCII, fits the two-digit length field, and isn't an error code.
pub proof fn lemma_telegram_round_trip(address: Seq<char>, parameter_number: Seq<char>, data: Seq<char>)
    requires
        address.len() == 3,
        parameter_number.len() == 3,
        data.len() <= 99,
        all_ascii(address),
        all_ascii(parameter_number),
        all_ascii(data),
        is_not_error_code(data),
    ensures
        telegram_spec(address, Action::Describe, parameter_number, data) matches Ok(t)
            && response_spec(address, parameter_number, t) == Ok::<Seq<char>, TelegramFailure>(data),
{
    reveal_strlit("10");
    let n = data.len();
    let len_field = zero_padded(n, 2);
    crate::text::lemma_zero_padded(n, 2);
    crate::text::lemma_parse_zero_padded(n, 2, 99);
    reveal_with_fuel(crate::text::pow10, 4);
    crate::text::lemma_decimal_len_pow10(n, 2);
    crate::text::lemma_zero_padded_len_bound(n, 2);
    assert(len_field.len() == 2);
    let command = address + "10"@ + parameter_number + len_field + data;
    assert forall|i: int| 0 <= i < command.len() implies is_ascii_char(#[trigger] command[i]) by {
        if i < 3 {
            assert(command[i] == address[i]);
        } else if i < 5 {
            assert(command[i] == "10"@[i - 3]);
        } else if i < 8 {
            assert(command[i] == parameter_number[i - 5]);
        } else if i < 10 {
            assert(command[i] == len_field[i - 8]);
            assert(crate::text::is_digit(len_field[i - 8]));
        } else {
            assert(command[i] == data[i - 10]);
        }
    }
    let sum = (char_sum(command) % 256) as nat;
    let sum_field = zero_padded(sum, 3);
    crate::text::lemma_zero_padded(sum, 3);
    crate::text::lemma_parse_zero_padded(sum, 3, 0x7fff_ffff);
    crate::text::lemma_decimal_len_pow10(sum, 3);
    crate::text::lemma_zero_padded_len_bound(sum, 3);
    assert(sum_field.len() == 3);
    let t = command + sum_field;
    assert(all_ascii(t)) by {
        assert forall|i: int| 0 <= i < t.len() implies is_ascii_char(#[trigger] t[i]) by {
            if i < command.len() {
                assert(t[i] == command[i]);
            } else {
                assert(t[i] == sum_field[i - command.len()]);
                assert(crate::text::is_digit(sum_field[i - command.len()]));
            }
        }
    }
    lemma_ascii_piece(t, 0, 3);
    lemma_ascii_piece(t, 3, 5);
    lemma_ascii_piece(t, 5, 8);
    lemma_ascii_piece(t, 8, 10);
    lemma_ascii_piece(t, 10, 10 + n as int);
    lemma_ascii_piece(t, 10 + n as int, t.len() as int);
    lemma_ascii_piece(t, 0, 10 + n as int);
    assert(t.subrange(0, 3) =~= address);
    assert(t.subrange(3, 5) =~= "10"@);
    assert(t.subrange(5, 8) =~= parameter_number);
    assert(t.subrange(8, 10) =~= len_field);
    assert(t.subrange(10, 10 + n as int) =~= data);
    assert(t.subrange(10 + n as int, t.len() as int) =~= sum_field);
    assert(t.subrange(0, 10 + n as int) =~= command);
}

} // verus!

verus! {

/// A parameter of the TC 600 that is read or set here.
#[derive(Clone, Copy, Debug, PartialEq, Eq, Structural)]
pub enum Parameter {
    /// Whether the pump is running (parameter 010).
    Running,
    /// The target rotation speed in hertz (parameter 308).
    TargetRotationSpeed,
    /// The current rotation speed in hertz (parameter 309).
    CurrentRotationSpeed,
    /// The current draw in hundredths of an ampere (parameter 310).
    Current,
    /// The total operating time in hours (parameter 311).
    OperatingTime,
}

impl Parameter {
    /// The parameter's three-digit number.
    pub open spec fn number(self) -> Seq<char> {
        match self {
            Parameter::Running => "010"@,
            Parameter::TargetRotationSpeed => "308"@,
            Parameter::CurrentRotationSpeed => "309"@,
            Parameter::Current => "310"@,
            Parameter::OperatingTime => "311"@,
        }
    }

    /// The parameter's three-digit number.
    pub fn as_str(&self) -> (s: &'static str)
        ensures
            s@ == self.number(),
    {
        match self {
            Parameter::Running => "010",
            Parameter::TargetRotationSpeed => "308",
            Parameter::CurrentRotationSpeed => "309",
            Parameter::Current => "310",
            Parameter::OperatingTime => "311",
        }
    }
}

/// The data of a telegram that asks for a parameter's value.
pub open spec fn read_request() -> Seq<char> {
    "=?"@
}

/// The longest address a telegram is built for here, which keeps the
/// telegram's checksum within an `i32`.
pub const MAX_ADDRESS_LEN: usize = 16_800_000;

/// The telegram that asks the pump at `address` for the value of
/// `parameter`.
pub fn read_command(address: &str, parameter: Parameter) -> (r: Result<String, TmpError>)
    requires
        address@.len() <= MAX_ADDRESS_LEN,
    ensures
        match telegram_spec(address@, Action::Read, parameter.number(), read_request()) {
            Ok(t) => r matches Ok(s) && s@ == t,
            Err(c) => r == Err::<String, TmpError>(TmpError::NonAsciiCharacter(c)),
        },
{
    let request = "=?";
    proof {
        reveal_strlit("=?");
        reveal_strlit("010");
        reveal_strlit("308");
        reveal_strlit("309");
        reveal_strlit("310");
        reveal_strlit("311");
    }
    encode_telegram(address, Action::Read, parameter.as_str(), request)
}

/// The telegram that sets `parameter` of the pump at `address` to `value`.
///
/// The value must be as described in the Pfeiffer Vacuum Control document,
/// e.g. booleans must be "000000" for false or "111111" for true. Other
/// values, e.g. "0" or "1", are ignored by the pump, which then doesn't
/// answer.
pub fn set_command(address: &str, parameter: Parameter, value: &str) -> (r: Result<String, TmpError>)
    requires
        address@.len() + value@.len() <= MAX_ADDRESS_LEN,
    ensures
        match telegram_spec(address@, Action::Describe, parameter.number(), value@) {
            Ok(t) => r matches Ok(s) && s@ == t,
            Err(c) => r == Err::<String, TmpError>(TmpError::NonAsciiCharacter(c)),
        },
{
    proof {
        reveal_strlit("010");
        reveal_strlit("308");
        reveal_strlit("309");
        reveal_strlit("310");
        reveal_strlit("311");
    }
    encode_telegram(address, Action::Describe, parameter.as_str(), value)
}

/// Checks the data of the pump's answer to a telegram that set a parameter
/// to `value`: the pump confirms the request by returning the value set.
pub fn check_set_response(value: &str, data: &str) -> (r: Result<(), TmpError>)
    ensures
        r == (if data@ == value@ {
            Ok::<(), TmpError>(())
        } else {
            Err::<(), TmpError>(TmpError::InvalidResponse)
        }),
{
    if str_eq(data, value) {
        Ok(())
    } else {
        Err(TmpError::InvalidResponse)
    }
}

/// The value of the running parameter that turns the pump on or off.
pub open spec fn running_value_spec(running: bool) -> Seq<char> {
    if running {
        "111111"@
    } else {
        "000000"@
    }
}

/// The value of the running parameter that turns the pump on or off.
///
/// IMPORTANT: The pump's forevacuum pressure must be lower than 18 mbar
/// before turning it on, otherwise it may be catastrophically damaged.
pub fn running_value(running: bool) -> (s: &'static str)
    ensures
        s@ == running_value_spec(running),
{
    if running {
        "111111"
    } else {
        "000000"
    }
}

/// Whether the value of the running parameter says that the pump is running.
pub fn is_running_value(data: &str) -> (r: bool)
    ensures
        r == (data@ == "111111"@),
{
    str_eq(data, "111111")
}

/// Reads a rotation speed in hertz from the data of the pump's answer.
pub fn parse_rotation_speed(data: &str) -> (r: Result<u16, TmpError>)
    ensures
        match parse_unsigned_spec(data@, 0xffff) {
            Some(v) => r == Ok::<u16, TmpError>(v as u16),
            None => r == Err::<u16, TmpError>(TmpError::InvalidResponse),
        },
{
    match parse_unsigned(data, 0xffff) {
        Some(v) => Ok(v as u16),
        None => Err(TmpError::InvalidResponse),
    }
}

/// Reads an operating time in hours from the data of the pump's answer.
pub fn parse_operating_time(data: &str) -> (r: Result<u32, TmpError>)
    ensures
        match parse_unsigned_spec(data@, 0xffff_ffff) {
            Some(v) => r == Ok::<u32, TmpError>(v as u32),
            None => r == Err::<u32, TmpError>(TmpError::InvalidResponse),
        },
{
    match parse_unsigned(data, 0xffff_ffff) {
        Some(v) => Ok(v as u32),
        None => Err(TmpError::InvalidResponse),
    }
}

/// Whether every field of `response` that `parse_response` reads can be cut
/// out of it.
pub fn is_response_readable(address: &str, parameter_number: &str, response: &str) -> (r: bool)
    ensures
        r == response_readable(address@, parameter_number@, response@),
{
    let len = response.as_bytes().len();
    proof {
        encode_utf8_valid_utf8(response@);
        is_char_boundary_start_end_of_seq(encode_utf8(response@));
    }
    if len < 3 || !response.is_char_boundary(3) {
        return false;
    }
    if !str_eq(byte_slice(response, 0, 3), address) {
        return true;
    }
    if len < 5 || !response.is_char_boundary(5) {
        return false;
    }
    if !str_eq(byte_slice(response, 3, 5), "10") {
        return true;
    }
    if len < 8 || !response.is_char_boundary(8) {
        return false;
    }
    if !str_eq(byte_slice(response, 5, 8), parameter_number) {
        return true;
    }
    if len < 10 || !response.is_char_boundary(10) {
        return false;
    }
    match parse_unsigned(byte_slice(response, 8, 10), 99) {
        None => true,
        Some(n) => if len != 13 + n as usize {
            true
        } else {
            response.is_char_boundary(10 + n as usize)
        },
    }
}

} // verus!

verus! {

impl From<ControllerError> for TmpError {
    fn from(e: ControllerError) -> (r: Self) {
        TmpError::Controller(e)
    }
}

impl vstd::std_specs::convert::FromSpecImpl<ControllerError> for TmpError {
    open spec fn obeys_from_spec() -> bool {
        true
    }

    open spec fn from_spec(e: ControllerError) -> Self {
        TmpError::Controller(e)
    }
}

} // verus!
