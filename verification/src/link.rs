//! The link between the host and the controller firmware: what the host
//! frames is what the firmware reads and routes.
use crate::firmware::commands::{
    check_command_spec, command_step_spec, device_command_spec, response_step_spec, route_spec,
    ReadEvent, ReadStep, Route, BUFFER_LEN, CR, LF,
};
use crate::host::controller::{command_line, is_terminated, response_spec, Destination};
use crate::text::{all_ascii, is_ascii_char, starts_with_spec};
use vstd::prelude::*;
use vstd::utf8::{decode_utf8, encode_utf8, encode_utf8_decode_utf8, encode_utf8_valid_utf8, valid_utf8};

verus! {

/// The bytes of ASCII text: one per character.
pub open spec fn ascii_bytes(s: Seq<char>) -> Seq<u8> {
    s.map_values(|c: char| (c as u32) as u8)
}

/// The UTF-8 encoding of ASCII text is one byte per character, the
/// character's code.
pub proof fn lemma_encode_ascii(s: Seq<char>)
    requires
        all_ascii(s),
    ensures
        encode_utf8(s) == ascii_bytes(s),
    decreases s.len(),
{
    if s.len() == 0 {
        assert(ascii_bytes(s) =~= Seq::<u8>::empty());
    } else {
        let c = s[0] as u32;
        assert(is_ascii_char(s[0]));
        assert(c < 128 ==> (c & 0x7f) == c) by (bit_vector);
        lemma_encode_ascii(s.drop_first());
        assert(ascii_bytes(s) =~= seq![c as u8] + ascii_bytes(s.drop_first()));
    }
}

/// Feeds `bytes` to a command reader that has received `received`, one at a
/// time, until a step doesn't continue: the bytes received then, and the
/// last step.
pub open spec fn feed_command(received: Seq<u8>, bytes: Seq<u8>) -> (Seq<u8>, ReadStep)
    decreases bytes.len(),
{
    if bytes.len() == 0 {
        (received, ReadStep::Continue)
    } else {
        let (next, step) = command_step_spec(received, ReadEvent::Byte(bytes[0]));
        if step is Continue {
            feed_command(next, bytes.drop_first())
        } else {
            (next, step)
        }
    }
}

/// Bytes that end no command are taken in as they are, as long as they fit
/// and don't start with a newline on an empty command.
proof fn lemma_feed_plain(received: Seq<u8>, bytes: Seq<u8>, rest: Seq<u8>)
    requires
        forall|i: int| 0 <= i < bytes.len() ==> #[trigger] bytes[i] != LF && bytes[i] != CR,
        received.len() + bytes.len() < BUFFER_LEN,
    ensures
        feed_command(received, bytes + rest) == feed_command(received + bytes, rest),
    decreases bytes.len(),
{
    if bytes.len() == 0 {
        assert(bytes + rest =~= rest);
        assert(received + bytes =~= received);
    } else {
        let b = bytes[0];
        assert((bytes + rest)[0] == b);
        assert((bytes + rest).drop_first() =~= bytes.drop_first() + rest);
        assert(received.push(b) + bytes.drop_first() =~= received + bytes);
        lemma_feed_plain(received.push(b), bytes.drop_first(), rest);
    }
}

/// A command the host frames for the ADC or the TMP is read by the firmware
/// up to its carriage return and sent to that device as the command and a
/// carriage return; one framed for a destination the firmware doesn't route
/// (the relays) is refused as an unknown destination. The newline after the
/// carriage return is then ignored as the end of that command's terminator.
///
/// This holds of a command of ASCII text without line terminators that fits
/// the firmware's buffer with its destination, colon and terminator.
pub proof fn lemma_framed_command_delivered(destination: Destination, command: Seq<char>)
    requires
        all_ascii(command),
        forall|i: int| 0 <= i < command.len() ==> #[trigger] command[i] != '\r' && command[i] != '\n',
        1 <= command.len(),
        command.len() + 5 < BUFFER_LEN,
    ensures
        ({
            let line = encode_utf8(command_line(destination, command));
            let (received, step) = feed_command(Seq::empty(), line);
            &&& received.len() == command.len() + 5
            &&& step == ReadStep::Done(received.len() as usize)
            &&& line == received.push(LF)
            &&& command_step_spec(Seq::empty(), ReadEvent::Byte(LF)) == (
                Seq::<u8>::empty(),
                ReadStep::Continue,
            )
            &&& route_spec(received.subrange(0, 3)) == match destination {
                Destination::ADC => Some(Route::Adc),
                Destination::TMP => Some(Route::Tmp),
                Destination::RLY => None::<Route>,
            }
            &&& device_command_spec(received) == ascii_bytes(command).push(CR)
        }),
{
    reveal_strlit("ADC");
    reveal_strlit("RLY");
    reveal_strlit("TMP");
    reveal_strlit(":");
    reveal_strlit("\r\n");
    let prefix = destination.prefix();
    let text = prefix + ":"@ + command;
    let full = command_line(destination, command);
    assert(full =~= text + "\r\n"@);
    assert(all_ascii(full)) by {
        assert forall|i: int| 0 <= i < full.len() implies is_ascii_char(#[trigger] full[i]) by {
            if i >= 4 && i < 4 + command.len() {
                assert(full[i] == command[i - 4]);
            }
        }
    }
    lemma_encode_ascii(full);
    let line = encode_utf8(full);
    let p = ascii_bytes(text);
    assert(line =~= p + seq![CR, LF]);
    assert forall|i: int| 0 <= i < p.len() implies #[trigger] p[i] != LF && p[i] != CR by {
        let v = text[i] as u32;
        assert(p[i] == v as u8);
        if i >= 4 {
            assert(text[i] == command[i - 4]);
            assert(is_ascii_char(command[i - 4]));
            assert(command[i - 4] != '\r' && command[i - 4] != '\n');
            vstd::utf8::char_u32_cast(command[i - 4], v);
            if v == 10 {
                assert((10u32 as char) == '\n');
            }
            if v == 13 {
                assert((13u32 as char) == '\r');
            }
        } else if i == 3 {
            assert(text[i] == ':');
            assert(v == 58);
        } else {
            assert(text[i] == prefix[i]);
            assert(64 < v < 91);
        }
        assert(v < 128);
        assert(v < 128 ==> v as u8 == v) by (bit_vector);
    }
    lemma_feed_plain(Seq::empty(), p, seq![CR, LF]);
    assert(Seq::<u8>::empty() + p =~= p);
    let received = p.push(CR);
    assert(seq![CR, LF].drop_first() =~= seq![LF]);
    assert(received[3] == 58u8);
    assert(check_command_spec(received) == ReadStep::Done(received.len() as usize));
    assert(feed_command(p, seq![CR, LF]) == (received, ReadStep::Done(received.len() as usize)));
    assert(line =~= received.push(LF));
    assert(received.subrange(0, 3) =~= ascii_bytes(prefix));
    assert(received.subrange(4, received.len() - 1) =~= ascii_bytes(command));
    match destination {
        Destination::ADC => {
            assert(ascii_bytes(prefix) =~= seq![65u8, 68u8, 67u8]);
        },
        Destination::TMP => {
            assert(ascii_bytes(prefix) =~= seq![84u8, 77u8, 80u8]);
        },
        Destination::RLY => {
            assert(ascii_bytes(prefix)[0] == 82u8);
        },
    }
}

/// Feeds `bytes` to a response reader that has received `received`, one at
/// a time, until a step doesn't continue: the bytes received then, and the
/// last step.
pub open spec fn feed_response(received: Seq<u8>, bytes: Seq<u8>) -> (Seq<u8>, ReadStep)
    decreases bytes.len(),
{
    if bytes.len() == 0 {
        (received, ReadStep::Continue)
    } else {
        let (next, step) = response_step_spec(received, ReadEvent::Byte(bytes[0]));
        if step is Continue {
            feed_response(next, bytes.drop_first())
        } else {
            (next, step)
        }
    }
}

/// Bytes other than the carriage return are taken in as they are, as long
/// as they fit.
proof fn lemma_feed_response_plain(received: Seq<u8>, bytes: Seq<u8>, rest: Seq<u8>)
    requires
        forall|i: int| 0 <= i < bytes.len() ==> #[trigger] bytes[i] != CR,
        received.len() + bytes.len() < BUFFER_LEN,
    ensures
        feed_response(received, bytes + rest) == feed_response(received + bytes, rest),
    decreases bytes.len(),
{
    if bytes.len() == 0 {
        assert(bytes + rest =~= rest);
        assert(received + bytes =~= received);
    } else {
        let b = bytes[0];
        assert((bytes + rest)[0] == b);
        assert((bytes + rest).drop_first() =~= bytes.drop_first() + rest);
        assert(received.push(b) + bytes.drop_first() =~= received + bytes);
        lemma_feed_response_plain(received.push(b), bytes.drop_first(), rest);
    }
}

/// A device's response, read by the firmware up to its carriage return and
/// answered to the host with a newline added, is read by the host as the
/// response itself.
///
/// This holds of a response of ASCII text without line terminators that
/// fits the firmware's buffer with its terminator and doesn't begin with
/// `ERR:`, which the host reads as the firmware's own error report.
pub proof fn lemma_response_delivered(response: Seq<char>)
    requires
        all_ascii(response),
        forall|i: int| 0 <= i < response.len() ==> #[trigger] response[i] != '\r' && response[i] != '\n',
        response.len() + 1 < BUFFER_LEN,
        !starts_with_spec(response, "ERR:"@),
    ensures
        ({
            let (received, step) = feed_response(Seq::empty(), ascii_bytes(response).push(CR));
            &&& received == ascii_bytes(response).push(CR)
            &&& step == ReadStep::Done(received.len() as usize)
            &&& is_terminated(received.push(LF))
            &&& response_spec(received.push(LF)) == Ok::<Seq<char>, crate::controller_error::ControllerError>(response)
        }),
{
    let p = ascii_bytes(response);
    assert forall|i: int| 0 <= i < p.len() implies #[trigger] p[i] != CR by {
        let v = response[i] as u32;
        assert(is_ascii_char(response[i]));
        vstd::utf8::char_u32_cast(response[i], v);
        if v == 13 {
            assert((13u32 as char) == '\r');
        }
        assert(v < 128 ==> v as u8 == v) by (bit_vector);
    }
    assert(p.push(CR) =~= p + seq![CR]);
    lemma_feed_response_plain(Seq::empty(), p, seq![CR]);
    assert(Seq::<u8>::empty() + p =~= p);
    let received = p.push(CR);
    let bytes = received.push(LF);
    assert(bytes.take(bytes.len() - 2) =~= p);
    lemma_encode_ascii(response);
    encode_utf8_valid_utf8(response);
    encode_utf8_decode_utf8(response);
}

} // verus!
