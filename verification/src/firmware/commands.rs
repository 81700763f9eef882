//! The firmware's handling of one command: reading it from the USB host a
//! byte at a time, routing it to the ADC or the TMP, reading the device's
//! response, and framing the answer for the host.
//!
//! Each reader is a state machine: the firmware hands it what the USB or
//! UART driver produced (a byte, a timeout or a failure) and gets back
//! whether to keep reading, the finished length, or the error to report.
use crate::controller_error::{ControllerError, USB_MAX_PACKET_SIZE};
use vstd::prelude::*;

verus! {

/// The size of the firmware's command and response buffers.
///
/// USB packets that are exactly the maximum packet size aren't processed
/// until a subsequent shorter packet is sent. There may not be a subsequent
/// packet to send but every packet should be sent immediately, so the
/// buffers are 1 byte smaller than the maximum.
pub const BUFFER_LEN: usize = 63;

/// The buffer size follows from the USB packet size.
pub proof fn lemma_buffer_len()
    ensures
        BUFFER_LEN == USB_MAX_PACKET_SIZE - 1,
{
}

/// The carriage return that ends a response and that the devices expect at
/// the end of a command.
pub const CR: u8 = 13;

/// The newline that may end a command.
pub const LF: u8 = 10;

/// What reading from the USB host or from a device's UART produced.
#[derive(Clone, Copy, Debug, PartialEq, Eq, Structural)]
pub enum ReadEvent {
    /// One byte arrived.
    Byte(u8),

    /// Nothing arrived before the read's timeout.
    Timeout,

    /// The USB host disconnected.
    Disconnected,

    /// The driver failed.
    Failed,
}

/// What follows a read.
#[derive(Clone, Copy, Debug, PartialEq, Eq, Structural)]
pub enum ReadStep {
    /// Keep reading.
    Continue,

    /// The command or response is complete, with this length.
    Done(usize),

    /// Reading failed with this error.
    Fail(ControllerError),
}

/// Whether `b` ends a command: a newline or a carriage return.
pub open spec fn is_command_terminator(b: u8) -> bool {
    b == LF || b == CR
}

/// How a received command is checked once its terminator has arrived: it
/// must hold a three letter destination, a colon, at least one letter, and
/// the terminator, making a minimum of 6 bytes.
pub open spec fn check_command_spec(command: Seq<u8>) -> ReadStep {
    if command.len() < 6 {
        ReadStep::Fail(ControllerError::CommandTooShort)
    } else if command[3] != 58 {
        ReadStep::Fail(ControllerError::CommandMissingDestination)
    } else {
        ReadStep::Done(command.len() as usize)
    }
}

/// One step of reading a command from the USB host, given the bytes
/// received so far: the bytes received afterwards, and what follows.
///
/// A command may be terminated by a newline (`\n`), a carriage return
/// (`\r`), or a carriage return followed by a newline (`\r\n`): a newline
/// that arrives before anything else is the end of the previous command's
/// terminator and is ignored. A timeout before anything arrived keeps
/// waiting (no command is being sent yet); after that it fails the command.
/// A command that fills the buffer is too long, even if its last byte is the
/// terminator.
pub open spec fn command_step_spec(received: Seq<u8>, event: ReadEvent) -> (Seq<u8>, ReadStep) {
    match event {
        ReadEvent::Byte(b) => if b == LF && received.len() == 0 {
            (received, ReadStep::Continue)
        } else {
            let next = received.push(b);
            if next.len() == BUFFER_LEN {
                (next, ReadStep::Fail(ControllerError::CommandTooLong))
            } else if is_command_terminator(b) {
                (next, check_command_spec(next))
            } else {
                (next, ReadStep::Continue)
            }
        },
        ReadEvent::Timeout => if received.len() == 0 {
            (received, ReadStep::Continue)
        } else {
            (received, ReadStep::Fail(ControllerError::CommandTimeout))
        },
        ReadEvent::Disconnected => (received, ReadStep::Fail(ControllerError::Disconnected)),
        ReadEvent::Failed => (received, ReadStep::Fail(ControllerError::Unknown)),
    }
}

/// Reads a command from the USB host, a byte at a time.
pub struct CommandReader {
    received: Vec<u8>,
}

impl View for CommandReader {
    type V = Seq<u8>;

    /// The bytes of the command received so far.
    closed spec fn view(&self) -> Seq<u8> {
        self.received@
    }
}

impl CommandReader {
    /// The command received so far fits in the buffer with room for more.
    pub closed spec fn wf(&self) -> bool {
        self.received@.len() < BUFFER_LEN
    }

    /// A reader that has received nothing yet.
    pub fn new() -> (r: Self)
        ensures
            r.wf(),
            r@ == Seq::<u8>::empty(),
    {
        CommandReader { received: Vec::new() }
    }

    /// The bytes of the command received so far.
    pub fn received(&self) -> (r: &[u8])
        ensures
            r@ == self@,
    {
        self.received.as_slice()
    }

    /// Takes in what the USB host sent next.
    pub fn step(&mut self, event: ReadEvent) -> (r: ReadStep)
        requires
            old(self).wf(),
        ensures
            (final(self)@, r) == command_step_spec(old(self)@, event),
            r is Continue ==> final(self).wf(),
            r matches ReadStep::Done(n) ==> n == final(self)@.len() && 6 <= n < BUFFER_LEN
                && final(self)@[3] == 58 && is_command_terminator(final(self)@[n - 1]),
    {
        match event {
            ReadEvent::Byte(b) => {
                if b == LF && self.received.len() == 0 {
                    return ReadStep::Continue;
                }
                self.received.push(b);
                let length = self.received.len();
                if length == BUFFER_LEN {
                    return ReadStep::Fail(ControllerError::CommandTooLong);
                }
                if b == LF || b == CR {
                    if length < 6 {
                        ReadStep::Fail(ControllerError::CommandTooShort)
                    } else if self.received[3] != 58 {
                        ReadStep::Fail(ControllerError::CommandMissingDestination)
                    } else {
                        ReadStep::Done(length)
                    }
                } else {
                    ReadStep::Continue
                }
            },
            ReadEvent::Timeout => if self.received.len() == 0 {
                ReadStep::Continue
            } else {
                ReadStep::Fail(ControllerError::CommandTimeout)
            },
            ReadEvent::Disconnected => ReadStep::Fail(ControllerError::Disconnected),
            ReadEvent::Failed => ReadStep::Fail(ControllerError::Unknown),
        }
    }
}

/// A device that commands are routed to.
#[derive(Clone, Copy, Debug, PartialEq, Eq, Structural)]
pub enum Route {
    /// The Edwards ADC MkII, on the RS-232 UART.
    Adc,

    /// The Pfeiffer TC 600, on the RS-485 UART.
    Tmp,
}

/// The device a command's destination names: `ADC` or `TMP`.
pub open spec fn route_spec(destination: Seq<u8>) -> Option<Route> {
    if destination == seq![65u8, 68u8, 67u8] {
        Some(Route::Adc)
    } else if destination == seq![84u8, 77u8, 80u8] {
        Some(Route::Tmp)
    } else {
        None
    }
}

/// What is sent to the device for a received command: the command after
/// the destination and colon, with its terminator changed to the carriage
/// return that both the ADC and the TMP expect.
pub open spec fn device_command_spec(command: Seq<u8>) -> Seq<u8> {
    command.subrange(4, command.len() - 1).push(CR)
}

/// Splits a received command into the device it's for and what to send the
/// device.
pub fn route_command(command: &[u8]) -> (r: Result<(Route, Vec<u8>), ControllerError>)
    requires
        command@.len() >= 5,
    ensures
        match route_spec(command@.subrange(0, 3)) {
            Some(route) => r matches Ok((q, body)) && q == route && body@ == device_command_spec(
                command@,
            ),
            None => r == Err::<(Route, Vec<u8>), ControllerError>(
                ControllerError::UnknownDestination,
            ),
        },
{
    let route = if command[0] == 65 && command[1] == 68 && command[2] == 67 {
        Route::Adc
    } else if command[0] == 84 && command[1] == 77 && command[2] == 80 {
        Route::Tmp
    } else {
        proof {
            let d = command@.subrange(0, 3);
            if d == seq![65u8, 68u8, 67u8] {
                assert(d[0] == 65 && d[1] == 68 && d[2] == 67);
            }
            if d == seq![84u8, 77u8, 80u8] {
                assert(d[0] == 84 && d[1] == 77 && d[2] == 80);
            }
        }
        return Err(ControllerError::UnknownDestination);
    };
    assert(route_spec(command@.subrange(0, 3)) == Some(route)) by {
        let d = command@.subrange(0, 3);
        if route == Route::Adc {
            assert(d =~= seq![65u8, 68u8, 67u8]);
        } else {
            assert(d =~= seq![84u8, 77u8, 80u8]);
            assert(d[0] != 65);
        }
    }
    let end = command.len() - 1;
    let mut body: Vec<u8> = Vec::new();
    let mut i: usize = 4;
    while i < end
        invariant
            4 <= i <= end,
            end == command@.len() - 1,
            body@ == command@.subrange(4, i as int),
        decreases end - i,
    {
        body.push(command[i]);
        assert(command@.subrange(4, i + 1) =~= command@.subrange(4, i as int).push(command@[i as int]));
        i += 1;
    }
    body.push(CR);
    Ok((route, body))
}

/// One step of reading a device's response, given the bytes received so
/// far: the bytes received afterwards, and what follows. A carriage return
/// ends the response; a response that fills the buffer is too long.
pub open spec fn response_step_spec(received: Seq<u8>, event: ReadEvent) -> (Seq<u8>, ReadStep) {
    match event {
        ReadEvent::Byte(b) => {
            let next = received.push(b);
            if next.len() == BUFFER_LEN {
                (next, ReadStep::Fail(ControllerError::ResponseTooLong))
            } else if b == CR {
                (next, ReadStep::Done(next.len() as usize))
            } else {
                (next, ReadStep::Continue)
            }
        },
        ReadEvent::Timeout => (received, ReadStep::Fail(ControllerError::ResponseTimeout)),
        ReadEvent::Disconnected => (received, ReadStep::Fail(ControllerError::Unknown)),
        ReadEvent::Failed => (received, ReadStep::Fail(ControllerError::Unknown)),
    }
}

/// Reads a device's response from its UART, a byte at a time.
pub struct ResponseReader {
    received: Vec<u8>,
}

impl View for ResponseReader {
    type V = Seq<u8>;

    /// The bytes of the response received so far.
    closed spec fn view(&self) -> Seq<u8> {
        self.received@
    }
}

impl ResponseReader {
    /// The response received so far fits in the buffer with room for more.
    pub closed spec fn wf(&self) -> bool {
        self.received@.len() < BUFFER_LEN
    }

    /// A reader that has received nothing yet.
    pub fn new() -> (r: Self)
        ensures
            r.wf(),
            r@ == Seq::<u8>::empty(),
    {
        ResponseReader { received: Vec::new() }
    }

    /// The bytes of the response received so far.
    pub fn received(&self) -> (r: &[u8])
        ensures
            r@ == self@,
    {
        self.received.as_slice()
    }

    /// Takes in what the device's UART produced next.
    pub fn step(&mut self, event: ReadEvent) -> (r: ReadStep)
        requires
            old(self).wf(),
        ensures
            (final(self)@, r) == response_step_spec(old(self)@, event),
            r is Continue ==> final(self).wf(),
            r matches ReadStep::Done(n) ==> n == final(self)@.len() && 1 <= n < BUFFER_LEN
                && final(self)@[n - 1] == CR,
    {
        match event {
            ReadEvent::Byte(b) => {
                self.received.push(b);
                let length = self.received.len();
                if length == BUFFER_LEN {
                    ReadStep::Fail(ControllerError::ResponseTooLong)
                } else if b == CR {
                    ReadStep::Done(length)
                } else {
                    ReadStep::Continue
                }
            },
            ReadEvent::Timeout => ReadStep::Fail(ControllerError::ResponseTimeout),
            ReadEvent::Disconnected => ReadStep::Fail(ControllerError::Unknown),
            ReadEvent::Failed => ReadStep::Fail(ControllerError::Unknown),
        }
    }
}

/// The answer sent to the USB host for a device's response: the response
/// followed by a newline, so that it ends with `\r\n` (both the ADC and the
/// TMP end their responses with `\r`). A response that leaves no room in
/// the buffer for the newline is too long.
pub fn host_response(response: &[u8]) -> (r: Result<Vec<u8>, ControllerError>)
    requires
        response@.len() <= BUFFER_LEN,
    ensures
        response@.len() == BUFFER_LEN ==> r == Err::<Vec<u8>, ControllerError>(
            ControllerError::ResponseTooLong,
        ),
        response@.len() < BUFFER_LEN ==> (r matches Ok(v) && v@ == response@.push(LF)),
{
    if response.len() == BUFFER_LEN {
        return Err(ControllerError::ResponseTooLong);
    }
    let mut v: Vec<u8> = Vec::new();
    let mut i: usize = 0;
    while i < response.len()
        invariant
            i <= response@.len(),
            v@ == response@.take(i as int),
        decreases response@.len() - i,
    {
        v.push(response[i]);
        assert(response@.take(i + 1) =~= response@.take(i as int).push(response@[i as int]));
        i += 1;
    }
    assert(response@.take(i as int) =~= response@);
    v.push(LF);
    Ok(v)
}

/// What the firmware does after a command failed with `e`: a disconnected
/// host is waited for again (`None`); any other error is reported to the
/// host with `to_response`.
pub fn error_report(e: ControllerError) -> (r: Option<String>)
    ensures
        e == ControllerError::Disconnected ==> r is None,
        e != ControllerError::Disconnected ==> (r matches Some(s) && s@
            == crate::controller_error::error_response_body(e) + "\r\n"@),
{
    match e {
        ControllerError::Disconnected => None,
        _ => Some(e.to_response()),
    }
}

} // verus!
