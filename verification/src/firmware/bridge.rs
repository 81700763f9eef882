//! The first firmware: a plain bridge between the computer's USB serial
//! port and the ADC's UART, with 16-byte buffers. A command ends with a
//! newline, which is sent to the ADC as a carriage return; the ADC's
//! response ends with a carriage return, which is sent back as a newline so
//! that it prints better.
use crate::firmware::commands::{ReadEvent, CR, LF};
use vstd::prelude::*;

verus! {

/// The size of the bridge's command and response buffers.
pub const BRIDGE_BUFFER_LEN: usize = 16;

/// An error of the bridge.
#[derive(Clone, Copy, Debug, PartialEq, Eq)]
pub enum BridgeError {
    /// The computer disconnected.
    Disconnected,

    /// Any other error, with the message sent to the computer.
    Generic(&'static str),
}

/// What follows a read.
#[derive(Clone, Copy, Debug, PartialEq, Eq)]
pub enum BridgeStep {
    /// Keep reading.
    Continue,

    /// The command or response is complete, with this length.
    Done(usize),

    /// Reading failed with this error.
    Fail(BridgeError),
}

/// Whether `e` is the generic error with message `message`.
pub open spec fn is_generic(e: BridgeError, message: Seq<char>) -> bool {
    e matches BridgeError::Generic(m) && m@ == message
}

/// One step of reading a command from the computer, given the bytes
/// received so far: the bytes received afterwards, and what follows. A
/// newline ends the command.
pub open spec fn bridge_command_step_spec(received: Seq<u8>, event: ReadEvent) -> (Seq<u8>, Option<BridgeStep>) {
    match event {
        ReadEvent::Byte(b) => {
            let next = received.push(b);
            if b == LF {
                (next, Some(BridgeStep::Done(next.len() as usize)))
            } else {
                (next, Some(BridgeStep::Continue))
            }
        },
        ReadEvent::Disconnected => (received, Some(BridgeStep::Fail(BridgeError::Disconnected))),
        // The step that fails with a message is described by `is_generic`.
        _ => (received, None),
    }
}

/// The message sent when reading a command fails on `event`.
pub open spec fn bridge_command_failure(event: ReadEvent) -> Seq<char> {
    if event == ReadEvent::Timeout {
        "Timeout while reading command from computer via USB\n"@
    } else {
        "Error while reading command from computer via USB\n"@
    }
}

/// Reads a command from the computer, a byte at a time.
pub struct BridgeCommandReader {
    received: Vec<u8>,
}

impl View for BridgeCommandReader {
    type V = Seq<u8>;

    /// The bytes of the command received so far.
    closed spec fn view(&self) -> Seq<u8> {
        self.received@
    }
}

impl BridgeCommandReader {
    /// A reader that has received nothing yet.
    pub fn new() -> (r: Self)
        ensures
            r@ == Seq::<u8>::empty(),
    {
        BridgeCommandReader { received: Vec::new() }
    }

    /// The bytes of the command received so far.
    pub fn received(&self) -> (r: &[u8])
        ensures
            r@ == self@,
    {
        self.received.as_slice()
    }

    /// Takes in what the computer sent next. The buffer must have room for
    /// another byte.
    pub fn step(&mut self, event: ReadEvent) -> (r: BridgeStep)
        requires
            old(self)@.len() < BRIDGE_BUFFER_LEN,
        ensures
            match bridge_command_step_spec(old(self)@, event) {
                (next, Some(step)) => final(self)@ == next && r == step,
                (next, None) => final(self)@ == next && (r matches BridgeStep::Fail(e)
                    && is_generic(e, bridge_command_failure(event))),
            },
    {
        match event {
            ReadEvent::Byte(b) => {
                self.received.push(b);
                if b == LF {
                    BridgeStep::Done(self.received.len())
                } else {
                    BridgeStep::Continue
                }
            },
            ReadEvent::Disconnected => BridgeStep::Fail(BridgeError::Disconnected),
            ReadEvent::Failed => BridgeStep::Fail(
                BridgeError::Generic("Error while reading command from computer via USB\n"),
            ),
            ReadEvent::Timeout => BridgeStep::Fail(
                BridgeError::Generic("Timeout while reading command from computer via USB\n"),
            ),
        }
    }
}

/// What is sent to the ADC for a command: the command with its newline
/// changed to a carriage return.
pub fn bridge_device_command(command: &[u8]) -> (r: Vec<u8>)
    requires
        command@.len() >= 1,
    ensures
        r@ == command@.update(command@.len() - 1, CR),
{
    let mut v: Vec<u8> = Vec::new();
    let end = command.len() - 1;
    let mut i: usize = 0;
    while i < end
        invariant
            i <= end,
            end == command@.len() - 1,
            v@ == command@.take(i as int),
        decreases end - i,
    {
        v.push(command[i]);
        assert(command@.take(i + 1) =~= command@.take(i as int).push(command@[i as int]));
        i += 1;
    }
    v.push(CR);
    assert(v@ =~= command@.update(command@.len() - 1, CR));
    v
}

/// The message sent when reading the ADC's response fails on `event`.
pub open spec fn bridge_response_failure(event: ReadEvent) -> Seq<char> {
    if event == ReadEvent::Timeout {
        "Timeout while reading response from ADC via UART\n"@
    } else {
        "Error while reading response from ADC via UART\n"@
    }
}

/// Reads the ADC's response from its UART, a byte at a time.
pub struct BridgeResponseReader {
    received: Vec<u8>,
}

impl View for BridgeResponseReader {
    type V = Seq<u8>;

    /// The bytes of the response received so far.
    closed spec fn view(&self) -> Seq<u8> {
        self.received@
    }
}

impl BridgeResponseReader {
    /// A reader that has received nothing yet.
    pub fn new() -> (r: Self)
        ensures
            r@ == Seq::<u8>::empty(),
    {
        BridgeResponseReader { received: Vec::new() }
    }

    /// The bytes of the response received so far.
    pub fn received(&self) -> (r: &[u8])
        ensures
            r@ == self@,
    {
        self.received.as_slice()
    }

    /// Takes in what the ADC's UART produced next. A carriage return ends
    /// the response and is replaced with a newline, so it prints better. The
    /// buffer must have room for another byte.
    pub fn step(&mut self, event: ReadEvent) -> (r: BridgeStep)
        requires
            old(self)@.len() < BRIDGE_BUFFER_LEN,
        ensures
            match event {
                ReadEvent::Byte(b) => if b == CR {
                    final(self)@ == old(self)@.push(LF) && r == BridgeStep::Done(
                        (old(self)@.len() + 1) as usize,
                    )
                } else {
                    final(self)@ == old(self)@.push(b) && r == BridgeStep::Continue
                },
                _ => final(self)@ == old(self)@ && (r matches BridgeStep::Fail(e) && is_generic(
                    e,
                    bridge_response_failure(event),
                )),
            },
    {
        match event {
            ReadEvent::Byte(b) => {
                if b == CR {
                    self.received.push(LF);
                    BridgeStep::Done(self.received.len())
                } else {
                    self.received.push(b);
                    BridgeStep::Continue
                }
            },
            ReadEvent::Timeout => BridgeStep::Fail(
                BridgeError::Generic("Timeout while reading response from ADC via UART\n"),
            ),
            _ => BridgeStep::Fail(
                BridgeError::Generic("Error while reading response from ADC via UART\n"),
            ),
        }
    }
}

/// The message sent when the command can't be written to the ADC.
pub fn bridge_send_command_error() -> (s: &'static str)
    ensures
        s@ == "Error while sending command to ADC via UART\n"@,
{
    "Error while sending command to ADC via UART\n"
}

/// The error when the response can't be sent to the computer: a disconnected
/// computer, or a generic error.
pub fn bridge_send_response_error(disconnected: bool) -> (e: BridgeError)
    ensures
        disconnected ==> e == BridgeError::Disconnected,
        !disconnected ==> is_generic(e, "Error while sending response to computer via USB\n"@),
{
    if disconnected {
        BridgeError::Disconnected
    } else {
        BridgeError::Generic("Error while sending response to computer via USB\n")
    }
}

} // verus!
