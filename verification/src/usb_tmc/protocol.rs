//! Encoding and decoding of the USBTMC bulk transfer message headers used by
//! `DEV_DEP_MSG_OUT`, `REQUEST_DEV_DEP_MSG_IN` and `DEV_DEP_MSG_IN` (USBTMC
//! 1.00, section 3), and of the control requests that enable remote control.
use super::error::{Error, ProtocolError};
use vstd::prelude::*;

verus! {

/// The size in bytes of a USBTMC bulk transfer header.
pub const HEADER_LEN: usize = 12;

/// `bInterfaceClass` for a USBTMC interface.
pub const USBTMC_INTERFACE_CLASS: u8 = 0xfe;

/// `bInterfaceSubClass` for a USBTMC interface.
pub const USBTMC_INTERFACE_SUBCLASS: u8 = 0x03;

/// `MsgID` of a `DEV_DEP_MSG_OUT` transfer.
pub const DEV_DEP_MSG_OUT: u8 = 1;

/// `MsgID` of a `REQUEST_DEV_DEP_MSG_IN` transfer.
pub const REQUEST_DEV_DEP_MSG_IN: u8 = 2;

/// `MsgID` of a `DEV_DEP_MSG_IN` transfer.
pub const DEV_DEP_MSG_IN: u8 = 2;

/// `bRequest` of the `GET_CAPABILITIES` control request (USBTMC 1.00, table
/// 15).
pub const GET_CAPABILITIES: u8 = 7;

/// The length of the answer to `GET_CAPABILITIES`.
pub const GET_CAPABILITIES_LEN: usize = 0x18;

/// `bRequest` of the USB488 `REN_CONTROL` control request.
pub const REN_CONTROL: u8 = 160;

/// The `USBTMC_status` value that reports success.
pub const STATUS_SUCCESS: u8 = 0x01;

/// The offset of the USB488 interface capabilities in the answer to
/// `GET_CAPABILITIES`.
pub const USB488_INTERFACE_CAPABILITIES: usize = 14;

/// Bit 0 of `bmTransferAttributes` (header byte 8): `EOM` for
/// `DEV_DEP_MSG_OUT`/`DEV_DEP_MSG_IN`, `TermCharEnabled` for
/// `REQUEST_DEV_DEP_MSG_IN`.
pub const TRANSFER_ATTRIBUTES_BIT0: u8 = 1;

/// The number of padding bytes that brings `len` up to a multiple of 4.
pub open spec fn padding_len_spec(len: nat) -> nat {
    ((4 - (len % 4)) % 4) as nat
}

/// The four little-endian bytes of `x`.
pub open spec fn le_bytes(x: u32) -> Seq<u8> {
    seq![
        (x % 0x100) as u8,
        (x / 0x100 % 0x100) as u8,
        (x / 0x1_0000 % 0x100) as u8,
        (x / 0x100_0000 % 0x100) as u8,
    ]
}

/// The number whose little-endian bytes are `b0` to `b3`.
pub open spec fn le_value(b0: u8, b1: u8, b2: u8, b3: u8) -> nat {
    (b0 + 0x100 * b1 + 0x1_0000 * b2 + 0x100_0000 * b3) as nat
}

/// A bulk transfer header: `MsgID`, `bTag`, `bTagInverse`, a reserved byte,
/// `TransferSize` in little-endian order, `bmTransferAttributes` and three
/// reserved bytes.
pub open spec fn header_spec(msg_id: u8, b_tag: u8, transfer_size: u32, attributes: u8) -> Seq<
    u8,
> {
    seq![msg_id, b_tag, (255 - b_tag) as u8, 0u8] + le_bytes(transfer_size) + seq![
        attributes,
        0u8,
        0u8,
        0u8,
    ]
}

/// The number of padding bytes needed to bring `len` up to a multiple of 4,
/// as required after the data of a `DEV_DEP_MSG_OUT` or `DEV_DEP_MSG_IN`
/// message.
pub fn padding_len(len: usize) -> (r: usize)
    ensures
        r == padding_len_spec(len as nat),
        r < 4,
        (len + r) % 4 == 0,
{
    (4 - (len % 4)) % 4
}

fn encode_header(msg_id: u8, b_tag: u8, transfer_size: u32, bm_transfer_attributes: u8) -> (r: [u8;
    HEADER_LEN])
    ensures
        r@ == header_spec(msg_id, b_tag, transfer_size, bm_transfer_attributes),
{
    let mut header = [0u8; HEADER_LEN];
    header[0] = msg_id;
    header[1] = b_tag;
    header[2] = !b_tag;
    assert(!b_tag == 255 - b_tag) by (bit_vector);
    header[4] = (transfer_size % 0x100) as u8;
    header[5] = (transfer_size / 0x100 % 0x100) as u8;
    header[6] = (transfer_size / 0x1_0000 % 0x100) as u8;
    header[7] = (transfer_size / 0x100_0000 % 0x100) as u8;
    header[8] = bm_transfer_attributes;
    assert(header@ =~= header_spec(msg_id, b_tag, transfer_size, bm_transfer_attributes));
    header
}

/// Encodes a `DEV_DEP_MSG_OUT` header for a message of `transfer_size` bytes.
///
/// `eom` should be `true`, since a complete message is always sent in a single
/// `DEV_DEP_MSG_OUT` transfer.
pub fn encode_dev_dep_msg_out(b_tag: u8, transfer_size: u32, eom: bool) -> (r: [u8; HEADER_LEN])
    ensures
        r@ == header_spec(
            DEV_DEP_MSG_OUT,
            b_tag,
            transfer_size,
            if eom {
                TRANSFER_ATTRIBUTES_BIT0
            } else {
                0
            },
        ),
{
    let bm_transfer_attributes = if eom {
        TRANSFER_ATTRIBUTES_BIT0
    } else {
        0
    };
    encode_header(DEV_DEP_MSG_OUT, b_tag, transfer_size, bm_transfer_attributes)
}

/// Encodes a `REQUEST_DEV_DEP_MSG_IN` header requesting up to `transfer_size`
/// bytes of response data, with `TermCharEnabled` left unset.
pub fn encode_request_dev_dep_msg_in(b_tag: u8, transfer_size: u32) -> (r: [u8; HEADER_LEN])
    ensures
        r@ == header_spec(REQUEST_DEV_DEP_MSG_IN, b_tag, transfer_size, 0),
{
    encode_header(REQUEST_DEV_DEP_MSG_IN, b_tag, transfer_size, 0)
}

/// A decoded `DEV_DEP_MSG_IN` header.
#[derive(Clone, Copy, Debug, PartialEq, Eq, Structural)]
pub struct DevDepMsgIn {
    /// The number of payload bytes that follow the header (before any
    /// padding).
    pub transfer_size: u32,
    /// Whether this is the last transfer of the response.
    pub eom: bool,
}

/// What decoding `header` as the `DEV_DEP_MSG_IN` answering a request with
/// `expected_b_tag` gives.
pub open spec fn decode_dev_dep_msg_in_spec(header: Seq<u8>, expected_b_tag: u8) -> Result<
    DevDepMsgIn,
    Error,
> {
    if header[0] != DEV_DEP_MSG_IN {
        Err(Error::Protocol(ProtocolError::UnexpectedMessageId { got: header[0] }))
    } else if header[1] != expected_b_tag {
        Err(Error::Protocol(ProtocolError::BTagMismatch { expected: expected_b_tag, got: header[1] }))
    } else if header[2] != 255 - expected_b_tag {
        Err(
            Error::Protocol(
                ProtocolError::BTagInverseMismatch {
                    expected: (255 - expected_b_tag) as u8,
                    got: header[2],
                },
            ),
        )
    } else {
        Ok(
            DevDepMsgIn {
                transfer_size: le_value(header[4], header[5], header[6], header[7]) as u32,
                eom: header[8] % 2 == 1,
            },
        )
    }
}

/// Decodes and validates a `DEV_DEP_MSG_IN` header received in response to a
/// `REQUEST_DEV_DEP_MSG_IN` with the given `b_tag`.
pub fn decode_dev_dep_msg_in(header: &[u8; HEADER_LEN], expected_b_tag: u8) -> (r: Result<
    DevDepMsgIn,
    Error,
>)
    ensures
        r == decode_dev_dep_msg_in_spec(header@, expected_b_tag),
{
    let msg_id = header[0];
    let b_tag = header[1];
    let b_tag_inverse = header[2];

    if msg_id != DEV_DEP_MSG_IN {
        return Err(Error::Protocol(ProtocolError::UnexpectedMessageId { got: msg_id }));
    }
    if b_tag != expected_b_tag {
        return Err(Error::Protocol(ProtocolError::BTagMismatch { expected: expected_b_tag, got: b_tag }));
    }
    let inverse = !expected_b_tag;
    assert(!expected_b_tag == 255 - expected_b_tag) by (bit_vector);
    if b_tag_inverse != inverse {
        return Err(
            Error::Protocol(ProtocolError::BTagInverseMismatch { expected: inverse, got: b_tag_inverse }),
        );
    }

    let b4 = header[4] as u32;
    let b5 = header[5] as u32;
    let b6 = header[6] as u32;
    let b7 = header[7] as u32;
    let transfer_size = b4 + 0x100 * b5 + 0x1_0000 * b6 + 0x100_0000 * b7;
    let attributes = header[8];
    let eom = attributes & TRANSFER_ATTRIBUTES_BIT0 != 0;
    assert((attributes & 1u8 != 0) == (attributes % 2 == 1)) by (bit_vector);

    Ok(DevDepMsgIn { transfer_size, eom })
}

/// Decoding a header encoded with the `DEV_DEP_MSG_IN` message ID and the
/// expected `bTag` gives back its transfer size and its EOM bit.
pub proof fn lemma_decode_encoded_header(b_tag: u8, transfer_size: u32, eom: bool)
    ensures
        decode_dev_dep_msg_in_spec(
            header_spec(
                DEV_DEP_MSG_IN,
                b_tag,
                transfer_size,
                if eom {
                    TRANSFER_ATTRIBUTES_BIT0
                } else {
                    0
                },
            ),
            b_tag,
        ) == Ok::<DevDepMsgIn, Error>(DevDepMsgIn { transfer_size, eom }),
{
    let h = header_spec(
        DEV_DEP_MSG_IN,
        b_tag,
        transfer_size,
        if eom {
            TRANSFER_ATTRIBUTES_BIT0
        } else {
            0
        },
    );
    let x = transfer_size;
    assert(h[4] == (x % 0x100) as u8);
    assert(h[5] == (x / 0x100 % 0x100) as u8);
    assert(h[6] == (x / 0x1_0000 % 0x100) as u8);
    assert(h[7] == (x / 0x100_0000 % 0x100) as u8);
    assert(h[8] == if eom {
        1u8
    } else {
        0u8
    });
    assert((x % 0x100) + 0x100 * (x / 0x100 % 0x100) + 0x1_0000 * (x / 0x1_0000 % 0x100) + 0x100_0000
        * (x / 0x100_0000 % 0x100) == x) by (bit_vector);
}

/// Whether a device answered a control request with success.
pub open spec fn check_status_spec(request: u8, status: u8) -> Result<(), Error> {
    if status == STATUS_SUCCESS {
        Ok(())
    } else {
        Err(Error::ControlRequestFailed { request, status })
    }
}

/// Checks the `USBTMC_status` byte a device answered the control request
/// `request` with.
pub fn check_status(request: u8, status: u8) -> (r: Result<(), Error>)
    ensures
        r == check_status_spec(request, status),
{
    if status == STATUS_SUCCESS {
        Ok(())
    } else {
        Err(Error::ControlRequestFailed { request, status })
    }
}

/// Whether the USB488 interface capabilities in `capabilities` (the answer
/// to `GET_CAPABILITIES`) say it accepts `REN_CONTROL`: bit 1 of byte 14.
pub open spec fn accepts_ren_control_spec(capabilities: Seq<u8>) -> bool {
    capabilities[USB488_INTERFACE_CAPABILITIES as int] / 2 % 2 == 1
}

/// Whether an interface whose answer to `GET_CAPABILITIES` is
/// `capabilities` accepts `REN_CONTROL`.
pub fn accepts_ren_control(capabilities: &[u8; GET_CAPABILITIES_LEN]) -> (r: bool)
    ensures
        r == accepts_ren_control_spec(capabilities@),
{
    let byte = capabilities[USB488_INTERFACE_CAPABILITIES];
    assert((byte & 2u8 != 0) == (byte / 2 % 2 == 1)) by (bit_vector);
    byte & 2 != 0
}

/// Tracks the `bTag` to use for the next bulk transfer.
///
/// `bTag` values cycle through 1..=255 (0 is reserved by the specification).
#[derive(Debug)]
pub struct BTagSequence(pub u8);

impl Default for BTagSequence {
    fn default() -> (r: Self)
        ensures
            r.0 == 0,
    {
        BTagSequence(0)
    }
}

impl BTagSequence {
    /// Returns the next `bTag` value, advancing the sequence.
    pub fn next(&mut self) -> (r: u8)
        ensures
            r == old(self).0 % 255 + 1,
            final(self).0 == r,
            1 <= r <= 255,
            r != old(self).0,
    {
        self.0 = self.0 % 255 + 1;
        self.0
    }
}

} // verus!
