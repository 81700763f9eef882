//! Framing of USBTMC messages into bulk transfers, reassembly of responses
//! from bulk-IN reads, and the choice of device and interface.
use super::error::{Error, ProtocolError};
use super::protocol::{
    accepts_ren_control, accepts_ren_control_spec, check_status, check_status_spec,
    decode_dev_dep_msg_in, decode_dev_dep_msg_in_spec, encode_dev_dep_msg_out, header_spec,
    padding_len, padding_len_spec, DevDepMsgIn, DEV_DEP_MSG_OUT, GET_CAPABILITIES,
    GET_CAPABILITIES_LEN, HEADER_LEN, REN_CONTROL, TRANSFER_ATTRIBUTES_BIT0,
    USBTMC_INTERFACE_CLASS, USBTMC_INTERFACE_SUBCLASS,
};
use vstd::prelude::*;

verus! {

/// The size of the buffer used to read bulk-IN transfers.
///
/// Must be a multiple of 4: a read only fills the buffer without the device
/// having ended its transfer when everything received so far is a multiple of
/// this size, and since `HEADER_LEN` is a multiple of 4 too, no padding can be
/// left stranded in the device's send buffer then.
pub const READ_CHUNK_LEN: usize = 16 * 1024;

/// The maximum number of bytes written to the bulk-OUT endpoint in a single
/// transfer.
pub const WRITE_CHUNK_LEN: usize = 16 * 1024;

/// The `TransferSize` asked for by each `REQUEST_DEV_DEP_MSG_IN`.
///
/// The Rigol DP932E power supply gets confused when it's `u32::MAX`, and
/// behaves as expected with 20 KiB, which is what pyvisa uses.
pub const REQUEST_TRANSFER_SIZE: u32 = 20 * 1024;

/// The `bmRequestType` of a class-specific control request read from an
/// interface (`rusb::request_type` for the IN direction, the class request
/// type and the interface recipient), which ORs together the IN direction
/// bit `0x80`, the class type `0x20` and the interface recipient `0x01`.
#[verifier::external_body]
fn class_interface_in_request_type() -> (r: u8)
    ensures
        r == 0xa1,
{
    rusb::request_type(rusb::Direction::In, rusb::RequestType::Class, rusb::Recipient::Interface)
}

/// A control request read from an interface, as the USB transfer takes it.
#[derive(Clone, Copy, Debug, PartialEq, Eq, Structural)]
pub struct ControlRequest {
    /// `bmRequestType`.
    pub request_type: u8,
    /// `bRequest`.
    pub request: u8,
    /// `wValue`.
    pub value: u16,
    /// `wIndex`: the interface number.
    pub index: u16,
}

/// The `GET_CAPABILITIES` request to the USBTMC interface numbered
/// `interface_number`, which every USBTMC interface must implement.
pub fn get_capabilities_request(interface_number: u8) -> (r: ControlRequest)
    ensures
        r == (ControlRequest {
            request_type: 0xa1,
            request: GET_CAPABILITIES,
            value: 0,
            index: interface_number as u16,
        }),
{
    ControlRequest {
        request_type: class_interface_in_request_type(),
        request: GET_CAPABILITIES,
        value: 0,
        index: interface_number as u16,
    }
}

/// The `REN_CONTROL` request that asserts REN (Remote ENable) on the USBTMC
/// interface numbered `interface_number`.
pub fn ren_control_request(interface_number: u8) -> (r: ControlRequest)
    ensures
        r == (ControlRequest {
            request_type: 0xa1,
            request: REN_CONTROL,
            value: 1,
            index: interface_number as u16,
        }),
{
    ControlRequest {
        request_type: class_interface_in_request_type(),
        request: REN_CONTROL,
        value: 1,
        index: interface_number as u16,
    }
}

/// The bytes of the `DEV_DEP_MSG_OUT` transfer that carries `data` as one
/// message: header, data, then zeros up to a multiple of 4.
pub open spec fn message_spec(b_tag: u8, data: Seq<u8>) -> Seq<u8> {
    header_spec(DEV_DEP_MSG_OUT, b_tag, data.len() as u32, TRANSFER_ATTRIBUTES_BIT0) + data
        + Seq::new(padding_len_spec(data.len()), |i: int| 0u8)
}

/// Frames `data` as a single `DEV_DEP_MSG_OUT` message with `EOM` set, ready
/// to be written to the bulk-OUT endpoint.
pub fn encode_message(b_tag: u8, data: &[u8]) -> (r: Vec<u8>)
    ensures
        r@ == message_spec(b_tag, data@),
{
    let header = encode_dev_dep_msg_out(b_tag, data.len() as u32, true);
    let padding = padding_len(data.len());
    let mut message: Vec<u8> = Vec::new();
    let mut i: usize = 0;
    while i < HEADER_LEN
        invariant
            i <= HEADER_LEN,
            message@ == header@.take(i as int),
        decreases HEADER_LEN - i,
    {
        message.push(header[i]);
        i += 1;
        assert(message@ =~= header@.take(i as int));
    }
    assert(header@.take(HEADER_LEN as int) =~= header@);
    let mut j: usize = 0;
    while j < data.len()
        invariant
            j <= data.len(),
            message@ == header@ + data@.take(j as int),
        decreases data.len() - j,
    {
        message.push(data[j]);
        j += 1;
        assert(message@ =~= header@ + data@.take(j as int));
    }
    assert(data@.take(data.len() as int) =~= data@);
    let mut k: usize = 0;
    while k < padding
        invariant
            k <= padding,
            padding < 4,
            message@ == header@ + data@ + Seq::new(k as nat, |i: int| 0u8),
        decreases padding - k,
    {
        message.push(0);
        k += 1;
        assert(message@ =~= header@ + data@ + Seq::new(k as nat, |i: int| 0u8));
    }
    message
}

/// Accumulates the payloads of the `DEV_DEP_MSG_IN` transfers that make up
/// one message, until one arrives with `EOM` set.
#[derive(Debug)]
pub struct MessageAssembler {
    message: Vec<u8>,
}

impl MessageAssembler {
    /// What has arrived so far.
    pub closed spec fn view(&self) -> Seq<u8> {
        self.message@
    }

    /// An empty message.
    pub fn new() -> (r: Self)
        ensures
            r.view() == Seq::<u8>::empty(),
    {
        MessageAssembler { message: Vec::new() }
    }

    /// Appends the payload of one transfer, returning whether it was the last
    /// one.
    pub fn push(&mut self, payload: &[u8], eom: bool) -> (done: bool)
        ensures
            final(self).view() == old(self).view() + payload@,
            done == eom,
    {
        let ghost start = self.message@;
        let mut i: usize = 0;
        while i < payload.len()
            invariant
                i <= payload.len(),
                self.message@ == start + payload@.take(i as int),
            decreases payload.len() - i,
        {
            self.message.push(payload[i]);
            i += 1;
            assert(self.message@ =~= start + payload@.take(i as int));
        }
        assert(payload@.take(payload.len() as int) =~= payload@);
        eom
    }

    /// The message.
    pub fn into_message(self) -> (r: Vec<u8>)
        ensures
            r@ == self.view(),
    {
        self.message
    }
}

/// How far reading one `DEV_DEP_MSG_IN` transfer has got.
#[derive(Debug, PartialEq, Eq)]
pub enum ReadProgress {
    /// More bulk-IN reads are needed.
    Incomplete,

    /// The header and the whole payload have arrived.
    Complete { payload: Vec<u8>, eom: bool },
}

/// Reassembles one `DEV_DEP_MSG_IN` transfer — header and payload — from the
/// bulk-IN reads that deliver it.
///
/// Per the specification the payload is padded to a multiple of 4, but not all
/// devices send that padding, so the transfer counts as complete as soon as
/// the payload has arrived.
#[derive(Debug)]
pub struct ResponseReader {
    b_tag: u8,
    header: Option<DevDepMsgIn>,
    received: Vec<u8>,
}

impl ResponseReader {
    /// The `bTag` of the request this transfer answers.
    pub closed spec fn b_tag(&self) -> u8 {
        self.b_tag
    }

    /// The bytes received so far.
    pub closed spec fn received(&self) -> Seq<u8> {
        self.received@
    }

    /// The decoded header, once all of it has arrived.
    pub closed spec fn header(&self) -> Option<DevDepMsgIn> {
        self.header
    }

    /// The reader's invariant: the header is decoded exactly once all of it
    /// has arrived, and the transfer isn't yet complete.
    pub closed spec fn wf(&self) -> bool {
        match self.header {
            None => self.received@.len() < HEADER_LEN,
            Some(h) => {
                &&& self.received@.len() >= HEADER_LEN
                &&& decode_dev_dep_msg_in_spec(self.received@.take(HEADER_LEN as int), self.b_tag)
                    == Ok::<DevDepMsgIn, Error>(h)
                &&& self.received@.len() < HEADER_LEN + h.transfer_size
            },
        }
    }

    /// A reader for the transfer answering the request with `b_tag`.
    pub fn new(b_tag: u8) -> (r: Self)
        ensures
            r.wf(),
            r.b_tag() == b_tag,
            r.received() == Seq::<u8>::empty(),
            r.header() is None,
    {
        ResponseReader { b_tag, header: None, received: Vec::new() }
    }

    /// Takes in one bulk-IN read of `chunk.len()` bytes, made into a buffer of
    /// `capacity` bytes.
    ///
    /// A read that returns nothing is an error. Once the header has arrived
    /// it's validated; after that, a read shorter than the buffer while the
    /// payload is still incomplete means the device ended its transfer early.
    pub fn receive(&mut self, chunk: &[u8], capacity: usize) -> (r: Result<ReadProgress, Error>)
        requires
            old(self).wf(),
        ensures
            final(self).b_tag() == old(self).b_tag(),
            chunk@.len() == 0 ==> r == Err::<ReadProgress, Error>(
                Error::Protocol(ProtocolError::BulkInEnded),
            ),
            chunk@.len() > 0 ==> {
                let all = old(self).received() + chunk@;
                final(self).received() == all && match old(self).header() {
                    None => if all.len() < HEADER_LEN {
                        r == Ok::<ReadProgress, Error>(ReadProgress::Incomplete)
                            && final(self).header() is None
                    } else {
                        match decode_dev_dep_msg_in_spec(all.take(HEADER_LEN as int), old(self).b_tag()) {
                            Err(e) => r == Err::<ReadProgress, Error>(e),
                            Ok(h) => if all.len() >= HEADER_LEN + h.transfer_size {
                                r matches Ok(ReadProgress::Complete { payload, eom }) && payload@
                                    == all.subrange(HEADER_LEN as int, HEADER_LEN + h.transfer_size)
                                    && eom == h.eom
                            } else {
                                r == Ok::<ReadProgress, Error>(ReadProgress::Incomplete)
                                    && final(self).header() == Some(h)
                            },
                        }
                    },
                    Some(h) => if all.len() >= HEADER_LEN + h.transfer_size {
                        r matches Ok(ReadProgress::Complete { payload, eom }) && payload@
                            == all.subrange(HEADER_LEN as int, HEADER_LEN + h.transfer_size) && eom
                            == h.eom
                    } else if chunk@.len() < capacity {
                        r == Err::<ReadProgress, Error>(
                            Error::Protocol(
                                ProtocolError::TransferEnded {
                                    received: all.len() as u64,
                                    expected: (HEADER_LEN + h.transfer_size) as u64,
                                },
                            ),
                        )
                    } else {
                        r == Ok::<ReadProgress, Error>(ReadProgress::Incomplete)
                            && final(self).header() == Some(h)
                    },
                }
            },
            r matches Ok(ReadProgress::Incomplete) ==> final(self).wf(),
    {
        if chunk.len() == 0 {
            return Err(Error::Protocol(ProtocolError::BulkInEnded));
        }
        let ghost start = self.received@;
        let mut i: usize = 0;
        while i < chunk.len()
            invariant
                i <= chunk.len(),
                self.received@ == start + chunk@.take(i as int),
                self.b_tag == old(self).b_tag,
                self.header == old(self).header,
            decreases chunk.len() - i,
        {
            self.received.push(chunk[i]);
            i += 1;
            assert(self.received@ =~= start + chunk@.take(i as int));
        }
        assert(chunk@.take(chunk.len() as int) =~= chunk@);
        let first_read_of_payload = self.header.is_none();
        let header = match self.header {
            Some(h) => h,
            None => {
                if self.received.len() < HEADER_LEN {
                    return Ok(ReadProgress::Incomplete);
                }
                let mut bytes = [0u8; HEADER_LEN];
                let mut k: usize = 0;
                while k < HEADER_LEN
                    invariant
                        k <= HEADER_LEN,
                        self.received@.len() >= HEADER_LEN,
                        self.b_tag == old(self).b_tag,
                        forall|j: int| 0 <= j < k ==> bytes@[j] == self.received@[j],
                    decreases HEADER_LEN - k,
                {
                    bytes[k] = self.received[k];
                    k += 1;
                }
                assert(bytes@ =~= self.received@.take(HEADER_LEN as int));
                let h = decode_dev_dep_msg_in(&bytes, self.b_tag)?;
                h
            },
        };
        let total = HEADER_LEN as u64 + header.transfer_size as u64;
        if self.received.len() as u64 >= total {
            let mut payload: Vec<u8> = Vec::new();
            let end = total as usize;
            let mut k: usize = HEADER_LEN;
            while k < end
                invariant
                    HEADER_LEN <= k <= end,
                    end == HEADER_LEN + header.transfer_size,
                    end <= self.received@.len(),
                    payload@ == self.received@.subrange(HEADER_LEN as int, k as int),
                decreases end - k,
            {
                payload.push(self.received[k]);
                k += 1;
                assert(payload@ =~= self.received@.subrange(HEADER_LEN as int, k as int));
            }
            return Ok(ReadProgress::Complete { payload, eom: header.eom });
        }
        if !first_read_of_payload && chunk.len() < capacity {
            return Err(
                Error::Protocol(
                    ProtocolError::TransferEnded {
                        received: self.received.len() as u64,
                        expected: total,
                    },
                ),
            );
        }
        self.header = Some(header);
        Ok(ReadProgress::Incomplete)
    }
}

/// The number of bytes to write in the next bulk-OUT transfer when
/// `remaining` bytes are still to be written.
pub fn write_chunk_len(remaining: usize) -> (r: usize)
    ensures
        r == if remaining < WRITE_CHUNK_LEN {
            remaining
        } else {
            WRITE_CHUNK_LEN
        },
{
    if remaining < WRITE_CHUNK_LEN {
        remaining
    } else {
        WRITE_CHUNK_LEN
    }
}

/// What choosing among the connected devices that match `vendor_id` and
/// `product_id` gives: the only one, or an error saying there were none or
/// several.
pub open spec fn select_device_spec<D>(matching: Seq<D>, vendor_id: u16, product_id: u16) -> Result<
    D,
    Error,
> {
    if matching.len() == 0 {
        Err(Error::DeviceNotFound { vendor_id, product_id })
    } else if matching.len() == 1 {
        Ok(matching[0])
    } else {
        Err(Error::MultipleDevicesFound { vendor_id, product_id, count: matching.len() as usize })
    }
}

/// Picks the single connected device among `matching`, the devices whose
/// vendor and product ID are `vendor_id` and `product_id`.
pub fn select_device<D>(matching: Vec<D>, vendor_id: u16, product_id: u16) -> (r: Result<D, Error>)
    ensures
        r == select_device_spec(matching@, vendor_id, product_id),
{
    let count = matching.len();
    if count == 0 {
        Err(Error::DeviceNotFound { vendor_id, product_id })
    } else if count == 1 {
        let mut matching = matching;
        let device = matching.pop();
        match device {
            Some(d) => Ok(d),
            None => Err(Error::DeviceNotFound { vendor_id, product_id }),
        }
    } else {
        Err(Error::MultipleDevicesFound { vendor_id, product_id, count })
    }
}

/// The direction of an endpoint.
#[derive(Clone, Copy, Debug, PartialEq, Eq, Structural)]
pub enum Direction {
    In,
    Out,
}

/// The transfer type of an endpoint.
#[derive(Clone, Copy, Debug, PartialEq, Eq, Structural)]
pub enum TransferType {
    Bulk,
    Control,
    Interrupt,
    Isochronous,
}

/// What an endpoint descriptor says of the endpoint.
#[derive(Clone, Copy, Debug, PartialEq, Eq, Structural)]
pub struct EndpointDescriptor {
    pub address: u8,
    pub direction: Direction,
    pub transfer_type: TransferType,
}

/// What an interface descriptor (one alternate setting of an interface) says
/// of the interface.
#[derive(Clone, Debug)]
pub struct InterfaceDescriptor {
    pub class_code: u8,
    pub endpoints: Vec<EndpointDescriptor>,
    pub interface_number: u8,
    pub sub_class_code: u8,
}

/// The number of bulk endpoints among `endpoints` facing `direction`.
pub open spec fn bulk_count(endpoints: Seq<EndpointDescriptor>, direction: Direction) -> nat
    decreases endpoints.len(),
{
    if endpoints.len() == 0 {
        0
    } else {
        bulk_count(endpoints.drop_last(), direction) + if endpoints.last().transfer_type
            == TransferType::Bulk && endpoints.last().direction == direction {
            1nat
        } else {
            0nat
        }
    }
}

/// The address of the first bulk endpoint among `endpoints` facing
/// `direction`.
pub open spec fn first_bulk(endpoints: Seq<EndpointDescriptor>, direction: Direction) -> u8
    decreases endpoints.len(),
{
    if endpoints.len() == 0 {
        0
    } else if endpoints[0].transfer_type == TransferType::Bulk && endpoints[0].direction
        == direction {
        endpoints[0].address
    } else {
        first_bulk(endpoints.drop_first(), direction)
    }
}

/// Whether `descriptor` is a usable USBTMC interface: class `0xFE`, subclass
/// `0x03`, with exactly one bulk-IN and exactly one bulk-OUT endpoint.
pub open spec fn is_usbtmc_interface(descriptor: InterfaceDescriptor) -> bool {
    &&& descriptor.class_code == USBTMC_INTERFACE_CLASS
    &&& descriptor.sub_class_code == USBTMC_INTERFACE_SUBCLASS
    &&& bulk_count(descriptor.endpoints@, Direction::In) == 1
    &&& bulk_count(descriptor.endpoints@, Direction::Out) == 1
}

/// Counts the bulk endpoints in `endpoints` facing `direction`, capped at 2,
/// and finds the address of the first.
fn count_bulk(endpoints: &Vec<EndpointDescriptor>, direction: Direction) -> (r: (usize, u8))
    ensures
        r.0 == if bulk_count(endpoints@, direction) < 2 {
            bulk_count(endpoints@, direction)
        } else {
            2
        },
        r.0 >= 1 ==> r.1 == first_bulk(endpoints@, direction),
{
    let mut count: usize = 0;
    let mut address: u8 = 0;
    let mut i: usize = 0;
    assert(endpoints@.skip(0) =~= endpoints@);
    while i < endpoints.len()
        invariant
            i <= endpoints.len(),
            count == if bulk_count(endpoints@.take(i as int), direction) < 2 {
                bulk_count(endpoints@.take(i as int), direction)
            } else {
                2
            },
            count >= 1 ==> address == first_bulk(endpoints@, direction),
            count == 0 ==> first_bulk(endpoints@, direction) == first_bulk(
                endpoints@.skip(i as int),
                direction,
            ),
        decreases endpoints.len() - i,
    {
        let e = endpoints[i];
        assert(endpoints@.take(i + 1).drop_last() =~= endpoints@.take(i as int));
        assert(endpoints@.skip(i as int).drop_first() =~= endpoints@.skip(i + 1));
        assert(endpoints@.skip(i as int)[0] == e);
        if e.transfer_type == TransferType::Bulk && e.direction == direction {
            if count == 0 {
                address = e.address;
            }
            if count < 2 {
                count += 1;
            }
        }
        i += 1;
    }
    assert(endpoints@.take(endpoints.len() as int) =~= endpoints@);
    (count, address)
}

/// The position among `interfaces` of the first usable USBTMC interface, if
/// there is one.
pub open spec fn first_usbtmc_interface(interfaces: Seq<InterfaceDescriptor>) -> Option<int> {
    if exists|i: int| 0 <= i < interfaces.len() && is_usbtmc_interface(#[trigger] interfaces[i]) {
        Some(
            choose|i: int|
                0 <= i < interfaces.len() && is_usbtmc_interface(#[trigger] interfaces[i]) && forall|
                    j: int,
                | 0 <= j < i ==> !is_usbtmc_interface(#[trigger] interfaces[j]),
        )
    } else {
        None
    }
}

/// Finds the first usable USBTMC interface among `interfaces` (every
/// alternate setting of every interface of the active configuration, in
/// order), returning `(interface_number, bulk_in_endpoint,
/// bulk_out_endpoint)`.
pub fn find_usbtmc_interface(interfaces: &Vec<InterfaceDescriptor>) -> (r: Result<
    (u8, u8, u8),
    Error,
>)
    ensures
        match r {
            Ok((number, bulk_in, bulk_out)) => exists|i: int|
                0 <= i < interfaces@.len() && is_usbtmc_interface(#[trigger] interfaces@[i])
                    && (forall|j: int| 0 <= j < i ==> !is_usbtmc_interface(#[trigger] interfaces@[j]))
                    && number == interfaces@[i].interface_number && bulk_in == first_bulk(
                    interfaces@[i].endpoints@,
                    Direction::In,
                ) && bulk_out == first_bulk(interfaces@[i].endpoints@, Direction::Out),
            Err(e) => e == Error::UsbTmcInterfaceNotFound && forall|i: int|
                0 <= i < interfaces@.len() ==> !is_usbtmc_interface(#[trigger] interfaces@[i]),
        },
{
    let mut i: usize = 0;
    while i < interfaces.len()
        invariant
            i <= interfaces.len(),
            forall|j: int| 0 <= j < i ==> !is_usbtmc_interface(#[trigger] interfaces@[j]),
        decreases interfaces.len() - i,
    {
        let descriptor = &interfaces[i];
        if descriptor.class_code == USBTMC_INTERFACE_CLASS && descriptor.sub_class_code
            == USBTMC_INTERFACE_SUBCLASS {
            let (ins, bulk_in) = count_bulk(&descriptor.endpoints, Direction::In);
            let (outs, bulk_out) = count_bulk(&descriptor.endpoints, Direction::Out);
            if ins == 1 && outs == 1 {
                assert(is_usbtmc_interface(interfaces@[i as int]));
                return Ok((descriptor.interface_number, bulk_in, bulk_out));
            }
        }
        i += 1;
    }
    Err(Error::UsbTmcInterfaceNotFound)
}

/// Checks the answer to `GET_CAPABILITIES`: `len` bytes arrived in
/// `capabilities`. Returns whether the interface accepts `REN_CONTROL`.
pub fn check_capabilities(len: usize, capabilities: &[u8; GET_CAPABILITIES_LEN]) -> (r: Result<
    bool,
    Error,
>)
    ensures
        len != GET_CAPABILITIES_LEN ==> r == Err::<bool, Error>(
            Error::Protocol(
                ProtocolError::ControlResponseLength {
                    request: GET_CAPABILITIES,
                    got: len,
                    expected: GET_CAPABILITIES_LEN,
                },
            ),
        ),
        len == GET_CAPABILITIES_LEN ==> match check_status_spec(GET_CAPABILITIES, capabilities@[0]) {
            Err(e) => r == Err::<bool, Error>(e),
            Ok(_) => r == Ok::<bool, Error>(accepts_ren_control_spec(capabilities@)),
        },
{
    if len != GET_CAPABILITIES_LEN {
        return Err(
            Error::Protocol(
                ProtocolError::ControlResponseLength {
                    request: GET_CAPABILITIES,
                    got: len,
                    expected: GET_CAPABILITIES_LEN,
                },
            ),
        );
    }
    check_status(GET_CAPABILITIES, capabilities[0])?;
    Ok(accepts_ren_control(capabilities))
}

/// Checks the answer to `REN_CONTROL`: `len` bytes arrived, the first of
/// which is `status`.
pub fn check_ren_control(len: usize, status: u8) -> (r: Result<(), Error>)
    ensures
        len != 1 ==> r == Err::<(), Error>(
            Error::Protocol(
                ProtocolError::ControlResponseLength { request: REN_CONTROL, got: len, expected: 1 },
            ),
        ),
        len == 1 ==> r == check_status_spec(REN_CONTROL, status),
{
    if len != 1 {
        return Err(
            Error::Protocol(
                ProtocolError::ControlResponseLength { request: REN_CONTROL, got: len, expected: 1 },
            ),
        );
    }
    check_status(REN_CONTROL, status)
}

} // verus!

verus! {

/// A message read from the device, as text: `Utf8` if it isn't valid UTF-8.
pub fn message_text(message: Vec<u8>) -> (r: Result<String, Error>)
    ensures
        vstd::utf8::valid_utf8(message@) ==> (r matches Ok(s) && s@ == vstd::utf8::decode_utf8(
            message@,
        )),
        !vstd::utf8::valid_utf8(message@) ==> r == Err::<String, Error>(Error::Utf8),
{
    match crate::text::string_from_utf8(message) {
        Some(s) => Ok(s),
        None => Err(Error::Utf8),
    }
}

} // verus!
