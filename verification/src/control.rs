use crate::err::{Error, TransferError};
use crate::request::VendorRequest;
use crate::ty::{BoardId, BoardRev};
use vstd::prelude::*;
use vstd::utf8::{encode_utf8, valid_utf8};

verus! {

/// Who defines the meaning of a control request.
#[derive(Debug, Clone, Copy, PartialEq, Eq, Structural)]
pub enum ControlType {
    Standard,
    Class,
    Vendor,
}

/// What a control request is addressed to.
#[derive(Debug, Clone, Copy, PartialEq, Eq, Structural)]
pub enum Recipient {
    Device,
    Interface,
    Endpoint,
    Other,
}

/// A control query: the setup fields and the number of bytes asked for.
#[derive(Debug, Clone, Copy, PartialEq, Eq, Structural)]
pub struct ControlIn {
    pub control_type: ControlType,
    pub recipient: Recipient,
    pub request: u8,
    pub value: u16,
    pub index: u16,
    pub length: u16,
}

/// A control command: the setup fields and the payload that goes with them.
#[derive(Debug, PartialEq, Eq)]
pub struct ControlOut {
    pub control_type: ControlType,
    pub recipient: Recipient,
    pub request: u8,
    pub value: u16,
    pub index: u16,
    pub data: Vec<u8>,
}

/// What a control command says, with its payload as a sequence.
pub struct ControlOutView {
    pub control_type: ControlType,
    pub recipient: Recipient,
    pub request: u8,
    pub value: u16,
    pub index: u16,
    pub data: Seq<u8>,
}

impl View for ControlOut {
    type V = ControlOutView;

    open spec fn view(&self) -> ControlOutView {
        ControlOutView {
            control_type: self.control_type,
            recipient: self.recipient,
            request: self.request,
            value: self.value,
            index: self.index,
            data: self.data@,
        }
    }
}

/// How a transfer ended: the bytes that came with it and whether it succeeded.
/// A failed transfer may still carry bytes.
#[derive(Debug, PartialEq, Eq)]
pub struct Completion {
    pub data: Vec<u8>,
    pub status: Result<(), TransferError>,
}

/// The vendor query to the device as a whole with the given fields.
pub open spec fn vendor_in(request: VendorRequest, index: u16, value: u16, length: u16) -> ControlIn {
    ControlIn {
        control_type: ControlType::Vendor,
        recipient: Recipient::Device,
        request: request.spec_code(),
        value,
        index,
        length,
    }
}

/// The vendor command to the device as a whole with the given fields.
pub open spec fn vendor_out(
    request: VendorRequest,
    index: u16,
    value: u16,
    data: Seq<u8>,
) -> ControlOutView {
    ControlOutView {
        control_type: ControlType::Vendor,
        recipient: Recipient::Device,
        request: request.spec_code(),
        value,
        index,
        data,
    }
}

/// Builds a vendor query to the device as a whole.
pub fn control_in(vrid: VendorRequest, index: u16, value: u16, length: u16) -> (query: ControlIn)
    ensures
        query == vendor_in(vrid, index, value, length),
{
    ControlIn {
        control_type: ControlType::Vendor,
        recipient: Recipient::Device,
        request: vrid.into(),
        value,
        index,
        length,
    }
}

/// Builds a vendor command to the device as a whole.
pub fn control_out(vrid: VendorRequest, index: u16, value: u16, data: Vec<u8>) -> (command:
    ControlOut)
    ensures
        command@ == vendor_out(vrid, index, value, data@),
{
    ControlOut {
        control_type: ControlType::Vendor,
        recipient: Recipient::Device,
        request: vrid.into(),
        value,
        index,
        data,
    }
}

/// The four bytes of a 32-bit number, least significant first.
pub open spec fn le_bytes(x: u32) -> Seq<u8> {
    seq![
        (x % 256) as u8,
        (x / 256 % 256) as u8,
        (x / 65536 % 256) as u8,
        (x / 16777216) as u8,
    ]
}

/// The number that four little-endian bytes stand for.
pub open spec fn from_le_bytes(bytes: Seq<u8>) -> int {
    bytes[0] + 256 * bytes[1] + 65536 * bytes[2] + 16777216 * bytes[3]
}

/// The little-endian bytes of a number stand for that number.
pub proof fn lemma_le_bytes_round_trip(x: u32)
    ensures
        le_bytes(x).len() == 4,
        from_le_bytes(le_bytes(x)) == x,
{
}

/// Appends the four bytes of `x`, least significant first.
pub fn push_le_bytes(buffer: &mut Vec<u8>, x: u32)
    ensures
        final(buffer)@ == old(buffer)@ + le_bytes(x),
{
    assert(x & 0xff == x % 256 && (x >> 8) & 0xff == x / 256 % 256 && (x >> 16) & 0xff == x / 65536
        % 256 && (x >> 24) & 0xff == x / 16777216) by (bit_vector);
    let b0: u8 = (x & 0xff) as u8;
    let b1: u8 = ((x >> 8) & 0xff) as u8;
    let b2: u8 = ((x >> 16) & 0xff) as u8;
    let b3: u8 = ((x >> 24) & 0xff) as u8;
    buffer.push(b0);
    buffer.push(b1);
    buffer.push(b2);
    buffer.push(b3);
    assert(buffer@ =~= old(buffer)@ + le_bytes(x));
}

/// The eight-byte payload that carries two 32-bit numbers, each least
/// significant byte first.
pub open spec fn pair_payload(first: u32, second: u32) -> Seq<u8> {
    le_bytes(first) + le_bytes(second)
}

/// Builds the eight-byte payload of two 32-bit numbers.
pub fn encode_pair(first: u32, second: u32) -> (data: Vec<u8>)
    ensures
        data@ == pair_payload(first, second),
        data@.len() == 8,
{
    let mut data: Vec<u8> = Vec::with_capacity(8);
    push_le_bytes(&mut data, first);
    push_le_bytes(&mut data, second);
    assert(data@ =~= pair_payload(first, second));
    data
}

/// The upper sixteen bits of a 32-bit number.
pub open spec fn high_half(x: u32) -> u16 {
    (x / 65536) as u16
}

/// The lower sixteen bits of a 32-bit number.
pub open spec fn low_half(x: u32) -> u16 {
    (x % 65536) as u16
}

/// Splits a 32-bit number into its upper and lower sixteen bits.
pub fn split_halves(x: u32) -> (halves: (u16, u16))
    ensures
        halves.0 == high_half(x),
        halves.1 == low_half(x),
        x == 65536 * halves.0 + halves.1,
{
    assert(x >> 16 == x / 65536 && x & 0xffff == x % 65536) by (bit_vector);
    ((x >> 16) as u16, (x & 0xffff) as u16)
}

/// The text that a run of bytes reads as when every sequence that is not
/// valid UTF-8 is replaced by the replacement character.
pub uninterp spec fn utf8_lossy(bytes: Seq<u8>) -> Seq<char>;

/// `String::from_utf8_lossy` of the standard library, with the text copied
/// into a `String`. The text depends on the bytes alone, and where the bytes
/// are valid UTF-8 they are the text's own bytes.
#[verifier::external_body]
fn from_utf8_lossy(bytes: &[u8]) -> (text: String)
    ensures
        text@ == utf8_lossy(bytes@),
        valid_utf8(bytes@) ==> encode_utf8(text@) == bytes@,
{
    String::from_utf8_lossy(bytes).into_owned()
}

/// What a reply that must begin with a byte gives: the failure of the
/// transfer, or `Resp` for an empty reply, or the first byte.
pub open spec fn first_byte(data: Seq<u8>, status: Result<(), TransferError>) -> Result<u8, Error> {
    match status {
        Err(error) => Err(Error::Transfer(error)),
        Ok(_) => if data.len() == 0 {
            Err(Error::Resp)
        } else {
            Ok(data[0])
        },
    }
}

/// What the reply to a gain setting gives: the device accepts the value with
/// a first byte of 1 and declines it with any other.
pub open spec fn gain_reply(
    data: Seq<u8>,
    status: Result<(), TransferError>,
    name: &'static str,
) -> Result<(), Error> {
    match first_byte(data, status) {
        Err(error) => Err(error),
        Ok(byte) => if byte == 1 {
            Ok(())
        } else {
            Err(Error::Param(name))
        },
    }
}

impl Completion {
    /// The outcome of a transfer whose reply carries nothing to read.
    pub fn into_status(self) -> (res: Result<(), Error>)
        ensures
            res == match self.status {
                Ok(_) => Ok::<(), Error>(()),
                Err(error) => Err(Error::Transfer(error)),
            },
    {
        match self.status {
            Ok(_) => Ok(()),
            Err(error) => Err(Error::Transfer(error)),
        }
    }

    /// The bytes of a successful transfer, or the failure of a failed one.
    pub fn into_result(self) -> (res: Result<Vec<u8>, Error>)
        ensures
            res == match self.status {
                Ok(_) => Ok::<Vec<u8>, Error>(self.data),
                Err(error) => Err(Error::Transfer(error)),
            },
    {
        match self.status {
            Ok(_) => Ok(self.data),
            Err(error) => Err(Error::Transfer(error)),
        }
    }

    /// The first byte of the reply.
    fn first(&self) -> (res: Result<u8, Error>)
        ensures
            res == first_byte(self.data@, self.status),
    {
        match self.status {
            Err(error) => Err(Error::Transfer(error)),
            Ok(_) => if self.data.len() == 0 {
                Err(Error::Resp)
            } else {
                Ok(self.data[0])
            },
        }
    }

    /// Reads the reply to [`crate::Device::board_id`].
    pub fn board_id(&self) -> (res: Result<BoardId, Error>)
        ensures
            res == match first_byte(self.data@, self.status) {
                Ok(byte) => Ok::<BoardId, Error>(BoardId::spec_from_byte(byte)),
                Err(error) => Err(error),
            },
    {
        match self.first() {
            Ok(byte) => Ok(BoardId::from(byte)),
            Err(error) => Err(error),
        }
    }

    /// Reads the reply to [`crate::Device::board_rev`].
    pub fn board_rev(&self) -> (res: Result<BoardRev, Error>)
        ensures
            res == match first_byte(self.data@, self.status) {
                Ok(byte) => Ok::<BoardRev, Error>(BoardRev::spec_from_byte(byte)),
                Err(error) => Err(error),
            },
    {
        match self.first() {
            Ok(byte) => Ok(BoardRev::from(byte)),
            Err(error) => Err(error),
        }
    }

    /// Reads the reply to [`crate::Device::version`]: all of its bytes as
    /// text, with nothing trimmed.
    pub fn version(&self) -> (res: Result<String, Error>)
        ensures
            match self.status {
                Ok(_) => res is Ok && (res->Ok_0)@ == utf8_lossy(self.data@) && (valid_utf8(
                    self.data@,
                ) ==> encode_utf8((res->Ok_0)@) == self.data@),
                Err(error) => res == Err::<String, Error>(Error::Transfer(error)),
            },
    {
        match self.status {
            Ok(_) => Ok(from_utf8_lossy(self.data.as_slice())),
            Err(error) => Err(Error::Transfer(error)),
        }
    }

    /// Reads the reply to a gain setting for the parameter `name`.
    fn gain(&self, name: &'static str) -> (res: Result<(), Error>)
        ensures
            res == gain_reply(self.data@, self.status, name),
    {
        match self.first() {
            Err(error) => Err(error),
            Ok(byte) => if byte == 1 {
                Ok(())
            } else {
                Err(Error::Param(name))
            },
        }
    }

    /// Reads the reply to [`crate::Device::set_lna_gain`].
    pub fn set_lna_gain(&self) -> (res: Result<(), Error>)
        ensures
            res == gain_reply(self.data@, self.status, "Lna Gain"),
    {
        self.gain("Lna Gain")
    }

    /// Reads the reply to [`crate::Device::set_vga_gain`].
    pub fn set_vga_gain(&self) -> (res: Result<(), Error>)
        ensures
            res == gain_reply(self.data@, self.status, "Vga Gain"),
    {
        self.gain("Vga Gain")
    }
}

} // verus!
