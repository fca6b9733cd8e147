//! Request frame encoding and raw response decoding.
//!
//! Every request frame begins with [`COMMAND_START`], carries a one-byte
//! command identifier and a command-specific payload, and ends with
//! [`COMMAND_END`]. Each encoder here returns the complete frame as bytes;
//! the caller owns the transport and writes the frame itself.

use vstd::prelude::*;

use crate::bytes::{be16_of, be32_of, push_u16_be, push_u32_be, u16_bytes, u32_bytes};
use crate::data_type::{valid_width, wire_tag, wire_width, DataType};
use crate::error::Error;

verus! {

/// The byte that starts every frame.
pub const COMMAND_START: u8 = 0xFF;

/// The byte that ends every frame.
pub const COMMAND_END: u8 = 0xFE;

/// Command identifier: read a value at an address.
pub const READ_COMMAND: u8 = 0x01;

/// Command identifier: write a value at an address.
pub const WRITE_COMMAND: u8 = 0x02;

/// Command identifier: register a watch on an address.
pub const WATCH_COMMAND: u8 = 0x03;

/// Command identifier: list the registered watches.
pub const VIEW_WATCH_COMMAND: u8 = 0x04;

/// Command identifier: remove the watch on an address.
pub const UNWATCH_COMMAND: u8 = 0x05;

/// A watch as reported by the remote peer: an address, the byte width of the
/// watched value, its last-known value zero-extended into a 32-bit container,
/// and the data type under which the value is to be reinterpreted.
#[derive(Clone, Copy, Debug, PartialEq, Eq, Structural)]
pub struct Watch {
    pub address: u32,
    pub nbytes: u8,
    pub value: u32,
    pub data_type: DataType,
}

impl Default for Watch {
    /// An empty watch: address and value zero, width zero, type `U32`.
    fn default() -> (r: Self)
        ensures
            r.address == 0,
            r.nbytes == 0,
            r.value == 0,
            r.data_type == DataType::U32,
    {
        Watch { address: 0, nbytes: 0, value: 0, data_type: DataType::U32 }
    }
}

/// True when `value` fits in `width` bytes, so that it can be carried on the
/// wire without loss.
pub open spec fn fits_width(value: u32, width: u8) -> bool {
    &&& width == 1 ==> value < 0x100
    &&& width == 2 ==> value < 0x10000
}

/// The `width` big-endian bytes that carry `value` on the wire.
pub open spec fn value_bytes(width: u8, value: u32) -> Seq<u8>
    recommends
        valid_width(width),
        fits_width(value, width),
{
    if width == 1 {
        seq![value as u8]
    } else if width == 2 {
        u16_bytes(value as u16)
    } else {
        u32_bytes(value)
    }
}

/// The request frame of a read command.
pub open spec fn read_frame(address: u32, width: u8) -> Seq<u8> {
    seq![COMMAND_START, READ_COMMAND] + u32_bytes(address) + seq![width, COMMAND_END]
}

/// The request frame of a write command.
pub open spec fn write_frame(address: u32, width: u8, value: u32) -> Seq<u8> {
    seq![COMMAND_START, WRITE_COMMAND] + u32_bytes(address) + seq![width] + value_bytes(
        width,
        value,
    ) + seq![COMMAND_END]
}

/// The request frame of a watch command.
pub open spec fn watch_frame(address: u32, dt: DataType) -> Seq<u8> {
    seq![COMMAND_START, WATCH_COMMAND] + u32_bytes(address) + seq![
        wire_width(dt),
        wire_tag(dt),
        COMMAND_END,
    ]
}

/// The request frame of a view-watches command. The four zero bytes are
/// reserved padding and carry no meaning.
pub open spec fn view_watches_frame() -> Seq<u8> {
    seq![COMMAND_START, VIEW_WATCH_COMMAND, 0u8, 0u8, 0u8, 0u8, COMMAND_END]
}

/// The request frame of an unwatch command.
pub open spec fn unwatch_frame(address: u32) -> Seq<u8> {
    seq![COMMAND_START, UNWATCH_COMMAND] + u32_bytes(address) + seq![COMMAND_END]
}

/// Encode a read command: ask the peer for the `width` bytes at `address`.
/// The peer answers with exactly `width` raw big-endian bytes, with no
/// delimiters around them.
pub fn send_read_command(address: u32, width: u8) -> (frame: Vec<u8>)
    requires
        valid_width(width),
    ensures
        frame@ == read_frame(address, width),
{
    let mut frame: Vec<u8> = Vec::new();
    frame.push(COMMAND_START);
    frame.push(READ_COMMAND);
    push_u32_be(&mut frame, address);
    frame.push(width);
    frame.push(COMMAND_END);
    assert(frame@ =~= read_frame(address, width));
    frame
}

/// Encode a write command: ask the peer to store `value`, carried in `width`
/// big-endian bytes, at `address`. The width is the declared byte size of the
/// value, never inferred from its magnitude. The command has no response.
pub fn write_value(address: u32, width: u8, value: u32) -> (frame: Vec<u8>)
    requires
        valid_width(width),
        fits_width(value, width),
    ensures
        frame@ == write_frame(address, width, value),
{
    let mut frame: Vec<u8> = Vec::new();
    frame.push(COMMAND_START);
    frame.push(WRITE_COMMAND);
    push_u32_be(&mut frame, address);
    frame.push(width);
    if width == 1 {
        frame.push(value as u8);
    } else if width == 2 {
        push_u16_be(&mut frame, value as u16);
    } else {
        push_u32_be(&mut frame, value);
    }
    frame.push(COMMAND_END);
    assert(frame@ =~= write_frame(address, width, value));
    frame
}

/// Encode a watch command: ask the peer to track the value at `address`
/// under the width and sign tag of `dt`. The command has no response.
pub fn watch_value(address: u32, dt: &DataType) -> (frame: Vec<u8>)
    ensures
        frame@ == watch_frame(address, *dt),
{
    let mut frame: Vec<u8> = Vec::new();
    frame.push(COMMAND_START);
    frame.push(WATCH_COMMAND);
    push_u32_be(&mut frame, address);
    let (width, tag) = dt.to_wire();
    frame.push(width);
    frame.push(tag);
    frame.push(COMMAND_END);
    assert(frame@ =~= watch_frame(address, *dt));
    frame
}

/// Encode a view-watches command: ask the peer for all registered watches.
/// The response is decoded by [`crate::decode::decode_view_watches`].
pub fn view_watch_values() -> (frame: Vec<u8>)
    ensures
        frame@ == view_watches_frame(),
{
    let mut frame: Vec<u8> = Vec::new();
    frame.push(COMMAND_START);
    frame.push(VIEW_WATCH_COMMAND);
    frame.push(0);
    frame.push(0);
    frame.push(0);
    frame.push(0);
    frame.push(COMMAND_END);
    assert(frame@ =~= view_watches_frame());
    frame
}

/// Encode an unwatch command: ask the peer to stop tracking `address`. The
/// command has no response.
pub fn unwatch_value(address: u32) -> (frame: Vec<u8>)
    ensures
        frame@ == unwatch_frame(address),
{
    let mut frame: Vec<u8> = Vec::new();
    frame.push(COMMAND_START);
    frame.push(UNWATCH_COMMAND);
    push_u32_be(&mut frame, address);
    frame.push(COMMAND_END);
    assert(frame@ =~= unwatch_frame(address));
    frame
}

/// Decode the raw one-byte response of a read command for a 1-byte value.
pub fn read_u8(bytes: &[u8]) -> (r: u8)
    requires
        bytes@.len() == 1,
    ensures
        r == bytes@[0],
{
    bytes[0]
}

/// Decode the raw two-byte big-endian response of a read command for a
/// 2-byte value.
pub fn read_u16(bytes: &[u8]) -> (r: u16)
    requires
        bytes@.len() == 2,
    ensures
        r == be16_of(bytes@),
{
    let r = crate::bytes::read_u16_at(bytes, 0);
    assert(bytes@.subrange(0, 2) =~= bytes@);
    r
}

/// Decode the raw four-byte big-endian response of a read command for a
/// 4-byte value.
pub fn read_u32(bytes: &[u8]) -> (r: u32)
    requires
        bytes@.len() == 4,
    ensures
        r == be32_of(bytes@),
{
    let r = crate::bytes::read_u32_at(bytes, 0);
    assert(bytes@.subrange(0, 4) =~= bytes@);
    r
}

/// Check one framing byte of a response: the byte is returned when it equals
/// the expected constant, and the call fails with `InvalidReturnByte`
/// otherwise.
pub fn read_u8_expect(got: u8, expect: u8) -> (r: Result<u8, Error>)
    ensures
        got == expect ==> r == Ok::<u8, Error>(got),
        got != expect ==> r == Err::<u8, Error>(Error::InvalidReturnByte(got, expect)),
{
    if got != expect {
        Err(Error::InvalidReturnByte(got, expect))
    } else {
        Ok(got)
    }
}

/// For every supported width and every value that fits it, carrying the value
/// in `width` big-endian bytes and reading those bytes back recovers exactly
/// the value: a read's raw response round-trips.
pub proof fn lemma_read_round_trip(width: u8, value: u32)
    requires
        valid_width(width),
        fits_width(value, width),
    ensures
        width == 1 ==> value_bytes(width, value)[0] == value,
        width == 2 ==> be16_of(value_bytes(width, value)) == value,
        width == 4 ==> be32_of(value_bytes(width, value)) == value,
{
    if width == 2 {
        crate::bytes::lemma_be16_round_trip(value as u16);
    }
    if width == 4 {
        crate::bytes::lemma_be32_round_trip(value);
    }
}

} // verus!
