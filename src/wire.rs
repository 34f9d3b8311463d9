//! Byte layouts of the SOME/IP and SOME/IP-SD wire format, as spec functions.
use vstd::prelude::*;

verus! {

/// Message id carried by every SOME/IP-SD message (service 0xFFFF, method 0x8100).
pub const SD_MESSAGE_ID: u32 = 0xffff_8100;

/// The only SOME/IP protocol version understood.
pub const PROTOCOL_VERSION: u8 = 1;

/// Length of the base SOME/IP header in bytes.
pub const BASE_HEADER_LEN: usize = 16;

/// Length of the optional SOME/IP-TP header that follows the base header.
pub const TP_HEADER_LEN: usize = 4;

/// Bit of the message-type byte that announces a SOME/IP-TP header.
pub const TP_FLAG: u8 = 0x20;

/// Bytes of the base header that the length field counts besides the payload
/// (request id, protocol version, interface version, message type, return code).
pub const LEN_OFFSET_TO_PAYLOAD: u32 = 8;

/// Largest value of the 24-bit TTL field of an SD entry.
pub const MAX_TTL: u32 = 0x00ff_ffff;

/// Flags byte of an SD header with the unicast flag set and the reboot flag clear.
pub const SD_FLAGS_UNICAST: u8 = 0x40;

/// Flags byte of an SD header with both the reboot and the unicast flag set.
pub const SD_FLAGS_REBOOT_UNICAST: u8 = 0xc0;

/// The bits of the SD flags byte that a header keeps: reboot and unicast.
pub const SD_FLAGS_KEPT: u8 = 0xc0;

/// Big-endian bytes of a 16-bit value.
pub open spec fn be16(v: u16) -> Seq<u8> {
    seq![(v / 256) as u8, (v % 256) as u8]
}

/// Big-endian bytes of a 32-bit value.
pub open spec fn be32(v: u32) -> Seq<u8> {
    seq![(v / 0x100_0000) as u8, ((v / 0x1_0000) % 256) as u8, ((v / 256) % 256) as u8, (v % 256) as u8]
}

/// The 32-bit big-endian value stored at `b[i..i + 4]`.
pub open spec fn be32_at(b: Seq<u8>, i: int) -> u32 {
    ((b[i] as u32) << 24u32) | ((b[i + 1] as u32) << 16u32) | ((b[i + 2] as u32) << 8u32) | (b[i + 3] as u32)
}

/// Largest number of options in one option run of an SD entry (4 bits).
pub const MAX_RUN_LEN: u8 = 15;

/// The 16 bytes of a FindService entry: type, the start of each option run,
/// both run lengths in one byte, then the ids, versions and the 24-bit TTL.
pub open spec fn find_entry_wire(
    index_first_option_run: u8,
    index_second_option_run: u8,
    number_of_options_1: u8,
    number_of_options_2: u8,
    service_id: u16,
    instance_id: u16,
    major_version: u8,
    ttl: u32,
    minor_version: u32,
) -> Seq<u8> {
    seq![0x00u8, index_first_option_run, index_second_option_run, (number_of_options_1 * 16 + number_of_options_2) as u8]
        + be16(service_id) + be16(instance_id) + seq![major_version]
        + be32(ttl).subrange(1, 4) + be32(minor_version)
}

/// The bytes of an SD header: flags, three reserved bytes, the entries array
/// and the options array, each array preceded by its length.
pub open spec fn sd_wire(flags: u8, entries: Seq<u8>, options: Seq<u8>) -> Seq<u8> {
    seq![flags, 0x00u8, 0x00u8, 0x00u8] + be32(entries.len() as u32) + entries + be32(options.len() as u32) + options
}

/// The message-type byte of a message type, without the TP flag.
pub open spec fn message_type_byte(t: someip_parse::MessageType) -> u8 {
    match t {
        someip_parse::MessageType::Request => 0x00u8,
        someip_parse::MessageType::RequestNoReturn => 0x01u8,
        someip_parse::MessageType::Notification => 0x02u8,
        someip_parse::MessageType::Response => 0x80u8,
        someip_parse::MessageType::Error => 0x81u8,
    }
}

/// The message type that a message-type byte (TP flag cleared) names, if any.
pub open spec fn message_type_of(b: u8) -> Option<someip_parse::MessageType> {
    if b == 0x00 {
        Some(someip_parse::MessageType::Request)
    } else if b == 0x01 {
        Some(someip_parse::MessageType::RequestNoReturn)
    } else if b == 0x02 {
        Some(someip_parse::MessageType::Notification)
    } else if b == 0x80 {
        Some(someip_parse::MessageType::Response)
    } else if b == 0x81 {
        Some(someip_parse::MessageType::Error)
    } else {
        None
    }
}

/// The 16 bytes of a base SOME/IP header.
pub open spec fn base_wire(h: someip_parse::SomeipHeader) -> Seq<u8> {
    be32(h.message_id) + be32(h.length) + be32(h.request_id) + seq![
        PROTOCOL_VERSION,
        h.interface_version,
        if h.tp_header is Some { message_type_byte(h.message_type) | TP_FLAG } else { message_type_byte(h.message_type) },
        h.return_code,
    ]
}

/// Whether the TP flag is set in the message-type byte of `b`.
pub open spec fn has_tp_flag(b: Seq<u8>) -> bool {
    b[14] & TP_FLAG != 0
}

/// Whether `b` starts with a base header that a reader accepts: it is long
/// enough, its length field covers the rest of the header, its protocol
/// version is known and its message type is one of the five defined ones.
pub open spec fn base_header_ok(b: Seq<u8>) -> bool {
    &&& b.len() >= BASE_HEADER_LEN
    &&& be32_at(b, 4) >= LEN_OFFSET_TO_PAYLOAD
    &&& b[12] == PROTOCOL_VERSION
    &&& message_type_of(b[14] & 0xdfu8) is Some
    &&& has_tp_flag(b) ==> b.len() >= BASE_HEADER_LEN + TP_HEADER_LEN
}

/// Whether header `h` holds the fields stored in the first 16 bytes of `b`.
pub open spec fn header_matches(h: someip_parse::SomeipHeader, b: Seq<u8>) -> bool {
    &&& h.message_id == be32_at(b, 0)
    &&& h.length == be32_at(b, 4)
    &&& h.request_id == be32_at(b, 8)
    &&& h.interface_version == b[13]
    &&& message_type_of(b[14] & 0xdfu8) == Some(h.message_type)
    &&& h.return_code == b[15]
    &&& (h.tp_header is Some <==> has_tp_flag(b))
}

/// Where the payload starts after a base header that `b` starts with.
pub open spec fn payload_offset(b: Seq<u8>) -> int {
    if has_tp_flag(b) { BASE_HEADER_LEN + TP_HEADER_LEN } else { BASE_HEADER_LEN as int }
}

} // verus!
