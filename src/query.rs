//! The FindService query: its parameters and the datagram built from them.
use crate::codec::{
    base_header_bytes, new_find_entry, new_sd_base_header, sd_header_bytes, sd_header_of_entry, sd_header_readable,
};
use crate::wire::{
    base_header_ok, be16, be32, be32_at, find_entry_wire, header_matches, sd_wire,
    BASE_HEADER_LEN, LEN_OFFSET_TO_PAYLOAD, MAX_TTL, SD_FLAGS_UNICAST, SD_MESSAGE_ID,
};
use someip_parse::{MessageType, SomeipHeader};
use vstd::prelude::*;

verus! {

/// An IPv4 multicast group and UDP port.
#[derive(Clone, Copy, Debug)]
pub struct MulticastAddr {
    pub octets: [u8; 4],
    pub port: u16,
}

/// The parameters of one FindService query. A field at its largest value
/// is a wildcard that matches any value.
#[derive(Clone, Copy, Debug)]
pub struct FindServiceOpt {
    pub sd_multicast_addr: MulticastAddr,
    pub service_id: u16,
    pub instance_id: u16,
    pub major_version: u8,
    pub ttl: u32,
    pub minor_version: u32,
}

impl Default for FindServiceOpt {
    /// The SOME/IP-SD group 224.244.224.245:30490, every field a wildcard,
    /// and a TTL of 65535 seconds.
    fn default() -> (r: Self)
        ensures
            r.sd_multicast_addr.octets@ == seq![224u8, 244u8, 224u8, 245u8],
            r.sd_multicast_addr.port == 30490,
            r.service_id == 0xffff,
            r.instance_id == 0xffff,
            r.major_version == 0xff,
            r.ttl == 65535,
            r.minor_version == 0xffff_ffff,
    {
        FindServiceOpt {
            sd_multicast_addr: MulticastAddr { octets: [224, 244, 224, 245], port: 30490 },
            service_id: 0xffff,
            instance_id: 0xffff,
            major_version: 0xff,
            ttl: 65535,
            minor_version: 0xffff_ffff,
        }
    }
}

/// Request id of the query (client id 0, session id 0).
pub const QUERY_REQUEST_ID: u16 = 0;

/// Interface version of the query.
pub const QUERY_INTERFACE_VERSION: u8 = 0;

/// The SD header of a FindService query: reboot clear, unicast set, the one
/// entry, no options.
pub open spec fn find_service_sd_payload(opt: FindServiceOpt) -> Seq<u8> {
    sd_wire(
        SD_FLAGS_UNICAST,
        find_entry_wire(0, 0, 0, 0, opt.service_id, opt.instance_id, opt.major_version, opt.ttl, opt.minor_version),
        Seq::<u8>::empty(),
    )
}

/// The whole FindService datagram: a base header with the SD message id, a
/// length field counting every byte after it, request id 0, protocol
/// version 1, interface version 0, message type notification, return code 0;
/// then the SD header.
pub open spec fn find_service_datagram(opt: FindServiceOpt) -> Seq<u8> {
    let payload = find_service_sd_payload(opt);
    be32(SD_MESSAGE_ID) + be32((LEN_OFFSET_TO_PAYLOAD + payload.len()) as u32) + be32(QUERY_REQUEST_ID as u32)
        + seq![1u8, QUERY_INTERFACE_VERSION, 0x02u8, 0x00u8] + payload
}

/// Whether the codec can encode the parameters: the TTL must fit in 24 bits.
pub open spec fn encodable(opt: FindServiceOpt) -> bool {
    opt.ttl <= MAX_TTL
}

/// Why the FindService datagram could not be built.
#[derive(Clone, Copy, Debug, PartialEq, Eq, Structural)]
pub enum EncodeError {
    /// The TTL does not fit in the entry's 24-bit field.
    TtlTooLarge,
    /// The SD header could not hold the entry.
    HeaderRejected,
    /// The SD header could not be serialised.
    SerializeFailed,
}

proof fn lemma_be32_at_of_be32(v: u32)
    ensures
        ((((v / 0x100_0000u32) as u8) as u32) << 24u32) | (((((v / 0x1_0000u32) % 256u32) as u8) as u32) << 16u32)
            | (((((v / 256u32) % 256u32) as u8) as u32) << 8u32) | (((v % 256u32) as u8) as u32) == v,
{
    assert(((((v / 0x100_0000u32) as u8) as u32) << 24u32) | (((((v / 0x1_0000u32) % 256u32) as u8) as u32) << 16u32)
        | (((((v / 256u32) % 256u32) as u8) as u32) << 8u32) | (((v % 256u32) as u8) as u32) == v) by (bit_vector);
}

/// Reading four big-endian bytes back gives the value written.
pub proof fn lemma_be32_round_trip(v: u32, prefix: Seq<u8>, suffix: Seq<u8>)
    ensures
        be32_at(prefix + be32(v) + suffix, prefix.len() as int) == v,
{
    let b = prefix + be32(v) + suffix;
    let i = prefix.len() as int;
    assert(b[i] == (v / 0x100_0000u32) as u8);
    assert(b[i + 1] == ((v / 0x1_0000u32) % 256u32) as u8);
    assert(b[i + 2] == ((v / 256u32) % 256u32) as u8);
    assert(b[i + 3] == (v % 256u32) as u8);
    lemma_be32_at_of_be32(v);
}

/// Builds the FindService datagram for `opt`: it succeeds exactly when the
/// TTL fits in 24 bits, and then gives the bytes of `find_service_datagram`.
pub fn find_service_message(opt: &FindServiceOpt) -> (r: Result<Vec<u8>, EncodeError>)
    ensures
        r is Ok <==> encodable(*opt),
        r matches Ok(b) ==> b@ == find_service_datagram(*opt),
        r matches Ok(_) ==> sd_header_readable(find_service_sd_payload(*opt)),
        r matches Err(e) ==> e == EncodeError::TtlTooLarge,
{
    let entry = match new_find_entry(0, 0, 0, 0, opt.service_id, opt.instance_id, opt.major_version, opt.ttl, opt.minor_version) {
        Ok(e) => e,
        Err(_) => return Err(EncodeError::TtlTooLarge),
    };
    let sd_header = match sd_header_of_entry(false, &entry) {
        Ok(h) => h,
        Err(_) => return Err(EncodeError::HeaderRejected),
    };
    let mut sd_bytes = match sd_header_bytes(&sd_header) {
        Ok(b) => b,
        Err(_) => return Err(EncodeError::SerializeFailed),
    };
    assert(sd_bytes@ == find_service_sd_payload(*opt));
    assert(sd_bytes@.len() == 28);
    let length: u32 = LEN_OFFSET_TO_PAYLOAD + sd_bytes.len() as u32;
    let mut header = new_sd_base_header(length, QUERY_REQUEST_ID, None);
    header.interface_version = QUERY_INTERFACE_VERSION;
    let mut out = base_header_bytes(&header);
    out.append(&mut sd_bytes);
    assert(out@ =~= find_service_datagram(*opt));
    Ok(out)
}

/// The length field of the FindService datagram counts exactly the bytes
/// that follow it: the eight remaining header bytes and the serialised SD
/// header. Reading the base header back accepts it and gives an SD
/// notification carrying that length, request id 0, interface version 0
/// and no TP header.
pub proof fn lemma_query_length_field(opt: FindServiceOpt, h: SomeipHeader)
    ensures
        be32_at(find_service_datagram(opt), 4) == find_service_datagram(opt).len() - 8,
        be32_at(find_service_datagram(opt), 4) == LEN_OFFSET_TO_PAYLOAD + find_service_sd_payload(opt).len(),
        find_service_datagram(opt).len() == BASE_HEADER_LEN + find_service_sd_payload(opt).len(),
        base_header_ok(find_service_datagram(opt)),
        header_matches(h, find_service_datagram(opt)) ==> {
            &&& h.message_id == SD_MESSAGE_ID
            &&& h.length == find_service_datagram(opt).len() - 8
            &&& h.request_id == QUERY_REQUEST_ID as u32
            &&& h.interface_version == QUERY_INTERFACE_VERSION
            &&& h.message_type == MessageType::Notification
            &&& h.return_code == 0
            &&& h.tp_header is None
        },
{
    let d = find_service_datagram(opt);
    let payload = find_service_sd_payload(opt);
    assert(payload.len() == 28);
    let len = (LEN_OFFSET_TO_PAYLOAD + payload.len()) as u32;
    assert(d == Seq::<u8>::empty() + be32(SD_MESSAGE_ID) + (be32(len) + be32(QUERY_REQUEST_ID as u32) + seq![1u8, QUERY_INTERFACE_VERSION, 0x02u8, 0x00u8] + payload)) by {
        assert(d =~= Seq::<u8>::empty() + be32(SD_MESSAGE_ID) + (be32(len) + be32(QUERY_REQUEST_ID as u32) + seq![1u8, QUERY_INTERFACE_VERSION, 0x02u8, 0x00u8] + payload));
    }
    lemma_be32_round_trip(SD_MESSAGE_ID, Seq::<u8>::empty(), be32(len) + be32(QUERY_REQUEST_ID as u32) + seq![1u8, QUERY_INTERFACE_VERSION, 0x02u8, 0x00u8] + payload);
    assert(d == be32(SD_MESSAGE_ID) + be32(len) + (be32(QUERY_REQUEST_ID as u32) + seq![1u8, QUERY_INTERFACE_VERSION, 0x02u8, 0x00u8] + payload)) by {
        assert(d =~= be32(SD_MESSAGE_ID) + be32(len) + (be32(QUERY_REQUEST_ID as u32) + seq![1u8, QUERY_INTERFACE_VERSION, 0x02u8, 0x00u8] + payload));
    }
    lemma_be32_round_trip(len, be32(SD_MESSAGE_ID), be32(QUERY_REQUEST_ID as u32) + seq![1u8, QUERY_INTERFACE_VERSION, 0x02u8, 0x00u8] + payload);
    assert(d == be32(SD_MESSAGE_ID) + be32(len) + be32(QUERY_REQUEST_ID as u32) + (seq![1u8, QUERY_INTERFACE_VERSION, 0x02u8, 0x00u8] + payload)) by {
        assert(d =~= be32(SD_MESSAGE_ID) + be32(len) + be32(QUERY_REQUEST_ID as u32) + (seq![1u8, QUERY_INTERFACE_VERSION, 0x02u8, 0x00u8] + payload));
    }
    lemma_be32_round_trip(QUERY_REQUEST_ID as u32, be32(SD_MESSAGE_ID) + be32(len), seq![1u8, QUERY_INTERFACE_VERSION, 0x02u8, 0x00u8] + payload);
    assert(d[12] == 1u8 && d[13] == QUERY_INTERFACE_VERSION && d[14] == 0x02u8 && d[15] == 0x00u8);
    let t: u8 = 0x02;
    assert(t & 0xdfu8 == 0x02u8 && t & 0x20u8 == 0u8) by (bit_vector)
        requires
            t == 0x02u8,
    ;
}

/// Every field of the query, wildcard or not, stands verbatim in the
/// FindService entry of the datagram: service id, instance id, major
/// version, the low 24 bits of the TTL and the minor version, each big-endian.
pub proof fn lemma_query_fields_verbatim(opt: FindServiceOpt)
    ensures
        find_service_datagram(opt).len() == 44,
        find_service_datagram(opt)[24] == 0x00u8,
        find_service_datagram(opt).subrange(28, 30) == be16(opt.service_id),
        find_service_datagram(opt).subrange(30, 32) == be16(opt.instance_id),
        find_service_datagram(opt)[32] == opt.major_version,
        find_service_datagram(opt).subrange(33, 36) == be32(opt.ttl).subrange(1, 4),
        find_service_datagram(opt).subrange(36, 40) == be32(opt.minor_version),
{
    let d = find_service_datagram(opt);
    assert(d.subrange(28, 30) =~= be16(opt.service_id));
    assert(d.subrange(30, 32) =~= be16(opt.instance_id));
    assert(d.subrange(33, 36) =~= be32(opt.ttl).subrange(1, 4));
    assert(d.subrange(36, 40) =~= be32(opt.minor_version));
}

} // verus!
