//! What the discovery stream does with each received datagram.
use crate::codec::{
    is_sd_message, read_base_header, read_sd_header, sd_entries_area, sd_flags_byte, sd_header_readable,
    sd_options_area,
};
use crate::error::{DecodeError, DiscoveryError};
use crate::wire::{
    base_header_ok, be32, be32_at, find_entry_wire, header_matches, payload_offset, BASE_HEADER_LEN, SD_FLAGS_KEPT, SD_FLAGS_UNICAST, SD_MESSAGE_ID,
    TP_HEADER_LEN,
};
use crate::query::{
    find_service_datagram, find_service_sd_payload, lemma_be32_round_trip, lemma_query_length_field, FindServiceOpt,
    QUERY_INTERFACE_VERSION, QUERY_REQUEST_ID,
};
use someip_parse::sd::SdHeader;
use someip_parse::MessageType;
use someip_parse::SomeipHeader;
use vstd::prelude::*;
use vstd::slice::slice_subrange;

verus! {

/// One item of the discovery stream: a decoded record or a per-datagram error.
pub type StreamItem = Result<(SomeipHeader, SdHeader), DiscoveryError>;

/// What a received datagram becomes.
pub enum Disposition {
    /// Not an SD message: it is dropped without a trace.
    Skip,
    /// An SD message that decodes: the stream yields its record.
    Record,
    /// A datagram whose base header does not decode.
    BaseMalformed,
    /// An SD message whose SD header does not decode.
    SdMalformed,
}

/// The disposition of datagram `b`.
pub open spec fn disposition(b: Seq<u8>) -> Disposition {
    if !base_header_ok(b) {
        Disposition::BaseMalformed
    } else if be32_at(b, 0) != SD_MESSAGE_ID {
        Disposition::Skip
    } else if sd_header_readable(payload_of(b)) {
        Disposition::Record
    } else {
        Disposition::SdMalformed
    }
}

/// Whether SD header `sd` holds what the bytes `b` carry: the reboot and
/// unicast bits of the flags byte, the entries array and the options array,
/// each taken from behind its length field.
pub open spec fn sd_header_matches(sd: SdHeader, b: Seq<u8>) -> bool {
    &&& sd_flags_byte(sd) == b[0] & SD_FLAGS_KEPT
    &&& sd_entries_area(sd) == b.subrange(8, 8 + be32_at(b, 4))
    &&& sd_options_area(sd) == b.subrange(12 + be32_at(b, 4), 12 + be32_at(b, 4) + be32_at(b, 8 + be32_at(b, 4)))
}

/// The bytes after the base header (and the TP header, if any) of `b`.
pub open spec fn payload_of(b: Seq<u8>) -> Seq<u8> {
    b.subrange(payload_offset(b), b.len() as int)
}

/// Whether record `(h, sd)` is decoded from the datagram `b` alone.
pub open spec fn record_matches(h: SomeipHeader, sd: SdHeader, b: Seq<u8>) -> bool {
    header_matches(h, b) && sd_header_matches(sd, payload_of(b))
}

/// What the stream yields for one datagram, in terms of the datagram's
/// bytes: a record decoded from `Record(b)`, or a decode error.
pub enum Expected {
    Record(Seq<u8>),
    Failure(DecodeError),
}

/// The items that datagram `b` contributes to the stream: none or one.
pub open spec fn expected_of(b: Seq<u8>) -> Seq<Expected> {
    match disposition(b) {
        Disposition::Skip => Seq::empty(),
        Disposition::Record => seq![Expected::Record(b)],
        Disposition::BaseMalformed => seq![Expected::Failure(DecodeError::BaseHeader)],
        Disposition::SdMalformed => seq![Expected::Failure(DecodeError::SdHeader)],
    }
}

/// The items of the stream after datagrams `ds` were received in this order.
pub open spec fn stream_expected(ds: Seq<Seq<u8>>) -> Seq<Expected>
    decreases ds.len(),
{
    if ds.len() == 0 {
        Seq::empty()
    } else {
        stream_expected(ds.drop_last()) + expected_of(ds.last())
    }
}

/// Whether a stream item is what `x` says.
pub open spec fn item_conforms(item: StreamItem, x: Expected) -> bool {
    match x {
        Expected::Record(b) => item matches Ok((h, sd)) && record_matches(h, sd, b),
        Expected::Failure(e) => item == Err::<(SomeipHeader, SdHeader), DiscoveryError>(DiscoveryError::Decode(e)),
    }
}

/// Whether stream items `items` are, one for one, what `xs` says.
pub open spec fn items_conform(items: Seq<StreamItem>, xs: Seq<Expected>) -> bool {
    &&& items.len() == xs.len()
    &&& forall|i: int| 0 <= i < xs.len() ==> #[trigger] item_conforms(items[i], xs[i])
}

/// Decides what the stream does with one received datagram: `None` to skip
/// it (not an SD message), an error item when a header does not decode, or
/// the decoded record.
pub fn decode_datagram(b: &[u8]) -> (r: Option<StreamItem>)
    ensures
        match disposition(b@) {
            Disposition::Skip => r is None,
            Disposition::Record => r matches Some(Ok((h, sd))) && record_matches(h, sd, b@),
            Disposition::BaseMalformed => r == Some(Err::<(SomeipHeader, SdHeader), DiscoveryError>(DiscoveryError::Decode(DecodeError::BaseHeader))),
            Disposition::SdMalformed => r == Some(Err::<(SomeipHeader, SdHeader), DiscoveryError>(DiscoveryError::Decode(DecodeError::SdHeader))),
        },
        r matches Some(item) ==> expected_of(b@).len() == 1 && item_conforms(item, expected_of(b@)[0]),
        r is None ==> expected_of(b@).len() == 0,
{
    let header = match read_base_header(b) {
        Ok(h) => h,
        Err(_) => return Some(Err(DiscoveryError::Decode(DecodeError::BaseHeader))),
    };
    if !is_sd_message(&header) {
        return None;
    }
    let offset: usize = match header.tp_header {
        Some(_) => BASE_HEADER_LEN + TP_HEADER_LEN,
        None => BASE_HEADER_LEN,
    };
    let rest = slice_subrange(b, offset, b.len());
    assert(rest@ == payload_of(b@));
    match read_sd_header(rest) {
        Ok(sd) => Some(Ok((header, sd))),
        Err(_) => Some(Err(DiscoveryError::Decode(DecodeError::SdHeader))),
    }
}

/// One step of the discovery stream after a receive: a failed receive
/// (`None`) is reported as a receive error item and the stream goes on; a
/// received datagram is handled by `decode_datagram`.
pub fn next_item(received: Option<&[u8]>) -> (r: Option<StreamItem>)
    ensures
        received is None ==> r == Some(Err::<(SomeipHeader, SdHeader), DiscoveryError>(DiscoveryError::Receive)),
        received matches Some(b) ==> match disposition(b@) {
            Disposition::Skip => r is None,
            Disposition::Record => r matches Some(Ok((h, sd))) && record_matches(h, sd, b@),
            Disposition::BaseMalformed => r == Some(Err::<(SomeipHeader, SdHeader), DiscoveryError>(DiscoveryError::Decode(DecodeError::BaseHeader))),
            Disposition::SdMalformed => r == Some(Err::<(SomeipHeader, SdHeader), DiscoveryError>(DiscoveryError::Decode(DecodeError::SdHeader))),
        },
{
    match received {
        Some(b) => decode_datagram(b),
        None => Some(Err(DiscoveryError::Receive)),
    }
}

/// Runs the stream over datagrams received in this order: the items are
/// those of `stream_expected`, in receive order.
pub fn decode_datagrams(datagrams: &Vec<Vec<u8>>) -> (r: Vec<StreamItem>)
    ensures
        items_conform(r@, stream_expected(datagrams@.map_values(|d: Vec<u8>| d@))),
{
    let ghost ds = datagrams@.map_values(|d: Vec<u8>| d@);
    let mut items: Vec<StreamItem> = Vec::new();
    let mut i: usize = 0;
    while i < datagrams.len()
        invariant
            i <= datagrams.len(),
            ds == datagrams@.map_values(|d: Vec<u8>| d@),
            items_conform(items@, stream_expected(ds.take(i as int))),
        decreases datagrams.len() - i,
    {
        proof {
            assert(ds.take(i as int + 1).drop_last() =~= ds.take(i as int));
            assert(ds.take(i as int + 1).last() == datagrams@[i as int]@);
        }
        let outcome = decode_datagram(datagrams[i].as_slice());
        let ghost before = items@;
        match outcome {
            Some(item) => {
                items.push(item);
                proof {
                    let xs = stream_expected(ds.take(i as int + 1));
                    assert forall|k: int| 0 <= k < xs.len() implies #[trigger] item_conforms(items@[k], xs[k]) by {
                        if k < before.len() {
                            assert(item_conforms(before[k], stream_expected(ds.take(i as int))[k]));
                        }
                    }
                }
            },
            None => {
                proof {
                    assert(stream_expected(ds.take(i as int + 1)) =~= stream_expected(ds.take(i as int)));
                }
            },
        }
        i = i + 1;
    }
    proof {
        assert(ds.take(datagrams.len() as int) =~= ds);
    }
    items
}

/// Datagrams received one after another give the items of the first ones
/// followed by the items of the later ones: the stream keeps receive order.
pub proof fn lemma_stream_keeps_order(a: Seq<Seq<u8>>, b: Seq<Seq<u8>>)
    ensures
        stream_expected(a + b) == stream_expected(a) + stream_expected(b),
    decreases b.len(),
{
    if b.len() == 0 {
        assert(a + b =~= a);
        assert(stream_expected(a) + stream_expected(b) =~= stream_expected(a));
    } else {
        lemma_stream_keeps_order(a, b.drop_last());
        assert((a + b).drop_last() =~= a + b.drop_last());
        assert((a + b).last() == b.last());
        assert(stream_expected(a + b) =~= stream_expected(a) + stream_expected(b));
    }
}

/// A datagram that is not an SD message leaves no item: the stream over
/// datagrams with it in between yields what it yields without it.
pub proof fn lemma_non_sd_dropped(a: Seq<Seq<u8>>, x: Seq<u8>, b: Seq<Seq<u8>>)
    requires
        base_header_ok(x),
        be32_at(x, 0) != SD_MESSAGE_ID,
    ensures
        stream_expected(a + seq![x] + b) == stream_expected(a + b),
{
    lemma_stream_keeps_order(a + seq![x], b);
    lemma_stream_keeps_order(a, seq![x]);
    lemma_stream_keeps_order(a, b);
    assert(seq![x].drop_last() =~= Seq::<Seq<u8>>::empty());
    assert(seq![x].last() == x);
    assert(stream_expected(Seq::<Seq<u8>>::empty()) == Seq::<Expected>::empty());
    assert(stream_expected(seq![x]) =~= Seq::<Expected>::empty());
    assert(stream_expected(a) + stream_expected(seq![x]) =~= stream_expected(a));
}

/// Every record the stream yields comes from a received SD message whose
/// base header and SD header both decode.
pub proof fn lemma_records_are_sd(ds: Seq<Seq<u8>>)
    ensures
        forall|i: int|
            0 <= i < stream_expected(ds).len() ==> (#[trigger] stream_expected(ds)[i] matches Expected::Record(b) ==> {
                &&& ds.contains(b)
                &&& base_header_ok(b)
                &&& be32_at(b, 0) == SD_MESSAGE_ID
                &&& disposition(b) is Record
            }),
    decreases ds.len(),
{
    if ds.len() > 0 {
        lemma_records_are_sd(ds.drop_last());
        let prev = stream_expected(ds.drop_last());
        assert forall|i: int|
            0 <= i < stream_expected(ds).len() implies (#[trigger] stream_expected(ds)[i] matches Expected::Record(b) ==> {
                &&& ds.contains(b)
                &&& base_header_ok(b)
                &&& be32_at(b, 0) == SD_MESSAGE_ID
                &&& disposition(b) is Record
            }) by {
            if i < prev.len() {
                assert(stream_expected(ds)[i] == prev[i]);
                if let Expected::Record(b) = prev[i] {
                    let j = choose|j: int| 0 <= j < ds.drop_last().len() && ds.drop_last()[j] == b;
                    assert(ds[j] == b);
                }
            } else {
                assert(ds[ds.len() - 1] == ds.last());
            }
        }
    }
}

/// A datagram whose headers do not decode yields exactly one decode error,
/// and the stream goes on: a well-formed SD message received after it still
/// yields its record.
pub proof fn lemma_malformed_isolated(a: Seq<Seq<u8>>, bad: Seq<u8>, good: Seq<u8>)
    requires
        disposition(bad) is BaseMalformed || disposition(bad) is SdMalformed,
        disposition(good) is Record,
    ensures
        expected_of(bad).len() == 1,
        expected_of(bad)[0] is Failure,
        stream_expected(a + seq![bad, good]) == stream_expected(a) + seq![expected_of(bad)[0], Expected::Record(good)],
{
    lemma_stream_keeps_order(a, seq![bad, good]);
    assert(seq![bad, good].drop_last() =~= seq![bad]);
    assert(seq![bad].drop_last() =~= Seq::<Seq<u8>>::empty());
    assert(seq![bad].last() == bad);
    assert(seq![bad, good].last() == good);
    assert(stream_expected(Seq::<Seq<u8>>::empty()) == Seq::<Expected>::empty());
    assert(stream_expected(seq![bad]) =~= expected_of(bad));
    assert(stream_expected(seq![bad, good]) =~= seq![expected_of(bad)[0], Expected::Record(good)]);
}

/// The FindService datagram decodes back to what was built. Once the codec
/// reads its SD header, which `find_service_message` ensures of every query
/// it returns, the stream takes the datagram as a record. Every record
/// decoded from it carries the SD notification base header of the query and
/// an SD header with the unicast flag, exactly the query's FindService entry
/// and no options.
pub proof fn lemma_query_round_trip(opt: FindServiceOpt, h: SomeipHeader, sd: SdHeader)
    ensures
        sd_header_readable(find_service_sd_payload(opt)) ==> disposition(find_service_datagram(opt)) is Record,
        record_matches(h, sd, find_service_datagram(opt)) ==> {
            &&& h.message_id == SD_MESSAGE_ID
            &&& h.length == find_service_datagram(opt).len() - 8
            &&& h.request_id == QUERY_REQUEST_ID as u32
            &&& h.interface_version == QUERY_INTERFACE_VERSION
            &&& h.message_type == MessageType::Notification
            &&& h.return_code == 0
            &&& h.tp_header is None
            &&& sd_flags_byte(sd) == SD_FLAGS_UNICAST
            &&& sd_entries_area(sd) == find_entry_wire(
                0,
                0,
                0,
                0,
                opt.service_id,
                opt.instance_id,
                opt.major_version,
                opt.ttl,
                opt.minor_version,
            )
            &&& sd_options_area(sd) == Seq::<u8>::empty()
        },
{
    lemma_query_layout(opt);
    lemma_query_length_field(opt, h);
}

/// Where the parts of the FindService datagram stand, as the decoder reads them.
proof fn lemma_query_layout(opt: FindServiceOpt)
    ensures
        be32_at(find_service_datagram(opt), 0) == SD_MESSAGE_ID,
        base_header_ok(find_service_datagram(opt)),
        payload_of(find_service_datagram(opt)) == find_service_sd_payload(opt),
        be32_at(find_service_sd_payload(opt), 4) == 16,
        be32_at(find_service_sd_payload(opt), 24) == 0,
        find_service_sd_payload(opt)[0] & SD_FLAGS_KEPT == SD_FLAGS_UNICAST,
        find_service_sd_payload(opt).subrange(8, 24) == find_entry_wire(
            0,
            0,
            0,
            0,
            opt.service_id,
            opt.instance_id,
            opt.major_version,
            opt.ttl,
            opt.minor_version,
        ),
        find_service_sd_payload(opt).subrange(28, 28) == Seq::<u8>::empty(),
{
    let d = find_service_datagram(opt);
    let p = find_service_sd_payload(opt);
    let entry = find_entry_wire(0, 0, 0, 0, opt.service_id, opt.instance_id, opt.major_version, opt.ttl, opt.minor_version);
    let flags = seq![SD_FLAGS_UNICAST, 0x00u8, 0x00u8, 0x00u8];
    assert(base_header_ok(d)) by {
        lemma_query_length_field(opt, arbitrary());
    }
    assert(be32_at(d, 0) == SD_MESSAGE_ID) by {
        let rest = d.subrange(4, d.len() as int);
        assert(d =~= Seq::<u8>::empty() + be32(SD_MESSAGE_ID) + rest);
        lemma_be32_round_trip(SD_MESSAGE_ID, Seq::<u8>::empty(), rest);
    }
    assert(payload_of(d) == p) by {
        assert(d[14] == 0x02u8);
        let t: u8 = 0x02;
        assert(t & 0x20u8 == 0u8) by (bit_vector)
            requires
                t == 0x02u8,
        ;
        assert(payload_of(d) =~= p);
    }
    assert(entry.len() == 16);
    assert(be32_at(p, 4) == 16) by {
        assert(p =~= flags + be32(16) + (entry + be32(0)));
        lemma_be32_round_trip(16, flags, entry + be32(0));
    }
    assert(be32_at(p, 24) == 0) by {
        assert(p =~= (flags + be32(16) + entry) + be32(0) + Seq::<u8>::empty());
        lemma_be32_round_trip(0, flags + be32(16) + entry, Seq::<u8>::empty());
    }
    assert(p.subrange(8, 24) =~= entry);
    assert(p.subrange(28, 28) =~= Seq::<u8>::empty());
    let f: u8 = SD_FLAGS_UNICAST;
    assert(f & 0xc0u8 == 0x40u8) by (bit_vector)
        requires
            f == 0x40u8,
    ;
}
} // verus!
