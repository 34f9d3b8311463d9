use someip_explorer::{
    decode_datagram, decode_datagrams, find_service_message, DecodeError, DiscoveryError,
    EncodeError, FindServiceOpt, MulticastAddr, SomeIpClient, SomeIpServer,
};
use someip_parse::sd::{SdEntry, SdHeader};
use someip_parse::MessageType;

fn opt(service_id: u16, instance_id: u16, major_version: u8, ttl: u32, minor_version: u32) -> FindServiceOpt {
    FindServiceOpt {
        sd_multicast_addr: MulticastAddr { octets: [224, 244, 224, 245], port: 30490 },
        service_id,
        instance_id,
        major_version,
        ttl,
        minor_version,
    }
}

fn base_header(message_id: u32, payload: &[u8]) -> Vec<u8> {
    let mut b = Vec::new();
    b.extend_from_slice(&message_id.to_be_bytes());
    b.extend_from_slice(&(8 + payload.len() as u32).to_be_bytes());
    b.extend_from_slice(&[0, 0, 0, 1, 1, 1, 0x02, 0]);
    b.extend_from_slice(payload);
    b
}

fn non_sd_datagram() -> Vec<u8> {
    base_header(0x1234_0001, &[9, 9, 9, 9])
}

fn broken_sd_datagram() -> Vec<u8> {
    base_header(0xffff_8100, &[0x40, 0, 0])
}

#[test]
fn default_query_decodes_to_one_find_service_entry() {
    let o = FindServiceOpt::default();
    assert_eq!(o.sd_multicast_addr.octets, [224, 244, 224, 245]);
    assert_eq!(o.sd_multicast_addr.port, 30490);
    let bytes = find_service_message(&o).unwrap();
    assert_eq!(bytes.len(), 44);
    match decode_datagram(&bytes) {
        Some(Ok((h, sd))) => {
            assert!(h.is_someip_sd());
            assert_eq!(h.length, 36);
            assert_eq!(h.request_id, 0);
            assert_eq!(h.interface_version, 0);
            assert_eq!(h.message_type, MessageType::Notification);
            let entries: Vec<SdEntry> = sd.entries().map(|e| e.to_owned()).collect();
            assert_eq!(entries.len(), 1);
            let expected =
                SdEntry::new_find_service_entry(0, 0, 0, 0, 0xffff, 0xffff, 0xff, 65535, 0xffff_ffff).unwrap();
            assert_eq!(entries[0], expected);
            assert!(sd.is_options_empty());
            assert!(!sd.flags.reboot);
        }
        _ => panic!("the query does not decode as an SD record"),
    }
}

#[test]
fn length_field_counts_the_bytes_after_it() {
    let bytes = find_service_message(&opt(0x1234, 0x0001, 2, 3600, 7)).unwrap();
    assert_eq!(u32::from_be_bytes([bytes[8], bytes[9], bytes[10], bytes[11]]), 0);
    assert_eq!(bytes[12], 1);
    assert_eq!(bytes[13], 0);
    let length = u32::from_be_bytes([bytes[4], bytes[5], bytes[6], bytes[7]]);
    assert_eq!(length as usize, bytes.len() - 8);
    assert_eq!(length, 36);
    assert_eq!(&bytes[0..4], &[0xff, 0xff, 0x81, 0x00]);
}

#[test]
fn query_round_trips_through_the_codec() {
    let bytes = find_service_message(&opt(0x1234, 0x5678, 3, 0x00ab_cdef, 0x0102_0304)).unwrap();
    match decode_datagram(&bytes) {
        Some(Ok((h, sd))) => {
            assert!(h.is_someip_sd());
            let entries: Vec<SdEntry> = sd.entries().map(|e| e.to_owned()).collect();
            let expected =
                SdEntry::new_find_service_entry(0, 0, 0, 0, 0x1234, 0x5678, 3, 0x00ab_cdef, 0x0102_0304).unwrap();
            assert_eq!(entries, vec![expected.clone()]);
            let built = SdHeader::new(false, [&expected], &[]).unwrap();
            assert_eq!(sd, built);
        }
        _ => panic!("the query does not decode as an SD record"),
    }
}

#[test]
fn wildcards_are_encoded_verbatim() {
    let bytes = find_service_message(&opt(0xffff, 0xffff, 0xff, 0x00ff_ffff, 0xffff_ffff)).unwrap();
    assert_eq!(bytes[24], 0x00);
    assert_eq!(&bytes[28..30], &[0xff, 0xff]);
    assert_eq!(&bytes[30..32], &[0xff, 0xff]);
    assert_eq!(bytes[32], 0xff);
    assert_eq!(&bytes[33..36], &[0xff, 0xff, 0xff]);
    assert_eq!(&bytes[36..40], &[0xff, 0xff, 0xff, 0xff]);
}

#[test]
fn exact_query_bytes() {
    let bytes = find_service_message(&opt(0x1234, 0x5678, 3, 0x00ab_cdef, 0x0102_0304)).unwrap();
    let expected: Vec<u8> = vec![
        0xff, 0xff, 0x81, 0x00, 0, 0, 0, 36, 0, 0, 0, 0, 1, 0, 0x02, 0, //
        0x40, 0, 0, 0, 0, 0, 0, 16, //
        0x00, 0, 0, 0, 0x12, 0x34, 0x56, 0x78, 3, 0xab, 0xcd, 0xef, 1, 2, 3, 4, //
        0, 0, 0, 0,
    ];
    assert_eq!(bytes, expected);
}

#[test]
fn ttl_beyond_24_bits_is_an_encode_error() {
    assert_eq!(find_service_message(&opt(1, 1, 1, 0x0100_0000, 1)), Err(EncodeError::TtlTooLarge));
    assert_eq!(find_service_message(&opt(1, 1, 1, 0xffff_ffff, 1)), Err(EncodeError::TtlTooLarge));
    assert!(find_service_message(&opt(1, 1, 1, 0x00ff_ffff, 1)).is_ok());
}

#[test]
fn non_sd_datagram_is_skipped() {
    assert!(decode_datagram(&non_sd_datagram()).is_none());
}

#[test]
fn truncated_datagram_is_a_base_header_error() {
    let bytes = find_service_message(&FindServiceOpt::default()).unwrap();
    match decode_datagram(&bytes[..10]) {
        Some(Err(e)) => assert_eq!(e, DiscoveryError::Decode(DecodeError::BaseHeader)),
        _ => panic!("a truncated datagram must give a decode error"),
    }
    match decode_datagram(&[]) {
        Some(Err(e)) => assert_eq!(e, DiscoveryError::Decode(DecodeError::BaseHeader)),
        _ => panic!("an empty datagram must give a decode error"),
    }
}

#[test]
fn broken_sd_header_is_an_sd_header_error() {
    match decode_datagram(&broken_sd_datagram()) {
        Some(Err(e)) => assert_eq!(e, DiscoveryError::Decode(DecodeError::SdHeader)),
        _ => panic!("a broken SD header must give a decode error"),
    }
}

#[test]
fn stream_yields_only_sd_items_in_order() {
    let first = find_service_message(&opt(0x0001, 0x0001, 1, 10, 1)).unwrap();
    let second = find_service_message(&opt(0x0002, 0x0002, 2, 20, 2)).unwrap();
    let datagrams = vec![non_sd_datagram(), first, non_sd_datagram(), second, non_sd_datagram()];
    let items = decode_datagrams(&datagrams);
    assert_eq!(items.len(), 2);
    let ids: Vec<u16> = items
        .iter()
        .map(|item| {
            let (_, sd) = item.as_ref().unwrap();
            sd.entries().next().unwrap().service_id()
        })
        .collect();
    assert_eq!(ids, vec![0x0001, 0x0002]);
}

#[test]
fn malformed_datagram_does_not_end_the_stream() {
    let good = find_service_message(&FindServiceOpt::default()).unwrap();
    let datagrams = vec![broken_sd_datagram(), good.clone(), good[..7].to_vec(), good];
    let items = decode_datagrams(&datagrams);
    assert_eq!(items.len(), 4);
    assert!(matches!(items[0], Err(DiscoveryError::Decode(DecodeError::SdHeader))));
    assert!(items[1].is_ok());
    assert!(matches!(items[2], Err(DiscoveryError::Decode(DecodeError::BaseHeader))));
    assert!(items[3].is_ok());
}

#[test]
fn empty_receive_sequence_yields_nothing() {
    assert!(decode_datagrams(&Vec::new()).is_empty());
}

#[test]
fn stubs_fail_as_unsupported() {
    let _client = SomeIpClient::new();
    assert_eq!(SomeIpClient::subscribe(), Err(DiscoveryError::Unsupported));
    let server = SomeIpServer {
        sd_multicast_addr: MulticastAddr { octets: [224, 244, 224, 245], port: 30490 },
        service_id: 1,
        instance_id: 1,
        ttl: 3,
        minor_version: 0,
    };
    assert_eq!(server.serve(), Err(DiscoveryError::Unsupported));
}

#[test]
fn failed_receive_is_an_item_and_datagrams_are_decoded() {
    assert!(matches!(someip_explorer::next_item(None), Some(Err(DiscoveryError::Receive))));
    assert!(someip_explorer::next_item(Some(&non_sd_datagram())).is_none());
    let good = find_service_message(&FindServiceOpt::default()).unwrap();
    assert!(matches!(someip_explorer::next_item(Some(&good)), Some(Ok(_))));
}

#[test]
fn record_sd_header_comes_from_its_own_datagram() {
    let first = find_service_message(&opt(0x0101, 0x0202, 1, 5, 6)).unwrap();
    let second = find_service_message(&opt(0x0303, 0x0404, 2, 7, 8)).unwrap();
    let items = decode_datagrams(&vec![second.clone(), broken_sd_datagram(), first.clone(), second]);
    assert_eq!(items.len(), 4);
    let entry_of = |i: usize| {
        let (_, sd) = items[i].as_ref().unwrap();
        sd.entries().next().unwrap().to_owned()
    };
    let first_entry = SdEntry::new_find_service_entry(0, 0, 0, 0, 0x0101, 0x0202, 1, 5, 6).unwrap();
    let second_entry = SdEntry::new_find_service_entry(0, 0, 0, 0, 0x0303, 0x0404, 2, 7, 8).unwrap();
    assert_eq!(entry_of(0), second_entry);
    assert!(items[1].is_err());
    assert_eq!(entry_of(2), first_entry);
    assert_eq!(entry_of(3), second_entry);
}
