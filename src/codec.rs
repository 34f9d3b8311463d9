//! The calls into the someip_parse wire codec, with what the library relies on.
use crate::wire::{
    base_header_ok, base_wire, be32_at, find_entry_wire, header_matches, sd_wire, MAX_RUN_LEN, MAX_TTL,
    SD_FLAGS_KEPT, SD_FLAGS_REBOOT_UNICAST, SD_FLAGS_UNICAST, SD_MESSAGE_ID,
};
use someip_parse::err::{SdIoReadError, SdValueError, SomeipHeaderIoReadError};
use someip_parse::sd::{SdEntry, SdHeader, SdOption};
use someip_parse::{MessageType, SomeipHeader, TpHeader};
use vstd::prelude::*;

verus! {

#[verifier::external_type_specification]
pub struct ExSomeipHeader(SomeipHeader);

#[verifier::external_type_specification]
pub struct ExMessageType(MessageType);

#[verifier::external_type_specification]
#[verifier::external_body]
pub struct ExTpHeader(TpHeader);

#[verifier::external_type_specification]
#[verifier::external_body]
pub struct ExSdEntry(SdEntry);

#[verifier::external_type_specification]
#[verifier::external_body]
pub struct ExSdHeader(SdHeader);

#[verifier::external_type_specification]
#[verifier::external_body]
pub struct ExSdValueError(SdValueError);

#[verifier::external_type_specification]
#[verifier::external_body]
pub struct ExSomeipHeaderIoReadError(SomeipHeaderIoReadError);

#[verifier::external_type_specification]
#[verifier::external_body]
pub struct ExSdIoReadError(SdIoReadError);

/// The 16 bytes that an SD entry serialises to.
pub uninterp spec fn entry_image(e: SdEntry) -> Seq<u8>;

/// The serialised entries array that an SD header holds.
pub uninterp spec fn sd_entries_area(h: SdHeader) -> Seq<u8>;

/// The serialised options array that an SD header holds.
pub uninterp spec fn sd_options_area(h: SdHeader) -> Seq<u8>;

/// The flags byte that an SD header serialises to.
pub uninterp spec fn sd_flags_byte(h: SdHeader) -> u8;

/// Whether every option run of every entry of an SD header lies within its options.
pub uninterp spec fn sd_runs_in_bounds(h: SdHeader) -> bool;

/// Whether bytes `b` start with an SD header that the codec's reader accepts.
pub uninterp spec fn sd_header_readable(b: Seq<u8>) -> bool;

/// Relies on `SdEntry::new_find_service_entry`: it fails exactly when a run
/// length does not fit in 4 bits or the TTL does not fit in 24 bits, and
/// otherwise gives a FindService entry whose bytes carry the arguments
/// verbatim.
#[verifier::external_body]
pub(crate) fn new_find_entry(
    index_first_option_run: u8,
    index_second_option_run: u8,
    number_of_options_1: u8,
    number_of_options_2: u8,
    service_id: u16,
    instance_id: u16,
    major_version: u8,
    ttl: u32,
    minor_version: u32,
) -> (r: Result<SdEntry, SdValueError>)
    ensures
        r is Ok <==> (number_of_options_1 <= MAX_RUN_LEN && number_of_options_2 <= MAX_RUN_LEN && ttl <= MAX_TTL),
        r matches Ok(e) ==> entry_image(e) == find_entry_wire(
            index_first_option_run,
            index_second_option_run,
            number_of_options_1,
            number_of_options_2,
            service_id,
            instance_id,
            major_version,
            ttl,
            minor_version,
        ),
{
    SdEntry::new_find_service_entry(
        index_first_option_run,
        index_second_option_run,
        number_of_options_1,
        number_of_options_2,
        service_id,
        instance_id,
        major_version,
        ttl,
        minor_version,
    )
}

/// Relies on `SdHeader::new` called with the given reboot flag, the one entry
/// and no options: the header holds the entry's bytes, no options, the
/// unicast flag and the reboot flag as given; an entry whose option counts
/// are zero leaves no run out of bounds, and one entry always fits.
#[verifier::external_body]
pub(crate) fn sd_header_of_entry(reboot: bool, e: &SdEntry) -> (r: Result<SdHeader, SdValueError>)
    ensures
        entry_image(*e).len() == 16 && entry_image(*e)[3] == 0 ==> r is Ok,
        r matches Ok(h) ==> {
            &&& sd_entries_area(h) == entry_image(*e)
            &&& sd_options_area(h) == Seq::<u8>::empty()
            &&& sd_flags_byte(h) == if reboot { SD_FLAGS_REBOOT_UNICAST } else { SD_FLAGS_UNICAST }
            &&& (entry_image(*e)[3] == 0 ==> sd_runs_in_bounds(h))
        },
{
    let no_options: [SdOption; 0] = [];
    SdHeader::new(reboot, [e], &no_options)
}

/// Relies on `SdHeader::to_bytes_vec`: it fails exactly when an option run is
/// out of bounds, and otherwise writes the flags, three reserved bytes, then
/// the entries and the options, each preceded by its big-endian length.
/// For a header without options, `SdHeader::read` accepts what it writes:
/// the stored entries are valid, fit the entries limit and their option runs
/// were checked. (With options this need not hold: an unknown option that is
/// not discardable is written out but refused by `SdHeader::read`.)
#[verifier::external_body]
pub(crate) fn sd_header_bytes(h: &SdHeader) -> (r: Result<Vec<u8>, SdValueError>)
    ensures
        r is Ok <==> sd_runs_in_bounds(*h),
        r matches Ok(b) ==> b@ == sd_wire(sd_flags_byte(*h), sd_entries_area(*h), sd_options_area(*h)),
        sd_options_area(*h) == Seq::<u8>::empty() ==> (r matches Ok(b) ==> sd_header_readable(b@)),
{
    h.to_bytes_vec()
}

/// Relies on `SomeipHeader::new_sd_header`: the SD message id, the given
/// length, the session id as request id (client id 0), interface version 1,
/// a notification with return code 0, and the given TP header.
#[verifier::external_body]
pub(crate) fn new_sd_base_header(length: u32, session_id: u16, tp_header: Option<TpHeader>) -> (r: SomeipHeader)
    ensures
        r.message_id == SD_MESSAGE_ID,
        r.length == length,
        r.request_id == session_id as u32,
        r.interface_version == 1,
        r.message_type == MessageType::Notification,
        r.return_code == 0,
        r.tp_header == tp_header,
{
    SomeipHeader::new_sd_header(length, session_id, tp_header)
}

/// Relies on `SomeipHeader::base_to_bytes`: the 16 bytes of the base header.
#[verifier::external_body]
pub(crate) fn base_header_bytes(h: &SomeipHeader) -> (r: Vec<u8>)
    ensures
        r@ == base_wire(*h),
{
    h.base_to_bytes().to_vec()
}

/// Relies on `SomeipHeader::read` over the bytes `b`: it accepts exactly the
/// headers of `base_header_ok` and then returns their fields.
#[verifier::external_body]
pub(crate) fn read_base_header(b: &[u8]) -> (r: Result<SomeipHeader, SomeipHeaderIoReadError>)
    ensures
        r is Ok <==> base_header_ok(b@),
        r matches Ok(h) ==> header_matches(h, b@),
{
    SomeipHeader::read(&mut std::io::Cursor::new(b))
}

/// Relies on `SomeipHeader::is_someip_sd`: the message id is the SD one.
#[verifier::external_body]
pub(crate) fn is_sd_message(h: &SomeipHeader) -> (r: bool)
    ensures
        r == (h.message_id == SD_MESSAGE_ID),
{
    h.is_someip_sd()
}

/// Relies on `SdHeader::read` over the bytes `b`: whether it succeeds
/// depends on those bytes alone, and a header read keeps the reboot and
/// unicast bits of the flags byte, the entries array that follows the
/// entries length, and the options array that follows the options length.
#[verifier::external_body]
pub(crate) fn read_sd_header(b: &[u8]) -> (r: Result<SdHeader, SdIoReadError>)
    ensures
        r is Ok <==> sd_header_readable(b@),
        r matches Ok(h) ==> sd_flags_byte(h) == b@[0] & SD_FLAGS_KEPT,
        r matches Ok(h) ==> sd_entries_area(h) == b@.subrange(8, 8 + be32_at(b@, 4)),
        r matches Ok(h) ==> sd_options_area(h) == b@.subrange(
            12 + be32_at(b@, 4),
            12 + be32_at(b@, 4) + be32_at(b@, 8 + be32_at(b@, 4)),
        ),
{
    SdHeader::read(&mut std::io::Cursor::new(b))
}

} // verus!
