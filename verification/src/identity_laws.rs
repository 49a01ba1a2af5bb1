//! What every dumb body gives, field by field: each part of the identity comes
//! from the one record that holds it, whatever else the messages hold.
use crate::error::PushError;
use crate::hw_body::{body_of_dumb_file, decoded_or_raw, hw_config_from_file, HwConfigSource};
use crate::macos_remote::{dumb_hw, dumb_top, text_of, MacOSConfigRemote};
use crate::outside::{base64_decoded, lossy_text};
use crate::proto::{last_bytes, records, Payload, Record};
use crate::proto_laws::{
    is_number, is_value, law_last_bytes_are_those_of_the_last_record,
    law_last_varint_is_that_of_the_last_record, law_message_round_trip, message,
};
use crate::text::{
    decimal, hex, lemma_trim_blank, lemma_trim_end, lemma_trim_start, white_space,
};
use crate::udid::openbubbles_shaped;
use vstd::prelude::*;
use vstd::utf8::{decode_utf8, valid_utf8};

verus! {

/// Some record holds the bytes of `field`.
pub open spec fn has_value(rs: Seq<Record>, field: u64) -> bool {
    exists|i: int| is_value(rs, field, i)
}

/// Some record holds the bytes of `field`, and they are a text.
pub open spec fn has_text(rs: Seq<Record>, field: u64) -> bool {
    exists|i: int| #[trigger] is_value(rs, field, i) && valid_utf8(rs[i].payload->Bytes_0)
}

proof fn lemma_value(rs: Seq<Record>, field: u64)
    ensures
        forall|i: int| #[trigger]
            is_value(rs, field, i) ==> {
                &&& last_bytes(rs, field) == Some(rs[i].payload->Bytes_0)
                &&& text_of(rs, field) == if valid_utf8(rs[i].payload->Bytes_0) {
                    Some(decode_utf8(rs[i].payload->Bytes_0))
                } else {
                    None
                }
            },
        has_value(rs, field) == last_bytes(rs, field) is Some,
        has_text(rs, field) == text_of(rs, field) is Some,
{
    law_last_bytes_are_those_of_the_last_record(rs, field);
    if last_bytes(rs, field) is Some {
        let i = choose|i: int| #[trigger] is_value(rs, field, i);
        assert(is_value(rs, field, i));
    }
}

/// The hardware identity of a Mac comes from the nested message in the last
/// top-level field 1, each part from the last record of its own number there:
/// the product name from 1, the serial from 3, the build from 7, the MLB from
/// 13 and the ROM from 11.
pub proof fn law_hardware_comes_from_its_own_records(
    body: &[u8],
    udid: String,
    cfg: MacOSConfigRemote,
    h: int,
)
    requires
        call_ensures(MacOSConfigRemote::from_dumb_body_with_udid, (body, udid), Ok(cfg)),
        is_value(records(body@.skip(5)), 1, h),
    ensures
        ({
            let hw = records(records(body@.skip(5))[h].payload->Bytes_0);
            &&& forall|i: int| #[trigger]
                is_value(hw, 1, i) ==> cfg.inner.product_name@ == decode_utf8(hw[i].payload->Bytes_0)
            &&& forall|i: int| #[trigger]
                is_value(hw, 3, i) ==> cfg.inner.platform_serial_number@ == decode_utf8(
                    hw[i].payload->Bytes_0,
                )
            &&& forall|i: int| #[trigger]
                is_value(hw, 7, i) ==> cfg.inner.os_build_num@ == decode_utf8(hw[i].payload->Bytes_0)
            &&& forall|i: int| #[trigger]
                is_value(hw, 13, i) ==> cfg.inner.mlb@ == decode_utf8(hw[i].payload->Bytes_0)
            &&& forall|i: int| #[trigger]
                is_value(hw, 11, i) ==> cfg.inner.rom@ == hw[i].payload->Bytes_0
            &&& has_text(hw, 1) && has_text(hw, 3) && has_text(hw, 7) && has_text(hw, 13)
            &&& has_value(hw, 11)
        }),
{
    let top = records(body@.skip(5));
    lemma_value(top, 1);
    let hw = records(top[h].payload->Bytes_0);
    assert(dumb_hw(body@) == hw);
    lemma_value(hw, 1);
    lemma_value(hw, 3);
    lemma_value(hw, 7);
    lemma_value(hw, 13);
    lemma_value(hw, 11);
}

/// The software identity of a Mac comes from the top-level records, each part
/// from the last one of its own number: the version from 2, the device id from
/// 4, the iCloud user agent from 5, the AOSKit version from 6 and the protocol
/// version from the varint 3, cut to 32 bits, or 1640 where there is none. The
/// UDID is the given one, and the body is kept whole.
pub proof fn law_software_comes_from_its_own_records(
    body: &[u8],
    udid: String,
    cfg: MacOSConfigRemote,
)
    requires
        call_ensures(MacOSConfigRemote::from_dumb_body_with_udid, (body, udid), Ok(cfg)),
    ensures
        ({
            let top = records(body@.skip(5));
            &&& forall|i: int| #[trigger]
                is_value(top, 2, i) ==> cfg.version@ == decode_utf8(top[i].payload->Bytes_0)
            &&& forall|i: int| #[trigger]
                is_value(top, 4, i) ==> cfg.device_id@ == decode_utf8(top[i].payload->Bytes_0)
            &&& forall|i: int| #[trigger]
                is_value(top, 5, i) ==> cfg.icloud_ua@ == decode_utf8(top[i].payload->Bytes_0)
            &&& forall|i: int| #[trigger]
                is_value(top, 6, i) ==> cfg.aoskit_version@ == decode_utf8(top[i].payload->Bytes_0)
            &&& forall|i: int| #[trigger]
                is_number(top, 3, i) ==> cfg.protocol_version as int
                    == top[i].payload->Varint_0 as int % 0x1_0000_0000
            &&& (forall|i: int| !#[trigger] is_number(top, 3, i)) ==> cfg.protocol_version == 1640
            &&& has_value(top, 1)
            &&& has_text(top, 2) && has_text(top, 4) && has_text(top, 5) && has_text(top, 6)
        }),
        cfg.udid == Some(udid),
        cfg.hw_config matches Some(b) && b@ == body@,
        body@.len() > 5,
{
    let top = records(body@.skip(5));
    assert(dumb_top(body@) == top);
    lemma_value(top, 1);
    lemma_value(top, 2);
    lemma_value(top, 4);
    lemma_value(top, 5);
    lemma_value(top, 6);
    law_last_varint_is_that_of_the_last_record(top, 3);
    assert forall|i: int| #[trigger] is_number(top, 3, i) implies cfg.protocol_version as int
        == top[i].payload->Varint_0 as int % 0x1_0000_0000 by {
        let v = top[i].payload->Varint_0;
        assert(v as u32 == v % 0x1_0000_0000) by (bit_vector);
    }
}

/// Whatever records are written into a body behind a header of five bytes, in
/// any order and among any others, the Mac that is read back has each part of
/// its identity from the last record of that part's own number, in the message
/// where that number counts: the device id is the top-level one, whatever the
/// nested message holds.
pub proof fn law_written_records_are_read_back(
    header: Seq<u8>,
    top: Seq<Record>,
    h: int,
    hw: Seq<Record>,
    body: &[u8],
    udid: String,
    cfg: MacOSConfigRemote,
)
    requires
        header.len() == 5,
        forall|i: int|
            0 <= i < top.len() ==> (#[trigger] top[i]).field * 8 + 7 <= u64::MAX
                && match top[i].payload {
                Payload::Varint(_) => true,
                Payload::Bytes(b) => b.len() <= usize::MAX,
                _ => false,
            },
        forall|i: int|
            0 <= i < hw.len() ==> (#[trigger] hw[i]).field * 8 + 7 <= u64::MAX && match hw[i].payload {
                Payload::Varint(_) => true,
                Payload::Bytes(b) => b.len() <= usize::MAX,
                _ => false,
            },
        is_value(top, 1, h),
        top[h].payload->Bytes_0 == message(hw),
        body@ == header + message(top),
        call_ensures(MacOSConfigRemote::from_dumb_body_with_udid, (body, udid), Ok(cfg)),
    ensures
        forall|i: int| #[trigger]
            is_value(hw, 1, i) ==> cfg.inner.product_name@ == decode_utf8(hw[i].payload->Bytes_0),
        forall|i: int| #[trigger]
            is_value(hw, 3, i) ==> cfg.inner.platform_serial_number@ == decode_utf8(
                hw[i].payload->Bytes_0,
            ),
        forall|i: int| #[trigger]
            is_value(hw, 7, i) ==> cfg.inner.os_build_num@ == decode_utf8(hw[i].payload->Bytes_0),
        forall|i: int| #[trigger]
            is_value(hw, 13, i) ==> cfg.inner.mlb@ == decode_utf8(hw[i].payload->Bytes_0),
        forall|i: int| #[trigger]
            is_value(hw, 11, i) ==> cfg.inner.rom@ == hw[i].payload->Bytes_0,
        forall|i: int| #[trigger]
            is_value(top, 2, i) ==> cfg.version@ == decode_utf8(top[i].payload->Bytes_0),
        forall|i: int| #[trigger]
            is_value(top, 4, i) ==> cfg.device_id@ == decode_utf8(top[i].payload->Bytes_0),
        forall|i: int| #[trigger]
            is_value(top, 5, i) ==> cfg.icloud_ua@ == decode_utf8(top[i].payload->Bytes_0),
        forall|i: int| #[trigger]
            is_value(top, 6, i) ==> cfg.aoskit_version@ == decode_utf8(top[i].payload->Bytes_0),
        forall|i: int| #[trigger]
            is_number(top, 3, i) ==> cfg.protocol_version as int == top[i].payload->Varint_0 as int
                % 0x1_0000_0000,
        (forall|i: int| !#[trigger] is_number(top, 3, i)) ==> cfg.protocol_version == 1640,
        cfg.udid == Some(udid),
        cfg.hw_config matches Some(b) && b@ == header + message(top),
{
    law_message_round_trip(top);
    law_message_round_trip(hw);
    assert(body@.skip(5) =~= message(top));
    law_hardware_comes_from_its_own_records(body, udid, cfg, h);
    law_software_comes_from_its_own_records(body, udid, cfg);
}

/// A body that is no longer than its header is refused with its length.
pub proof fn law_short_body_is_refused(
    body: &[u8],
    udid: String,
    r: Result<MacOSConfigRemote, PushError>,
)
    requires
        call_ensures(MacOSConfigRemote::from_dumb_body_with_udid, (body, udid), r),
        body@.len() <= 5,
    ensures
        ({
            &&& r matches Err(PushError::IoError(e))
            &&& e.kind is InvalidData
            &&& e.message@ == "dumb body is "@ + decimal(body@.len())
                + " B — too short for the 5-byte header + HwInfo"@
        }),
{
}

/// A body whose message holds no nested one is refused.
pub proof fn law_body_without_hardware_is_refused(
    body: &[u8],
    udid: String,
    r: Result<MacOSConfigRemote, PushError>,
)
    requires
        call_ensures(MacOSConfigRemote::from_dumb_body_with_udid, (body, udid), r),
        body@.len() > 5,
        !has_value(records(body@.skip(5)), 1),
    ensures
        ({
            &&& r matches Err(PushError::IoError(e))
            &&& e.kind is InvalidData
            &&& e.message@ == "dumb: no nested HwInfo (top field #1)"@
        }),
{
    lemma_value(records(body@.skip(5)), 1);
}

/// A longer body with a nested message is accepted exactly where every part of
/// the identity is there, the texts in UTF-8, and is else refused for the first
/// part that is not.
pub proof fn law_first_missing_part_is_named(
    body: &[u8],
    udid: String,
    r: Result<MacOSConfigRemote, PushError>,
    h: int,
)
    requires
        call_ensures(MacOSConfigRemote::from_dumb_body_with_udid, (body, udid), r),
        body@.len() > 5,
        is_value(records(body@.skip(5)), 1, h),
    ensures
        ({
            let top = records(body@.skip(5));
            let hw = records(top[h].payload->Bytes_0);
            match r {
                Ok(_) => {
                    &&& has_text(hw, 1) && has_text(hw, 3) && has_text(hw, 7) && has_text(hw, 13)
                    &&& has_value(hw, 11)
                    &&& has_text(top, 4) && has_text(top, 2) && has_text(top, 5) && has_text(top, 6)
                },
                Err(PushError::IoError(e)) => {
                    &&& e.kind is InvalidData
                    &&& e.message@ == if !has_text(hw, 1) {
                        "dumb: missing "@ + "product_name"@ + " (field #"@ + decimal(1) + ")"@
                    } else if !has_text(hw, 3) {
                        "dumb: missing "@ + "serial"@ + " (field #"@ + decimal(3) + ")"@
                    } else if !has_text(hw, 7) {
                        "dumb: missing "@ + "build number"@ + " (field #"@ + decimal(7) + ")"@
                    } else if !has_text(hw, 13) {
                        "dumb: missing "@ + "mlb"@ + " (field #"@ + decimal(13) + ")"@
                    } else if !has_value(hw, 11) {
                        "dumb: missing rom (nested field #11)"@
                    } else if !has_text(top, 4) {
                        "dumb: missing "@ + "device UUID"@ + " (field #"@ + decimal(4) + ")"@
                    } else if !has_text(top, 2) {
                        "dumb: missing "@ + "macOS version"@ + " (field #"@ + decimal(2) + ")"@
                    } else if !has_text(top, 5) {
                        "dumb: missing "@ + "iCloud UA"@ + " (field #"@ + decimal(5) + ")"@
                    } else {
                        "dumb: missing "@ + "AOSKit version"@ + " (field #"@ + decimal(6) + ")"@
                    }
                    &&& !has_text(hw, 1) || !has_text(hw, 3) || !has_text(hw, 7) || !has_text(hw, 13)
                        || !has_value(hw, 11) || !has_text(top, 4) || !has_text(top, 2)
                        || !has_text(top, 5) || !has_text(top, 6)
                },
            }
        }),
{
    let top = records(body@.skip(5));
    lemma_value(top, 1);
    let hw = records(top[h].payload->Bytes_0);
    assert(dumb_hw(body@) == hw);
    lemma_value(hw, 1);
    lemma_value(hw, 3);
    lemma_value(hw, 7);
    lemma_value(hw, 13);
    lemma_value(hw, 11);
    lemma_value(top, 4);
    lemma_value(top, 2);
    lemma_value(top, 5);
    lemma_value(top, 6);
}

/// Reading a body under a fresh UDID and reading it under a given one come to
/// the same: the same Mac up to the UDID, which is of the right shape, or the
/// same refusal.
pub proof fn law_fresh_udid_changes_nothing_else(
    body: &[u8],
    udid: String,
    given: Result<MacOSConfigRemote, PushError>,
    fresh: Result<MacOSConfigRemote, PushError>,
)
    requires
        call_ensures(MacOSConfigRemote::from_dumb_body_with_udid, (body, udid), given),
        call_ensures(MacOSConfigRemote::from_dumb_body, (body,), fresh),
    ensures
        match (given, fresh) {
            (Ok(a), Ok(b)) => {
                &&& a.inner.product_name@ == b.inner.product_name@
                &&& a.inner.platform_serial_number@ == b.inner.platform_serial_number@
                &&& a.inner.os_build_num@ == b.inner.os_build_num@
                &&& a.inner.mlb@ == b.inner.mlb@
                &&& a.inner.rom@ == b.inner.rom@
                &&& a.version@ == b.version@
                &&& a.protocol_version == b.protocol_version
                &&& a.device_id@ == b.device_id@
                &&& a.icloud_ua@ == b.icloud_ua@
                &&& a.aoskit_version@ == b.aoskit_version@
                &&& a.hw_config->0@ == body@ && b.hw_config->0@ == body@
                &&& b.hw_config is Some
                &&& b.udid is Some && openbubbles_shaped(b.udid->0@)
            },
            (Err(PushError::IoError(a)), Err(PushError::IoError(b))) => a.kind == b.kind
                && a.message@ == b.message@,
            _ => false,
        },
{
}

/// The diagnostic gives the bytes of the nested fields 11 and 2 of the body
/// that the Mac carries, in hexadecimal and in that order, exactly where both
/// are there.
pub proof fn law_diagnostic_reads_fields_11_and_2(
    cfg: &MacOSConfigRemote,
    r: Option<(String, String)>,
)
    requires
        call_ensures(MacOSConfigRemote::rom_and_io_mac_hex, (cfg,), r),
    ensures
        cfg.hw_config is None || cfg.hw_config->0@.len() <= 5 ==> r is None,
        cfg.hw_config is Some ==> {
            let top = records(cfg.hw_config->0@.skip(5));
            &&& !has_value(top, 1) ==> r is None
            &&& cfg.hw_config->0@.len() > 5 ==> forall|h: int| #[trigger]
                is_value(top, 1, h) ==> {
                    let hw = records(top[h].payload->Bytes_0);
                    &&& r is Some <==> has_value(hw, 11) && has_value(hw, 2)
                    &&& forall|i: int| #[trigger]
                        is_value(hw, 11, i) && r is Some ==> (r->0).0@ == hex(
                            hw[i].payload->Bytes_0,
                            false,
                        )
                    &&& forall|i: int| #[trigger]
                        is_value(hw, 2, i) && r is Some ==> (r->0).1@ == hex(
                            hw[i].payload->Bytes_0,
                            false,
                        )
                }
        },
{
    if let Some(b) = cfg.hw_config {
        let top = records(b@.skip(5));
        lemma_value(top, 1);
        lemma_value(dumb_hw(b@), 11);
        lemma_value(dumb_hw(b@), 2);
        assert forall|h: int| #[trigger] is_value(top, 1, h) implies dumb_hw(b@) == records(
            top[h].payload->Bytes_0,
        ) by {}
    }
}

/// A Mac that carries a body that is not empty has that body sent, whole; any
/// other has the dumb file read, at the given path or else where OpenBubbles
/// keeps it.
pub proof fn law_body_is_sent_as_it_is_carried(
    cfg: &MacOSConfigRemote,
    dumb_path: Option<String>,
    r: HwConfigSource,
)
    requires
        call_ensures(MacOSConfigRemote::hw_config_source, (cfg, dumb_path), r),
    ensures
        match r {
            HwConfigSource::Inline(b) => cfg.hw_config is Some && cfg.hw_config->0@.len() > 0 && b@
                == cfg.hw_config->0@,
            HwConfigSource::DumbFile(p) => {
                &&& cfg.hw_config is None || cfg.hw_config->0@.len() == 0
                &&& dumb_path matches Some(given) ==> p@ == given@
                &&& dumb_path is None ==> p@
                    == "/data/data/com.openbubbles.messaging/files/dumb"@
            },
        },
{
}

/// What is read from a dumb file is what its text encodes in Base64, whole and
/// whatever white space is around it, or the bytes of the file where the text
/// is not the Base64 of a body.
pub proof fn law_dumb_file_gives_what_it_encodes(
    raw: Vec<u8>,
    before: Seq<char>,
    text: Seq<char>,
    after: Seq<char>,
    r: Vec<u8>,
)
    requires
        call_ensures(body_of_dumb_file, (raw,), r),
        lossy_text(raw@) == before + text + after,
        forall|i: int| 0 <= i < before.len() ==> white_space(#[trigger] before[i]),
        forall|i: int| 0 <= i < after.len() ==> white_space(#[trigger] after[i]),
        text.len() > 0,
        !white_space(text[0]),
        !white_space(text.last()),
    ensures
        base64_decoded(text) is Some && base64_decoded(text)->0.len() > 0 ==> r@ == base64_decoded(
            text,
        )->0,
        base64_decoded(text) is None || base64_decoded(text)->0.len() == 0 ==> r@ == raw@,
{
    assert(before + text + after =~= before + (text + after));
    assert((text + after)[0] == text[0]);
    lemma_trim_start(before, text + after);
    lemma_trim_end(text, after);
}

/// A decoded body is taken where there is one that is not empty, else the raw
/// bytes, and either is left as it is.
pub proof fn law_decoded_body_comes_first(decoded: Option<Vec<u8>>, raw: Vec<u8>, r: Vec<u8>)
    requires
        call_ensures(decoded_or_raw, (decoded, raw), r),
    ensures
        decoded matches Some(d) && d@.len() > 0 ==> r@ == decoded->0@,
        decoded is None || decoded->0@.len() == 0 ==> r@ == raw@,
{
}

/// A dumb file that was read gives the same body by either way, and one that
/// could not be read is reported with its path and the reason.
pub proof fn law_unreadable_dumb_file_is_reported(
    path: &str,
    read: Result<Vec<u8>, String>,
    r: Result<Vec<u8>, PushError>,
    direct: Vec<u8>,
)
    requires
        call_ensures(hw_config_from_file, (path, read), r),
        read is Ok ==> call_ensures(body_of_dumb_file, (read->Ok_0,), direct),
    ensures
        match read {
            Ok(_) => r is Ok && r->Ok_0@ == direct@,
            Err(reason) => {
                &&& r matches Err(PushError::IoError(e))
                &&& e.kind is Other
                &&& e.message@ == "read dumb file "@ + path@ + ": "@ + reason@
            },
        },
{
}

/// A dumb file with nothing but white space is taken as it is, unless the empty
/// text were the Base64 of something.
pub proof fn law_blank_dumb_file_is_taken_as_it_is(raw: Vec<u8>, r: Vec<u8>)
    requires
        call_ensures(body_of_dumb_file, (raw,), r),
        forall|i: int|
            0 <= i < lossy_text(raw@).len() ==> white_space(#[trigger] lossy_text(raw@)[i]),
        base64_decoded(Seq::empty()) is Some ==> base64_decoded(Seq::empty())->0.len() == 0,
    ensures
        r@ == raw@,
{
    lemma_trim_blank(lossy_text(raw@));
}

} // verus!
