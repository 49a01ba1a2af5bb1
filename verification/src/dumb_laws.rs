//! What holds of every dumb body and of the Mac that is read from it.
use crate::hw_body::{dumb_file_body, dumb_file_decoded};
use crate::macos_remote::{
    dumb_fault, dumb_hw, dumb_protocol_version, dumb_top, text_of, MacOSConfigRemote,
    DUMB_HEADER_BYTES,
};
use crate::outside::{base64_decoded, lossy_text};
use crate::proto::{last_bytes, last_varint, Payload, Record};
use crate::proto_laws::{law_message_round_trip, message, writable};
use crate::text::{hex, lemma_trim_end, lemma_trim_start, white_space};
use vstd::prelude::*;
use vstd::utf8::{encode_utf8, encode_utf8_decode_utf8, encode_utf8_valid_utf8};

verus! {

/// The identity of a Mac as a dumb file tells it.
pub struct Identity {
    pub product_name: Seq<char>,
    pub io_mac_address: Seq<u8>,
    pub platform_serial_number: Seq<char>,
    pub os_build_num: Seq<char>,
    pub rom: Seq<u8>,
    pub mlb: Seq<char>,
    pub version: Seq<char>,
    pub protocol_version: u32,
    pub device_id: Seq<char>,
    pub icloud_ua: Seq<char>,
    pub aoskit_version: Seq<char>,
}

pub open spec fn bytes_record(field: u64, b: Seq<u8>) -> Record {
    Record { field, payload: Payload::Bytes(b) }
}

pub open spec fn text_record(field: u64, s: Seq<char>) -> Record {
    bytes_record(field, encode_utf8(s))
}

impl Identity {
    /// The records of the nested hardware message.
    pub open spec fn hw_records(self) -> Seq<Record> {
        seq![
            text_record(1, self.product_name),
            bytes_record(2, self.io_mac_address),
            text_record(3, self.platform_serial_number),
            text_record(7, self.os_build_num),
            bytes_record(11, self.rom),
            text_record(13, self.mlb),
        ]
    }

    /// The records of the whole message.
    pub open spec fn top_records(self) -> Seq<Record> {
        seq![
            bytes_record(1, message(self.hw_records())),
            text_record(2, self.version),
            Record { field: 3, payload: Payload::Varint(self.protocol_version as u64) },
            text_record(4, self.device_id),
            text_record(5, self.icloud_ua),
            text_record(6, self.aoskit_version),
        ]
    }

    /// A dumb body with this identity, behind any header.
    pub open spec fn body(self, header: Seq<u8>) -> Seq<u8> {
        header + message(self.top_records())
    }

    /// Every field of the messages has a length that a machine can hold.
    pub open spec fn fits(self) -> bool {
        &&& forall|i: int| 0 <= i < self.hw_records().len() ==> writable(#[trigger] self.hw_records()[i])
        &&& forall|i: int|
            0 <= i < self.top_records().len() ==> writable(#[trigger] self.top_records()[i])
    }
}

/// The value of a field is the one of its last record.
proof fn lemma_last_bytes_at(rs: Seq<Record>, i: int)
    requires
        0 <= i < rs.len(),
        rs[i].payload is Bytes,
        forall|j: int| i < j < rs.len() ==> (#[trigger] rs[j]).field != rs[i].field,
    ensures
        last_bytes(rs, rs[i].field) == Some(rs[i].payload->Bytes_0),
    decreases rs.len(),
{
    if i < rs.len() - 1 {
        let init = rs.drop_last();
        assert(init[i] == rs[i]);
        lemma_last_bytes_at(init, i);
        assert(rs.last().field != rs[i].field);
    }
}

proof fn lemma_last_varint_at(rs: Seq<Record>, i: int)
    requires
        0 <= i < rs.len(),
        rs[i].payload is Varint,
        forall|j: int| i < j < rs.len() ==> (#[trigger] rs[j]).field != rs[i].field,
    ensures
        last_varint(rs, rs[i].field) == Some(rs[i].payload->Varint_0),
    decreases rs.len(),
{
    if i < rs.len() - 1 {
        let init = rs.drop_last();
        assert(init[i] == rs[i]);
        lemma_last_varint_at(init, i);
        assert(rs.last().field != rs[i].field);
    }
}

proof fn lemma_text_at(rs: Seq<Record>, i: int, s: Seq<char>)
    requires
        0 <= i < rs.len(),
        rs[i].payload == Payload::Bytes(encode_utf8(s)),
        forall|j: int| i < j < rs.len() ==> (#[trigger] rs[j]).field != rs[i].field,
    ensures
        text_of(rs, rs[i].field) == Some(s),
{
    lemma_last_bytes_at(rs, i);
    encode_utf8_valid_utf8(s);
    encode_utf8_decode_utf8(s);
}

/// A body that was put together from records gives the same records back, the
/// nested ones too: in any order, and with any other fields among them.
pub proof fn law_dumb_records_round_trip(header: Seq<u8>, top: Seq<Record>, hw: Seq<Record>)
    requires
        header.len() == DUMB_HEADER_BYTES,
        forall|i: int| 0 <= i < top.len() ==> writable(#[trigger] top[i]),
        forall|i: int| 0 <= i < hw.len() ==> writable(#[trigger] hw[i]),
        last_bytes(top, 1) == Some(message(hw)),
    ensures
        dumb_top(header + message(top)) == top,
        dumb_hw(header + message(top)) == hw,
{
    law_message_round_trip(top);
    law_message_round_trip(hw);
    assert((header + message(top)).skip(DUMB_HEADER_BYTES as int) =~= message(top));
}

proof fn lemma_hw_fields(id: Identity)
    ensures
        text_of(id.hw_records(), 1) == Some(id.product_name),
        last_bytes(id.hw_records(), 2) == Some(id.io_mac_address),
        text_of(id.hw_records(), 3) == Some(id.platform_serial_number),
        text_of(id.hw_records(), 7) == Some(id.os_build_num),
        last_bytes(id.hw_records(), 11) == Some(id.rom),
        text_of(id.hw_records(), 13) == Some(id.mlb),
{
    let hw = id.hw_records();
    lemma_text_at(hw, 0, id.product_name);
    lemma_last_bytes_at(hw, 1);
    lemma_text_at(hw, 2, id.platform_serial_number);
    lemma_text_at(hw, 3, id.os_build_num);
    lemma_last_bytes_at(hw, 4);
    lemma_text_at(hw, 5, id.mlb);
}

proof fn lemma_top_fields(id: Identity)
    ensures
        last_bytes(id.top_records(), 1) == Some(message(id.hw_records())),
        text_of(id.top_records(), 2) == Some(id.version),
        last_varint(id.top_records(), 3) == Some(id.protocol_version as u64),
        text_of(id.top_records(), 4) == Some(id.device_id),
        text_of(id.top_records(), 5) == Some(id.icloud_ua),
        text_of(id.top_records(), 6) == Some(id.aoskit_version),
{
    let top = id.top_records();
    lemma_last_bytes_at(top, 0);
    lemma_text_at(top, 1, id.version);
    lemma_last_varint_at(top, 2);
    lemma_text_at(top, 3, id.device_id);
    lemma_text_at(top, 4, id.icloud_ua);
    lemma_text_at(top, 5, id.aoskit_version);
}

/// Every identity survives the dumb file: the body that is written for it is
/// accepted, and the Mac that is read from it has that very identity. The ROM
/// is the ROM, and not the MAC address that stands beside it.
pub proof fn law_identity_round_trip(id: Identity, header: Seq<u8>, cfg: MacOSConfigRemote)
    requires
        header.len() == DUMB_HEADER_BYTES,
        id.fits(),
    ensures
        dumb_fault(id.body(header)) is None,
        last_bytes(dumb_hw(id.body(header)), 2) == Some(id.io_mac_address),
        cfg.describes(id.body(header)) ==> {
            &&& cfg.inner.product_name@ == id.product_name
            &&& cfg.inner.platform_serial_number@ == id.platform_serial_number
            &&& cfg.inner.os_build_num@ == id.os_build_num
            &&& cfg.inner.mlb@ == id.mlb
            &&& cfg.inner.rom@ == id.rom
            &&& cfg.version@ == id.version
            &&& cfg.protocol_version == id.protocol_version
            &&& cfg.device_id@ == id.device_id
            &&& cfg.icloud_ua@ == id.icloud_ua
            &&& cfg.aoskit_version@ == id.aoskit_version
        },
{
    let top = id.top_records();
    let hw = id.hw_records();
    lemma_hw_fields(id);
    lemma_top_fields(id);
    law_dumb_records_round_trip(header, top, hw);
    assert(message(top).len() > 0) by {
        law_message_round_trip(top);
        crate::proto::lemma_leading_record(message(top));
    }
    let v = id.protocol_version as u64;
    assert(v as u32 == id.protocol_version);
}

/// The header is not looked at: two bodies that differ only in it describe
/// the same Mac, or are refused for the same reason.
pub proof fn law_header_is_ignored(a: Seq<u8>, b: Seq<u8>)
    requires
        a.len() == b.len(),
        a.skip(DUMB_HEADER_BYTES as int) == b.skip(DUMB_HEADER_BYTES as int),
    ensures
        dumb_fault(a) == dumb_fault(b),
        dumb_top(a) == dumb_top(b),
        dumb_hw(a) == dumb_hw(b),
        dumb_protocol_version(a) == dumb_protocol_version(b),
{
}

/// A body that is no longer than its header is refused, and so is one without
/// a ROM.
pub proof fn law_truncated_or_without_rom_is_refused(body: Seq<u8>)
    requires
        body.len() <= DUMB_HEADER_BYTES || last_bytes(dumb_hw(body), 11) is None,
    ensures
        dumb_fault(body) is Some,
{
}

/// The NAC server is given the exact body that the Mac was read from.
pub proof fn law_nac_receives_the_dumb_body(cfg: MacOSConfigRemote, body: Seq<u8>)
    requires
        dumb_fault(body) is None,
        cfg.describes(body),
    ensures
        cfg.inline_body() == Some(body),
{
}

/// What the diagnostic reads as the ROM is what the headers carry as the ROM.
pub proof fn law_diagnostic_agrees_with_the_header(
    cfg: MacOSConfigRemote,
    body: Seq<u8>,
    rom: Seq<char>,
)
    requires
        cfg.describes(body),
        last_bytes(dumb_hw(cfg.hw_config->0@), 11) matches Some(b) && rom == hex(b, false),
    ensures
        rom == hex(cfg.inner.rom@, false),
{
}

/// A body describes one Mac: two Macs that were read from it differ at most in
/// their UDID.
pub proof fn law_body_determines_the_mac(
    a: MacOSConfigRemote,
    b: MacOSConfigRemote,
    body: Seq<u8>,
)
    requires
        a.describes(body),
        b.describes(body),
    ensures
        a.inner.product_name@ == b.inner.product_name@,
        a.inner.platform_serial_number@ == b.inner.platform_serial_number@,
        a.inner.os_build_num@ == b.inner.os_build_num@,
        a.inner.mlb@ == b.inner.mlb@,
        a.inner.rom@ == b.inner.rom@,
        a.version@ == b.version@,
        a.protocol_version == b.protocol_version,
        a.device_id@ == b.device_id@,
        a.icloud_ua@ == b.icloud_ua@,
        a.aoskit_version@ == b.aoskit_version@,
        a.hw_config->0@ == b.hw_config->0@,
{
}

/// A body that stands in a dumb file as Base64 is read back, whatever white
/// space is around its text; where the text is not the Base64 of a body, the
/// bytes of the file are the body.
pub proof fn law_encoded_body_is_read_back(
    raw: Seq<u8>,
    before: Seq<char>,
    text: Seq<char>,
    after: Seq<char>,
)
    requires
        lossy_text(raw) == before + text + after,
        forall|i: int| 0 <= i < before.len() ==> white_space(#[trigger] before[i]),
        forall|i: int| 0 <= i < after.len() ==> white_space(#[trigger] after[i]),
        text.len() > 0,
        !white_space(text[0]),
        !white_space(text.last()),
    ensures
        dumb_file_body(dumb_file_decoded(raw), raw) == (match base64_decoded(text) {
            Some(body) if body.len() > 0 => body,
            _ => raw,
        }),
{
    assert(before + text + after =~= before + (text + after));
    assert((text + after)[0] == text[0]);
    lemma_trim_start(before, text + after);
    lemma_trim_end(text, after);
}

} // verus!
