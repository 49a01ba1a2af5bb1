//! The field mapping of the dumb file, against messages that prost writes.
//!
//! `rom` is field 11 and `io_mac_address` is field 2. They are different bytes
//! on genuine hardware, and only field 11 belongs in `X-Apple-I-ROM`.
use prost::bytes::{Buf, BufMut};
use prost::encoding::{self, DecodeContext, WireType};
use prost::{DecodeError, Message};
use rustpush::error::{IoErrorKind, PushError};
use rustpush::hw_body::HwConfigSource;
use rustpush::macos_remote::{generate_udid, is_openbubbles_shaped_udid, MacOSConfigRemote};

const IO_MAC: [u8; 6] = [0x14, 0x7d, 0xda, 0x3f, 0x58, 0x64];
const ROM: [u8; 6] = [0x8e, 0x04, 0x52, 0x2f, 0x58, 0x81];

#[derive(Clone, Debug, Default)]
struct InnerHwInfo {
    product_name: String,
    io_mac_address: Vec<u8>,
    platform_serial_number: String,
    platform_uuid: String,
    os_build_num: String,
    rom: Vec<u8>,
    mlb: String,
}

#[derive(Clone, Debug, Default)]
struct HwInfo {
    inner: Option<InnerHwInfo>,
    version: String,
    protocol_version: i32,
    device_id: String,
    icloud_ua: String,
    aoskit_version: String,
}

fn put_text(tag: u32, s: &String, buf: &mut impl BufMut) {
    if !s.is_empty() {
        encoding::string::encode(tag, s, buf);
    }
}

fn put_bytes(tag: u32, b: &Vec<u8>, buf: &mut impl BufMut) {
    if !b.is_empty() {
        encoding::bytes::encode(tag, b, buf);
    }
}

fn text_len(tag: u32, s: &String) -> usize {
    if s.is_empty() {
        0
    } else {
        encoding::string::encoded_len(tag, s)
    }
}

fn bytes_len(tag: u32, b: &Vec<u8>) -> usize {
    if b.is_empty() {
        0
    } else {
        encoding::bytes::encoded_len(tag, b)
    }
}

impl Message for InnerHwInfo {
    fn encode_raw(&self, buf: &mut impl BufMut) {
        put_text(1, &self.product_name, buf);
        put_bytes(2, &self.io_mac_address, buf);
        put_text(3, &self.platform_serial_number, buf);
        put_text(4, &self.platform_uuid, buf);
        put_text(7, &self.os_build_num, buf);
        put_bytes(11, &self.rom, buf);
        put_text(13, &self.mlb, buf);
    }

    fn merge_field(
        &mut self,
        tag: u32,
        wire_type: WireType,
        buf: &mut impl Buf,
        ctx: DecodeContext,
    ) -> Result<(), DecodeError> {
        match tag {
            1 => encoding::string::merge(wire_type, &mut self.product_name, buf, ctx),
            2 => encoding::bytes::merge(wire_type, &mut self.io_mac_address, buf, ctx),
            3 => encoding::string::merge(wire_type, &mut self.platform_serial_number, buf, ctx),
            4 => encoding::string::merge(wire_type, &mut self.platform_uuid, buf, ctx),
            7 => encoding::string::merge(wire_type, &mut self.os_build_num, buf, ctx),
            11 => encoding::bytes::merge(wire_type, &mut self.rom, buf, ctx),
            13 => encoding::string::merge(wire_type, &mut self.mlb, buf, ctx),
            _ => encoding::skip_field(wire_type, tag, buf, ctx),
        }
    }

    fn encoded_len(&self) -> usize {
        text_len(1, &self.product_name)
            + bytes_len(2, &self.io_mac_address)
            + text_len(3, &self.platform_serial_number)
            + text_len(4, &self.platform_uuid)
            + text_len(7, &self.os_build_num)
            + bytes_len(11, &self.rom)
            + text_len(13, &self.mlb)
    }

    fn clear(&mut self) {
        *self = InnerHwInfo::default();
    }
}

impl Message for HwInfo {
    fn encode_raw(&self, buf: &mut impl BufMut) {
        if let Some(inner) = &self.inner {
            encoding::message::encode(1, inner, buf);
        }
        put_text(2, &self.version, buf);
        if self.protocol_version != 0 {
            encoding::int32::encode(3, &self.protocol_version, buf);
        }
        put_text(4, &self.device_id, buf);
        put_text(5, &self.icloud_ua, buf);
        put_text(6, &self.aoskit_version, buf);
    }

    fn merge_field(
        &mut self,
        tag: u32,
        wire_type: WireType,
        buf: &mut impl Buf,
        ctx: DecodeContext,
    ) -> Result<(), DecodeError> {
        match tag {
            1 => encoding::message::merge(
                wire_type,
                self.inner.get_or_insert_with(InnerHwInfo::default),
                buf,
                ctx,
            ),
            2 => encoding::string::merge(wire_type, &mut self.version, buf, ctx),
            3 => encoding::int32::merge(wire_type, &mut self.protocol_version, buf, ctx),
            4 => encoding::string::merge(wire_type, &mut self.device_id, buf, ctx),
            5 => encoding::string::merge(wire_type, &mut self.icloud_ua, buf, ctx),
            6 => encoding::string::merge(wire_type, &mut self.aoskit_version, buf, ctx),
            _ => encoding::skip_field(wire_type, tag, buf, ctx),
        }
    }

    fn encoded_len(&self) -> usize {
        let inner = match &self.inner {
            Some(inner) => encoding::message::encoded_len(1, inner),
            None => 0,
        };
        let protocol = if self.protocol_version != 0 {
            encoding::int32::encoded_len(3, &self.protocol_version)
        } else {
            0
        };
        inner
            + text_len(2, &self.version)
            + protocol
            + text_len(4, &self.device_id)
            + text_len(5, &self.icloud_ua)
            + text_len(6, &self.aoskit_version)
    }

    fn clear(&mut self) {
        *self = HwInfo::default();
    }
}

fn hw_info() -> HwInfo {
    HwInfo {
        inner: Some(InnerHwInfo {
            product_name: "MacBookPro16,2".into(),
            io_mac_address: IO_MAC.to_vec(),
            platform_serial_number: "SERIALNUM123".into(),
            platform_uuid: "00000000-0000-0000-0000-000000000000".into(),
            os_build_num: "24D70".into(),
            rom: ROM.to_vec(),
            mlb: "MLB00000000000000".into(),
            ..Default::default()
        }),
        version: "15.3.1".into(),
        protocol_version: 1640,
        device_id: "00000000-0000-0000-0000-000000000000".into(),
        icloud_ua: "com.apple.iCloudHelper/282 CFNetwork/1494.0.7 Darwin/23.4.0".into(),
        aoskit_version: "com.apple.AOSKit/282".into(),
    }
}

fn body_of(hw: &HwInfo) -> Vec<u8> {
    let mut body = b"OABS\0".to_vec();
    body.extend_from_slice(&hw.encode_to_vec());
    body
}

fn dumb_body() -> Vec<u8> {
    body_of(&hw_info())
}

fn message_of(r: Result<MacOSConfigRemote, PushError>) -> String {
    match r {
        Ok(_) => panic!("the body is accepted"),
        Err(PushError::IoError(e)) => {
            assert_eq!(e.kind, IoErrorKind::InvalidData);
            e.message
        }
    }
}

#[test]
fn rom_comes_from_field_11_not_io_mac_address() {
    let cfg = MacOSConfigRemote::from_dumb_body(&dumb_body()).expect("parse dumb");
    let rom: Vec<u8> = cfg.inner.rom.clone().into();
    assert_eq!(rom, ROM.to_vec(), "rom must be field 11");
    assert_ne!(rom, IO_MAC.to_vec(), "rom must NOT be io_mac_address (field 2)");
}

#[test]
fn gsa_rom_header_matches_openbubbles() {
    let cfg = MacOSConfigRemote::from_dumb_body(&dumb_body()).expect("parse dumb");
    let headers = cfg.get_gsa_hardware_headers();
    // OpenBubbles sends hex(field 11), lowercase.
    assert_eq!(headers.get("X-Apple-I-ROM").map(String::as_str), Some("8e04522f5881"));
}

#[test]
fn other_identity_fields_round_trip() {
    let cfg = MacOSConfigRemote::from_dumb_body(&dumb_body()).expect("parse dumb");
    assert_eq!(cfg.inner.product_name, "MacBookPro16,2");
    assert_eq!(cfg.inner.os_build_num, "24D70");
    assert_eq!(cfg.version, "15.3.1");
    assert_eq!(cfg.protocol_version, 1640);
    assert_eq!(cfg.get_serial_number(), "SERIALNUM123");
}

#[test]
fn truncated_body_is_rejected() {
    assert!(MacOSConfigRemote::from_dumb_body(b"OABS").is_err());
}

#[test]
fn missing_rom_is_rejected() {
    let mut hw = HwInfo::decode(&dumb_body()[5..]).unwrap();
    hw.inner.as_mut().unwrap().rom.clear();
    let mut body = b"OABS\0".to_vec();
    body.extend_from_slice(&hw.encode_to_vec());
    assert!(MacOSConfigRemote::from_dumb_body(&body).is_err());
}

/// The client UDID must have OpenBubbles' shape (32 random bytes, hex, uppercase
/// -> 64 hex chars) and must not be derived from the Mac's platform UUID.
#[test]
fn udid_is_openbubbles_shaped_and_not_the_platform_uuid() {
    let cfg = MacOSConfigRemote::from_dumb_body(&dumb_body()).expect("parse dumb");
    let udid = cfg.udid.clone().expect("udid");
    assert_eq!(udid.len(), 64, "OpenBubbles emits 32 bytes of hex");
    assert!(udid.chars().all(|c| c.is_ascii_hexdigit()));
    assert_eq!(udid, udid.to_uppercase(), "OpenBubbles uppercases it");
    assert!(is_openbubbles_shaped_udid(&udid));
    assert_ne!(udid, cfg.device_id, "udid must not reuse the platform UUID");
}

#[test]
fn generated_udids_are_distinct() {
    assert_ne!(generate_udid(), generate_udid());
}

/// The legacy value (a dashed platform UUID) must be recognised as not
/// OpenBubbles-shaped, so existing installs migrate exactly once.
#[test]
fn legacy_dashed_uuid_is_not_openbubbles_shaped() {
    assert!(!is_openbubbles_shaped_udid("00000000-0000-0000-0000-000000000000"));
    assert!(is_openbubbles_shaped_udid(&"AB".repeat(32)));
}

/// The self-check must be able to see both fields, and must report them the
/// right way round.
#[test]
fn rom_and_io_mac_diagnostic_reports_both_fields() {
    let cfg = MacOSConfigRemote::from_dumb_body(&dumb_body()).expect("parse dumb");
    let (rom_hex, mac_hex) = cfg.rom_and_io_mac_hex().expect("diagnostic");
    assert_eq!(rom_hex, "8e04522f5881", "field 11 = rom");
    assert_eq!(mac_hex, "147dda3f5864", "field 2 = io_mac_address");
    assert_ne!(rom_hex, mac_hex);
    // And the header must carry the ROM, not the MAC.
    let headers = cfg.get_gsa_hardware_headers();
    assert_eq!(headers.get("X-Apple-I-ROM").map(String::as_str), Some(rom_hex.as_str()));
    assert_ne!(headers.get("X-Apple-I-ROM").map(String::as_str), Some(mac_hex.as_str()));
}

#[test]
fn udid_shape_wants_64_upper_case_digits() {
    assert!(!is_openbubbles_shaped_udid(&"ab".repeat(32)));
    assert!(!is_openbubbles_shaped_udid(&"A".repeat(63)));
    assert!(!is_openbubbles_shaped_udid(&"A".repeat(65)));
    assert!(!is_openbubbles_shaped_udid(&("A".repeat(63) + "G")));
    assert!(is_openbubbles_shaped_udid("0123456789ABCDEF0123456789ABCDEF0123456789ABCDEF0123456789ABCDEF"));
    assert!(!is_openbubbles_shaped_udid(""));
}

#[test]
fn every_missing_field_is_named_in_order() {
    let short = message_of(MacOSConfigRemote::from_dumb_body(b"OABS\0"));
    assert_eq!(short, "dumb body is 5 B — too short for the 5-byte header + HwInfo");

    let mut hw = hw_info();
    hw.inner = None;
    assert_eq!(
        message_of(MacOSConfigRemote::from_dumb_body(&body_of(&hw))),
        "dumb: no nested HwInfo (top field #1)"
    );

    let mut hw = HwInfo { inner: Some(InnerHwInfo::default()), ..Default::default() };
    assert_eq!(
        message_of(MacOSConfigRemote::from_dumb_body(&body_of(&hw))),
        "dumb: missing product_name (field #1)"
    );
    let full = hw_info();
    let inner = full.inner.clone().unwrap();
    hw.inner.as_mut().unwrap().product_name = inner.product_name;
    assert_eq!(
        message_of(MacOSConfigRemote::from_dumb_body(&body_of(&hw))),
        "dumb: missing serial (field #3)"
    );
    hw.inner.as_mut().unwrap().platform_serial_number = inner.platform_serial_number;
    assert_eq!(
        message_of(MacOSConfigRemote::from_dumb_body(&body_of(&hw))),
        "dumb: missing build number (field #7)"
    );
    hw.inner.as_mut().unwrap().os_build_num = inner.os_build_num;
    assert_eq!(
        message_of(MacOSConfigRemote::from_dumb_body(&body_of(&hw))),
        "dumb: missing mlb (field #13)"
    );
    hw.inner.as_mut().unwrap().mlb = inner.mlb;
    assert_eq!(
        message_of(MacOSConfigRemote::from_dumb_body(&body_of(&hw))),
        "dumb: missing rom (nested field #11)"
    );
    hw.inner.as_mut().unwrap().rom = inner.rom;
    assert_eq!(
        message_of(MacOSConfigRemote::from_dumb_body(&body_of(&hw))),
        "dumb: missing device UUID (field #4)"
    );
    hw.device_id = full.device_id;
    assert_eq!(
        message_of(MacOSConfigRemote::from_dumb_body(&body_of(&hw))),
        "dumb: missing macOS version (field #2)"
    );
    hw.version = full.version;
    assert_eq!(
        message_of(MacOSConfigRemote::from_dumb_body(&body_of(&hw))),
        "dumb: missing iCloud UA (field #5)"
    );
    hw.icloud_ua = full.icloud_ua;
    assert_eq!(
        message_of(MacOSConfigRemote::from_dumb_body(&body_of(&hw))),
        "dumb: missing AOSKit version (field #6)"
    );
    hw.aoskit_version = full.aoskit_version;
    let cfg = MacOSConfigRemote::from_dumb_body(&body_of(&hw)).expect("parse dumb");
    assert_eq!(cfg.protocol_version, 1640, "the version of a body that names none");
}

#[test]
fn protocol_version_is_cut_to_32_bits() {
    let mut hw = hw_info();
    hw.protocol_version = -1;
    let cfg = MacOSConfigRemote::from_dumb_body(&body_of(&hw)).expect("parse dumb");
    assert_eq!(cfg.protocol_version, u32::MAX);
    hw.protocol_version = 7;
    let cfg = MacOSConfigRemote::from_dumb_body(&body_of(&hw)).expect("parse dumb");
    assert_eq!(cfg.protocol_version, 7);
}

#[test]
fn field_that_is_not_utf8_counts_as_missing() {
    let mut body = dumb_body();
    // a later version field with an invalid byte
    body.extend_from_slice(&[0x12, 0x01, 0xff]);
    assert_eq!(
        message_of(MacOSConfigRemote::from_dumb_body(&body)),
        "dumb: missing macOS version (field #2)"
    );
}

#[test]
fn header_is_ignored_and_the_body_is_kept() {
    let body = dumb_body();
    let mut other = body.clone();
    other[..5].copy_from_slice(b"xxxxx");
    let a = MacOSConfigRemote::from_dumb_body(&body).expect("parse dumb");
    let b = MacOSConfigRemote::from_dumb_body(&other).expect("parse dumb");
    assert_eq!(a.version, b.version);
    assert_eq!(a.inner.rom, b.inner.rom);
    assert_eq!(a.hw_config, Some(body.clone()));
    assert_eq!(b.hw_config, Some(other));
    match a.hw_config_source(Some("/elsewhere".to_string())) {
        HwConfigSource::Inline(sent) => assert_eq!(sent, body),
        HwConfigSource::DumbFile(_) => panic!("the inline body comes first"),
    }
}

#[test]
fn given_udid_is_taken() {
    let cfg = MacOSConfigRemote::from_dumb_body_with_udid(&dumb_body(), "U".to_string())
        .expect("parse dumb");
    assert_eq!(cfg.get_udid(), "U");
}

#[test]
fn diagnostic_needs_a_body_with_both_fields() {
    let mut cfg = MacOSConfigRemote::from_dumb_body(&dumb_body()).expect("parse dumb");
    cfg.hw_config = None;
    assert!(cfg.rom_and_io_mac_hex().is_none());
    cfg.hw_config = Some(b"OABS\0".to_vec());
    assert!(cfg.rom_and_io_mac_hex().is_none());
    let mut hw = hw_info();
    hw.inner.as_mut().unwrap().io_mac_address.clear();
    cfg.hw_config = Some(body_of(&hw));
    assert!(cfg.rom_and_io_mac_hex().is_none());
    hw.inner = None;
    cfg.hw_config = Some(body_of(&hw));
    assert!(cfg.rom_and_io_mac_hex().is_none());
}

#[test]
fn reading_a_body_again_changes_only_the_udid() {
    let a = MacOSConfigRemote::from_dumb_body(&dumb_body()).expect("parse dumb");
    let b = MacOSConfigRemote::from_dumb_body(&dumb_body()).expect("parse dumb");
    assert_ne!(a.udid, b.udid);
    assert_eq!(a.inner.product_name, b.inner.product_name);
    assert_eq!(a.inner.platform_serial_number, b.inner.platform_serial_number);
    assert_eq!(a.inner.os_build_num, b.inner.os_build_num);
    assert_eq!(a.inner.mlb, b.inner.mlb);
    assert_eq!(a.inner.rom, b.inner.rom);
    assert_eq!(a.version, b.version);
    assert_eq!(a.protocol_version, b.protocol_version);
    assert_eq!(a.device_id, b.device_id);
    assert_eq!(a.icloud_ua, b.icloud_ua);
    assert_eq!(a.aoskit_version, b.aoskit_version);
    assert_eq!(a.hw_config, b.hw_config);
}
