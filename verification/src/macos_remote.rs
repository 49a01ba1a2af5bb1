//! A Mac whose validation data comes from a remote NAC server. The whole
//! identity, hardware and software, is read from the OpenBubbles dumb file.
use crate::error::{IoErrorKind, PushError};
use crate::proto::{field_text, last_bytes, last_varint, records, ProtoFields, Record};
use crate::text::{decimal, decimal_text};
pub use crate::udid::{generate_udid, is_openbubbles_shaped_udid};
use crate::udid::openbubbles_shaped;
use vstd::prelude::*;
use vstd::slice::{slice_subrange, slice_to_vec};

verus! {

/// NAC validation server (also serves anisette v3). Public host, https.
pub const NAC_BASE_URL: &'static str = "https://hw.openbubbles.app";

/// Where the raw hardware-config body is read from when it is not supplied
/// inline: the OpenBubbles dumb file.
pub const DEFAULT_DUMB_PATH: &'static str = "/data/data/com.openbubbles.messaging/files/dumb";

/// Length of the header in front of the protobuf message in a dumb body.
pub const DUMB_HEADER_BYTES: usize = 5;

/// The protocol version of a dumb body that names none.
pub const DEFAULT_PROTOCOL_VERSION: u64 = 1640;

/// The part of the Mac hardware identity that the remote path needs.
#[derive(Clone)]
pub struct HardwareConfig {
    pub product_name: String,
    pub platform_serial_number: String,
    pub os_build_num: String,
    pub mlb: String,
    /// ROM bytes.
    pub rom: Vec<u8>,
}

/// A Mac described by its dumb file.
#[derive(Clone)]
pub struct MacOSConfigRemote {
    pub inner: HardwareConfig,
    // software
    pub version: String,
    pub protocol_version: u32,
    pub device_id: String,
    pub icloud_ua: String,
    pub aoskit_version: String,
    pub udid: Option<String>,
    /// Raw hardware-config body for `POST /nac/create`. When `None`, it is read
    /// from the dumb file.
    pub hw_config: Option<Vec<u8>>,
}

/// The records of the message behind the header of a dumb body.
pub open spec fn dumb_top(body: Seq<u8>) -> Seq<Record> {
    records(body.skip(DUMB_HEADER_BYTES as int))
}

/// The records of the nested hardware message of a dumb body.
pub open spec fn dumb_hw(body: Seq<u8>) -> Seq<Record> {
    records(last_bytes(dumb_top(body), 1)->0)
}

/// The text of a field.
pub open spec fn text_of(rs: Seq<Record>, field: u64) -> Option<Seq<char>> {
    field_text(last_bytes(rs, field))
}

/// What is said of a text field that is missing or is not UTF-8.
pub open spec fn missing_text(what: Seq<char>, field: u64) -> Seq<char> {
    "dumb: missing "@ + what + " (field #"@ + decimal(field as nat) + ")"@
}

/// Why a dumb body describes no Mac, in the order in which the fields are
/// asked for; `None` where it does describe one.
pub open spec fn dumb_fault(body: Seq<u8>) -> Option<Seq<char>> {
    if body.len() <= DUMB_HEADER_BYTES {
        Some(
            "dumb body is "@ + decimal(body.len())
                + " B — too short for the 5-byte header + HwInfo"@,
        )
    } else if last_bytes(dumb_top(body), 1) is None {
        Some("dumb: no nested HwInfo (top field #1)"@)
    } else if text_of(dumb_hw(body), 1) is None {
        Some(missing_text("product_name"@, 1))
    } else if text_of(dumb_hw(body), 3) is None {
        Some(missing_text("serial"@, 3))
    } else if text_of(dumb_hw(body), 7) is None {
        Some(missing_text("build number"@, 7))
    } else if text_of(dumb_hw(body), 13) is None {
        Some(missing_text("mlb"@, 13))
    } else if last_bytes(dumb_hw(body), 11) is None {
        Some("dumb: missing rom (nested field #11)"@)
    } else if text_of(dumb_top(body), 4) is None {
        Some(missing_text("device UUID"@, 4))
    } else if text_of(dumb_top(body), 2) is None {
        Some(missing_text("macOS version"@, 2))
    } else if text_of(dumb_top(body), 5) is None {
        Some(missing_text("iCloud UA"@, 5))
    } else if text_of(dumb_top(body), 6) is None {
        Some(missing_text("AOSKit version"@, 6))
    } else {
        None
    }
}

/// The protocol version that a dumb body names, cut to 32 bits.
pub open spec fn dumb_protocol_version(body: Seq<u8>) -> u32 {
    match last_varint(dumb_top(body), 3) {
        Some(v) => v as u32,
        None => DEFAULT_PROTOCOL_VERSION as u32,
    }
}

impl HardwareConfig {
    /// Holds the hardware identity of a dumb body.
    pub open spec fn describes(&self, body: Seq<u8>) -> bool {
        let hw = dumb_hw(body);
        &&& text_of(hw, 1) == Some(self.product_name@)
        &&& text_of(hw, 3) == Some(self.platform_serial_number@)
        &&& text_of(hw, 7) == Some(self.os_build_num@)
        &&& text_of(hw, 13) == Some(self.mlb@)
        &&& last_bytes(hw, 11) == Some(self.rom@)
    }
}

impl MacOSConfigRemote {
    /// Holds the identity of a dumb body, and the body itself.
    pub open spec fn describes(&self, body: Seq<u8>) -> bool {
        let top = dumb_top(body);
        &&& self.inner.describes(body)
        &&& text_of(top, 2) == Some(self.version@)
        &&& self.protocol_version == dumb_protocol_version(body)
        &&& text_of(top, 4) == Some(self.device_id@)
        &&& text_of(top, 5) == Some(self.icloud_ua@)
        &&& text_of(top, 6) == Some(self.aoskit_version@)
        &&& self.hw_config matches Some(b) && b@ == body
    }

    /// A text field that has to be there.
    fn need(f: &ProtoFields, n: u64, what: &str) -> (r: Result<String, PushError>)
        ensures
            match r {
                Ok(s) => field_text(f.spec_bytes(n)) == Some(s@),
                Err(e) => field_text(f.spec_bytes(n)) is None && e.is_io(
                    IoErrorKind::InvalidData,
                    missing_text(what@, n),
                ),
            },
    {
        match f.string(n) {
            Some(s) => Ok(s),
            None => {
                let mut m = String::from_str("dumb: missing ");
                m.append(what);
                m.append(" (field #");
                m.append(decimal_text(n).as_str());
                m.append(")");
                Err(PushError::io(IoErrorKind::InvalidData, m))
            },
        }
    }

    /// The Mac that the decoded dumb `body` describes: a header of five bytes
    /// and a protobuf message. The hardware identity is the nested field 1, the
    /// software identity stands beside it.
    ///
    /// Fields of the message: 1 nested hardware, 2 macOS version, 3 protocol
    /// version (varint), 4 device UUID, 5 iCloud UA, 6 AOSKit version. Of the
    /// nested one: 1 product name, 2 MAC address, 3 serial, 7 build number,
    /// 11 ROM, 13 MLB.
    pub fn from_dumb_body_with_udid(body: &[u8], udid: String) -> (r: Result<
        MacOSConfigRemote,
        PushError,
    >)
        ensures
            match r {
                Ok(cfg) => dumb_fault(body@) is None && cfg.describes(body@) && cfg.udid == Some(
                    udid,
                ),
                Err(e) => dumb_fault(body@) matches Some(m) && e.is_io(IoErrorKind::InvalidData, m),
            },
    {
        if body.len() <= DUMB_HEADER_BYTES {
            let mut m = String::from_str("dumb body is ");
            m.append(decimal_text(body.len() as u64).as_str());
            m.append(" B — too short for the 5-byte header + HwInfo");
            return Err(PushError::io(IoErrorKind::InvalidData, m));
        }
        let message = slice_subrange(body, DUMB_HEADER_BYTES, body.len());
        assert(message@ =~= body@.skip(DUMB_HEADER_BYTES as int));
        let top = ProtoFields::parse(message);
        let hw_blob = match top.bytes(1) {
            Some(b) => b,
            None => {
                return Err(
                    PushError::io(
                        IoErrorKind::InvalidData,
                        String::from_str("dumb: no nested HwInfo (top field #1)"),
                    ),
                );
            },
        };
        let hw = ProtoFields::parse(hw_blob);
        let product_name = Self::need(&hw, 1, "product_name")?;
        let platform_serial_number = Self::need(&hw, 3, "serial")?;
        let os_build_num = Self::need(&hw, 7, "build number")?;
        let mlb = Self::need(&hw, 13, "mlb")?;
        let rom = match hw.bytes(11) {
            Some(b) => slice_to_vec(b),
            None => {
                return Err(
                    PushError::io(
                        IoErrorKind::InvalidData,
                        String::from_str("dumb: missing rom (nested field #11)"),
                    ),
                );
            },
        };
        let inner = HardwareConfig { product_name, platform_serial_number, os_build_num, mlb, rom };
        let device_id = Self::need(&top, 4, "device UUID")?;
        let version = Self::need(&top, 2, "macOS version")?;
        let protocol_version = match top.get_varint(3) {
            Some(v) => v as u32,
            None => DEFAULT_PROTOCOL_VERSION as u32,
        };
        let icloud_ua = Self::need(&top, 5, "iCloud UA")?;
        let aoskit_version = Self::need(&top, 6, "AOSKit version")?;
        Ok(
            MacOSConfigRemote {
                version,
                protocol_version,
                icloud_ua,
                aoskit_version,
                udid: Some(udid),
                device_id,
                hw_config: Some(slice_to_vec(body)),
                inner,
            },
        )
    }

    /// The Mac that the decoded dumb `body` describes, under a fresh UDID.
    pub fn from_dumb_body(body: &[u8]) -> (r: Result<MacOSConfigRemote, PushError>)
        ensures
            match r {
                Ok(cfg) => {
                    &&& dumb_fault(body@) is None
                    &&& cfg.describes(body@)
                    &&& cfg.udid matches Some(u) && openbubbles_shaped(u@)
                },
                Err(e) => dumb_fault(body@) matches Some(m) && e.is_io(IoErrorKind::InvalidData, m),
            },
    {
        Self::from_dumb_body_with_udid(body, generate_udid())
    }
}

} // verus!
