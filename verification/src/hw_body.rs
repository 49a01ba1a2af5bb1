//! Where the hardware-config body for `/nac/create` comes from.
use crate::error::{IoErrorKind, PushError};
use crate::macos_remote::{MacOSConfigRemote, DEFAULT_DUMB_PATH};
use crate::outside::{base64_decode, base64_decoded, lossy_text, utf8_lossy};
use crate::text::{trim, trimmed_end, trimmed_start};
use vstd::prelude::*;
use vstd::slice::slice_to_vec;

verus! {

/// Where a body is to be had: it is at hand, or stands in the file at a path.
pub enum HwConfigSource {
    Inline(Vec<u8>),
    DumbFile(String),
}

/// The body in a dumb file: what its text encodes in Base64, or the bytes of
/// the file themselves where the text is not Base64 or encodes nothing.
pub open spec fn dumb_file_body(decoded: Option<Seq<u8>>, raw: Seq<u8>) -> Seq<u8> {
    match decoded {
        Some(d) if d.len() > 0 => d,
        _ => raw,
    }
}

/// What the text of a dumb file encodes, white space around it aside.
pub open spec fn dumb_file_decoded(raw: Seq<u8>) -> Option<Seq<u8>> {
    base64_decoded(trimmed_end(trimmed_start(lossy_text(raw))))
}

/// The body in a dumb file with the bytes `raw`, whose text decodes to
/// `decoded`.
pub fn decoded_or_raw(decoded: Option<Vec<u8>>, raw: Vec<u8>) -> (r: Vec<u8>)
    ensures
        r@ == dumb_file_body(
            match decoded {
                Some(d) => Some(d@),
                None => None,
            },
            raw@,
        ),
{
    match decoded {
        Some(d) => if d.len() > 0 {
            d
        } else {
            raw
        },
        None => raw,
    }
}

/// The body in a dumb file with the bytes `raw`.
pub fn body_of_dumb_file(raw: Vec<u8>) -> (r: Vec<u8>)
    ensures
        r@ == dumb_file_body(dumb_file_decoded(raw@), raw@),
{
    let text = utf8_lossy(raw.as_slice());
    let decoded = base64_decode(trim(text.as_str()));
    decoded_or_raw(decoded, raw)
}

/// The body from the dumb file at `path`, given what reading that file gave:
/// its bytes, or the text of the error.
pub fn hw_config_from_file(path: &str, read: Result<Vec<u8>, String>) -> (r: Result<
    Vec<u8>,
    PushError,
>)
    ensures
        match read {
            Ok(raw) => r matches Ok(b) && b@ == dumb_file_body(dumb_file_decoded(raw@), raw@),
            Err(e) => r matches Err(f) && f.is_io(
                IoErrorKind::Other,
                "read dumb file "@ + path@ + ": "@ + e@,
            ),
        },
{
    match read {
        Ok(raw) => Ok(body_of_dumb_file(raw)),
        Err(e) => {
            let mut m = String::from_str("read dumb file ");
            m.append(path);
            m.append(": ");
            m.append(e.as_str());
            Err(PushError::io(IoErrorKind::Other, m))
        },
    }
}

impl MacOSConfigRemote {
    /// The body that this Mac carries, where it carries one that is not empty.
    pub open spec fn inline_body(&self) -> Option<Seq<u8>> {
        match self.hw_config {
            Some(d) if d@.len() > 0 => Some(d@),
            _ => None,
        }
    }

    /// Where the body of this Mac comes from: the inline one where there is one
    /// that is not empty, else the dumb file, at `dumb_path` or by default at
    /// the place where OpenBubbles keeps it.
    pub fn hw_config_source(&self, dumb_path: Option<String>) -> (r: HwConfigSource)
        ensures
            match r {
                HwConfigSource::Inline(b) => self.inline_body() == Some(b@),
                HwConfigSource::DumbFile(p) => self.inline_body() is None && p@ == (
                match dumb_path {
                    Some(path) => path@,
                    None => DEFAULT_DUMB_PATH@,
                }),
            },
    {
        if let Some(d) = &self.hw_config {
            if d.len() > 0 {
                return HwConfigSource::Inline(slice_to_vec(d.as_slice()));
            }
        }
        match dumb_path {
            Some(path) => HwConfigSource::DumbFile(path),
            None => HwConfigSource::DumbFile(String::from_str(DEFAULT_DUMB_PATH)),
        }
    }
}

} // verus!
