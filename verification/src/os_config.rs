//! What the rest of the client asks of a described Mac: user agents, device
//! names, headers and activation data.
use crate::macos_remote::{dumb_hw, dumb_top, MacOSConfigRemote, DUMB_HEADER_BYTES};
use crate::outside::{
    ascii_uppercase, dictionary_entries, dictionary_insert, dictionary_new, random_uuid,
    to_uppercase, uppercase, uuid_v4_text, PlistData, PlistValue,
};
use crate::proto::{last_bytes, ProtoFields};
use crate::text::{before_white_space, encode_hex, first_word, hex, white_space};
use vstd::hash_map::StringHashMap;
use vstd::prelude::*;
use vstd::slice::slice_subrange;
use vstd::utf8::is_ascii_chars;

verus! {

/// The GSA headers of the hardware.
pub const MLB_HEADER: &'static str = "X-Apple-I-MLB";

pub const ROM_HEADER: &'static str = "X-Apple-I-ROM";

pub const SERIAL_HEADER: &'static str = "X-Apple-I-SRL-NO";

/// What a device sends to be activated.
#[derive(Clone)]
pub struct ActivationInfo {
    pub activation_randomness: String,
    pub activation_state: &'static str,
    pub build_version: String,
    pub device_cert_request: Vec<u8>,
    pub device_class: String,
    pub product_type: String,
    pub product_version: String,
    pub serial_number: String,
    pub unique_device_id: String,
}

/// The versions that a registration names.
#[derive(Clone)]
pub struct RegisterMeta {
    pub hardware_version: String,
    pub os_version: String,
    pub software_version: String,
}

/// The versions that a debug report names.
#[derive(Clone)]
pub struct DebugMeta {
    pub user_version: String,
    pub hardware_version: String,
    pub serial_number: String,
}

/// An upper-case random UUID.
pub open spec fn upper_uuid_v4_text(s: Seq<char>) -> bool {
    exists|u: Seq<char>| uuid_v4_text(u) && s == #[trigger] ascii_uppercase(u)
}

/// The entries of the private data of a Mac. `elapsed` is the time since the
/// Apple epoch and `id` the device id in upper case.
pub open spec fn private_entries(
    build: Seq<char>,
    version: Seq<char>,
    elapsed: Seq<char>,
    id: Seq<char>,
) -> Map<Seq<char>, PlistData> {
    map![
        "ap"@ => PlistData::String("0"@),
        "d"@ => PlistData::String(elapsed),
        "dt"@ => PlistData::Integer(1),
        "gt"@ => PlistData::String("0"@),
        "h"@ => PlistData::String("1"@),
        "m"@ => PlistData::String("0"@),
        "p"@ => PlistData::String("0"@),
        "pb"@ => PlistData::String(build),
        "pn"@ => PlistData::String("macOS"@),
        "pv"@ => PlistData::String(version),
        "s"@ => PlistData::String("0"@),
        "t"@ => PlistData::String("0"@),
        "u"@ => PlistData::String(id),
        "v"@ => PlistData::String("1"@),
    ]
}

fn insert_text(d: &mut plist::Dictionary, key: &str, value: &str)
    ensures
        dictionary_entries(*final(d)) == dictionary_entries(*old(d)).insert(
            key@,
            PlistData::String(value@),
        ),
{
    dictionary_insert(d, key, PlistValue::String(String::from_str(value)));
}

impl MacOSConfigRemote {
    /// The activation data for a certificate request, under the given random
    /// text and device id.
    pub fn activation_info(
        &self,
        csr: Vec<u8>,
        activation_randomness: String,
        unique_device_id: String,
    ) -> (r: ActivationInfo)
        ensures
            r.activation_randomness == activation_randomness,
            r.activation_state@ == "Unactivated"@,
            r.build_version@ == self.inner.os_build_num@,
            r.device_cert_request == csr,
            r.device_class@ == "MacOS"@,
            r.product_type@ == self.inner.product_name@,
            r.product_version@ == self.version@,
            r.serial_number@ == self.inner.platform_serial_number@,
            r.unique_device_id == unique_device_id,
    {
        ActivationInfo {
            activation_randomness,
            activation_state: "Unactivated",
            build_version: self.inner.os_build_num.clone(),
            device_cert_request: csr,
            device_class: String::from_str("MacOS"),
            product_type: self.inner.product_name.clone(),
            product_version: self.version.clone(),
            serial_number: self.inner.platform_serial_number.clone(),
            unique_device_id,
        }
    }

    /// The activation data for a certificate request, under a fresh random
    /// UUID and the device id, both in upper case.
    pub fn build_activation_info(&self, csr: Vec<u8>) -> (r: ActivationInfo)
        ensures
            upper_uuid_v4_text(r.activation_randomness@),
            r.activation_state@ == "Unactivated"@,
            r.build_version@ == self.inner.os_build_num@,
            r.device_cert_request == csr,
            r.device_class@ == "MacOS"@,
            r.product_type@ == self.inner.product_name@,
            r.product_version@ == self.version@,
            r.serial_number@ == self.inner.platform_serial_number@,
            r.unique_device_id@ == uppercase(self.device_id@),
    {
        let uuid = random_uuid();
        assert(is_ascii_chars(uuid@));
        let randomness = to_uppercase(uuid.as_str());
        self.activation_info(csr, randomness, to_uppercase(self.device_id.as_str()))
    }

    /// The client UDID.
    pub fn get_udid(&self) -> (r: String)
        requires
            self.udid is Some,
        ensures
            r@ == self.udid->0@,
    {
        self.udid.as_ref().unwrap().clone()
    }

    /// The user agent for `item`: the item and the first word of the iCloud one.
    pub fn get_normal_ua(&self, item: &str) -> (r: String)
        requires
            exists|i: int| 0 <= i < self.icloud_ua@.len() && white_space(self.icloud_ua@[i]),
        ensures
            r@ == item@ + " "@ + first_word(self.icloud_ua@),
    {
        let part = before_white_space(self.icloud_ua.as_str()).unwrap();
        let mut s = String::from_str(item);
        s.append(" ");
        s.append(part.as_str());
        s
    }

    pub fn get_aoskit_version(&self) -> (r: String)
        ensures
            r@ == self.aoskit_version@,
    {
        self.aoskit_version.clone()
    }

    /// The client info of this Mac for `for_item`.
    pub fn get_mme_clientinfo(&self, for_item: &str) -> (r: String)
        ensures
            r@ == "<"@ + self.inner.product_name@ + "> <macOS;"@ + self.version@ + ";"@
                + self.inner.os_build_num@ + "> <"@ + for_item@ + ">"@,
    {
        let mut s = String::from_str("<");
        s.append(self.inner.product_name.as_str());
        s.append("> <macOS;");
        s.append(self.version.as_str());
        s.append(";");
        s.append(self.inner.os_build_num.as_str());
        s.append("> <");
        s.append(for_item);
        s.append(">");
        s
    }

    /// The version part of a user agent.
    pub fn get_version_ua(&self) -> (r: String)
        ensures
            r@ == "[macOS,"@ + self.version@ + ","@ + self.inner.os_build_num@ + ","@
                + self.inner.product_name@ + "]"@,
    {
        let mut s = String::from_str("[macOS,");
        s.append(self.version.as_str());
        s.append(",");
        s.append(self.inner.os_build_num.as_str());
        s.append(",");
        s.append(self.inner.product_name.as_str());
        s.append("]");
        s
    }

    pub fn get_activation_device(&self) -> (r: String)
        ensures
            r@ == "MacOS"@,
    {
        String::from_str("MacOS")
    }

    pub fn get_device_uuid(&self) -> (r: String)
        ensures
            r@ == self.device_id@,
    {
        self.device_id.clone()
    }

    pub fn get_device_name(&self) -> (r: String)
        ensures
            r@ == "Mac-"@ + self.inner.platform_serial_number@,
    {
        let mut s = String::from_str("Mac-");
        s.append(self.inner.platform_serial_number.as_str());
        s
    }

    pub fn get_protocol_version(&self) -> (r: u32)
        ensures
            r == self.protocol_version,
    {
        self.protocol_version
    }

    pub fn get_register_meta(&self) -> (r: RegisterMeta)
        ensures
            r.hardware_version@ == self.inner.product_name@,
            r.os_version@ == "macOS,"@ + self.version@ + ","@ + self.inner.os_build_num@,
            r.software_version@ == self.inner.os_build_num@,
    {
        let mut os_version = String::from_str("macOS,");
        os_version.append(self.version.as_str());
        os_version.append(",");
        os_version.append(self.inner.os_build_num.as_str());
        RegisterMeta {
            hardware_version: self.inner.product_name.clone(),
            os_version,
            software_version: self.inner.os_build_num.clone(),
        }
    }

    pub fn get_debug_meta(&self) -> (r: DebugMeta)
        ensures
            r.user_version@ == self.version@,
            r.hardware_version@ == self.inner.product_name@,
            r.serial_number@ == self.inner.platform_serial_number@,
    {
        DebugMeta {
            user_version: self.version.clone(),
            hardware_version: self.inner.product_name.clone(),
            serial_number: self.inner.platform_serial_number.clone(),
        }
    }

    /// The hardware headers of a GSA request. The ROM is in lower case.
    pub fn get_gsa_hardware_headers(&self) -> (r: StringHashMap<String>)
        ensures
            r@.dom() == set![MLB_HEADER@, ROM_HEADER@, SERIAL_HEADER@],
            r@[MLB_HEADER@]@ == self.inner.mlb@,
            r@[ROM_HEADER@]@ == hex(self.inner.rom@, false),
            r@[SERIAL_HEADER@]@ == self.inner.platform_serial_number@,
    {
        let mut headers = StringHashMap::new();
        headers.insert(String::from_str(MLB_HEADER), self.inner.mlb.clone());
        headers.insert(String::from_str(ROM_HEADER), encode_hex(self.inner.rom.as_slice()));
        headers.insert(String::from_str(SERIAL_HEADER), self.inner.platform_serial_number.clone());
        proof {
            reveal_strlit("X-Apple-I-MLB");
            reveal_strlit("X-Apple-I-ROM");
            reveal_strlit("X-Apple-I-SRL-NO");
            assert(MLB_HEADER@[10] != ROM_HEADER@[10]);
            assert(headers@.dom() =~= set![MLB_HEADER@, ROM_HEADER@, SERIAL_HEADER@]);
        }
        headers
    }

    pub fn get_serial_number(&self) -> (r: String)
        ensures
            r@ == self.inner.platform_serial_number@,
    {
        self.inner.platform_serial_number.clone()
    }

    pub fn get_login_url(&self) -> (r: &'static str)
        ensures
            r@ == "https://setup.icloud.com/setup/signin/v2/login"@,
    {
        "https://setup.icloud.com/setup/signin/v2/login"
    }

    /// The private data of this Mac, with the given time since the Apple epoch
    /// and device id.
    pub fn private_data(&self, elapsed: &str, id: &str) -> (r: plist::Dictionary)
        ensures
            dictionary_entries(r) == private_entries(
                self.inner.os_build_num@,
                self.version@,
                elapsed@,
                id@,
            ),
    {
        let mut d = dictionary_new();
        assert(dictionary_entries(d) =~= Map::<Seq<char>, PlistData>::empty());
        insert_text(&mut d, "ap", "0");
        insert_text(&mut d, "d", elapsed);
        dictionary_insert(&mut d, "dt", PlistValue::Integer(1));
        insert_text(&mut d, "gt", "0");
        insert_text(&mut d, "h", "1");
        insert_text(&mut d, "m", "0");
        insert_text(&mut d, "p", "0");
        insert_text(&mut d, "pb", self.inner.os_build_num.as_str());
        insert_text(&mut d, "pn", "macOS");
        insert_text(&mut d, "pv", self.version.as_str());
        insert_text(&mut d, "s", "0");
        insert_text(&mut d, "t", "0");
        insert_text(&mut d, "u", id);
        insert_text(&mut d, "v", "1");
        d
    }

    /// The private data of this Mac at the given time since the Apple epoch.
    pub fn get_private_data(&self, elapsed: &str) -> (r: plist::Dictionary)
        ensures
            dictionary_entries(r) == private_entries(
                self.inner.os_build_num@,
                self.version@,
                elapsed@,
                uppercase(self.device_id@),
            ),
    {
        let id = to_uppercase(self.device_id.as_str());
        self.private_data(elapsed, id.as_str())
    }

    /// The ROM and the MAC address in the dumb body that this Mac carries, in
    /// hexadecimal; `None` where there is no such body or it lacks one of them.
    pub fn rom_and_io_mac_hex(&self) -> (r: Option<(String, String)>)
        ensures
            match r {
                Some((rom, mac)) => {
                    &&& self.hw_config matches Some(body)
                    &&& body@.len() > DUMB_HEADER_BYTES
                    &&& last_bytes(dumb_top(body@), 1) is Some
                    &&& last_bytes(dumb_hw(body@), 11) matches Some(b) && rom@ == hex(b, false)
                    &&& last_bytes(dumb_hw(body@), 2) matches Some(b) && mac@ == hex(b, false)
                },
                None => self.hw_config matches Some(body) ==> {
                    ||| body@.len() <= DUMB_HEADER_BYTES
                    ||| last_bytes(dumb_top(body@), 1) is None
                    ||| last_bytes(dumb_hw(body@), 11) is None
                    ||| last_bytes(dumb_hw(body@), 2) is None
                },
            },
    {
        let body = match &self.hw_config {
            Some(b) => b.as_slice(),
            None => {
                return None;
            },
        };
        if body.len() <= DUMB_HEADER_BYTES {
            return None;
        }
        let message = slice_subrange(body, DUMB_HEADER_BYTES, body.len());
        assert(message@ =~= body@.skip(DUMB_HEADER_BYTES as int));
        let top = ProtoFields::parse(message);
        let hw = match top.bytes(1) {
            Some(b) => ProtoFields::parse(b),
            None => {
                return None;
            },
        };
        match (hw.bytes(11), hw.bytes(2)) {
            (Some(rom), Some(mac)) => Some((encode_hex(rom), encode_hex(mac))),
            _ => None,
        }
    }
}

} // verus!
