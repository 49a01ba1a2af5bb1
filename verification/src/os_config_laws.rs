//! What every described Mac answers, part by part.
use crate::macos_remote::MacOSConfigRemote;
use crate::os_config::{private_entries, ActivationInfo, DebugMeta, RegisterMeta};
use crate::outside::{
    ascii_uppercase, dictionary_entries, uppercase, uuid_v4_text, PlistData, PlistValue,
};
use crate::text::{first_word, hex};
use vstd::hash_map::StringHashMap;
use vstd::prelude::*;

verus! {

/// The keys of the private data are all different.
proof fn lemma_private_keys()
    ensures
        "ap"@ == seq!['a', 'p'],
        "d"@ == seq!['d'],
        "dt"@ == seq!['d', 't'],
        "gt"@ == seq!['g', 't'],
        "h"@ == seq!['h'],
        "m"@ == seq!['m'],
        "p"@ == seq!['p'],
        "pb"@ == seq!['p', 'b'],
        "pn"@ == seq!['p', 'n'],
        "pv"@ == seq!['p', 'v'],
        "s"@ == seq!['s'],
        "t"@ == seq!['t'],
        "u"@ == seq!['u'],
        "v"@ == seq!['v'],
{
    reveal_strlit("ap");
    reveal_strlit("d");
    reveal_strlit("dt");
    reveal_strlit("gt");
    reveal_strlit("h");
    reveal_strlit("m");
    reveal_strlit("p");
    reveal_strlit("pb");
    reveal_strlit("pn");
    reveal_strlit("pv");
    reveal_strlit("s");
    reveal_strlit("t");
    reveal_strlit("u");
    reveal_strlit("v");
    assert("ap"@ =~= seq!['a', 'p']);
    assert("d"@ =~= seq!['d']);
    assert("dt"@ =~= seq!['d', 't']);
    assert("gt"@ =~= seq!['g', 't']);
    assert("h"@ =~= seq!['h']);
    assert("m"@ =~= seq!['m']);
    assert("p"@ =~= seq!['p']);
    assert("pb"@ =~= seq!['p', 'b']);
    assert("pn"@ =~= seq!['p', 'n']);
    assert("pv"@ =~= seq!['p', 'v']);
    assert("s"@ =~= seq!['s']);
    assert("t"@ =~= seq!['t']);
    assert("u"@ =~= seq!['u']);
    assert("v"@ =~= seq!['v']);
}

/// The private data holds the time as it was given under `d`, the build under
/// `pb`, the version under `pv` and the id as it was given under `u`, each whole
/// and whatever it is. The other ten entries are the same for every Mac, and
/// there are no more.
pub proof fn law_private_data_holds_what_was_given(
    cfg: &MacOSConfigRemote,
    elapsed: &str,
    id: &str,
    r: plist::Dictionary,
)
    requires
        call_ensures(MacOSConfigRemote::private_data, (cfg, elapsed, id), r),
    ensures
        dictionary_entries(r)["d"@] == PlistData::String(elapsed@),
        dictionary_entries(r)["pb"@] == PlistData::String(cfg.inner.os_build_num@),
        dictionary_entries(r)["pv"@] == PlistData::String(cfg.version@),
        dictionary_entries(r)["u"@] == PlistData::String(id@),
        dictionary_entries(r)["ap"@] == PlistData::String("0"@),
        dictionary_entries(r)["dt"@] == PlistData::Integer(1),
        dictionary_entries(r)["gt"@] == PlistData::String("0"@),
        dictionary_entries(r)["h"@] == PlistData::String("1"@),
        dictionary_entries(r)["m"@] == PlistData::String("0"@),
        dictionary_entries(r)["p"@] == PlistData::String("0"@),
        dictionary_entries(r)["pn"@] == PlistData::String("macOS"@),
        dictionary_entries(r)["s"@] == PlistData::String("0"@),
        dictionary_entries(r)["t"@] == PlistData::String("0"@),
        dictionary_entries(r)["v"@] == PlistData::String("1"@),
        dictionary_entries(r).dom() == set![
            "ap"@,
            "d"@,
            "dt"@,
            "gt"@,
            "h"@,
            "m"@,
            "p"@,
            "pb"@,
            "pn"@,
            "pv"@,
            "s"@,
            "t"@,
            "u"@,
            "v"@,
        ],
{
    lemma_private_entries(cfg.inner.os_build_num@, cfg.version@, elapsed@, id@);
}

proof fn lemma_private_entries(
    build: Seq<char>,
    version: Seq<char>,
    elapsed: Seq<char>,
    id: Seq<char>,
)
    ensures
        ({
            let d = private_entries(build, version, elapsed, id);
            &&& d["d"@] == PlistData::String(elapsed)
            &&& d["pb"@] == PlistData::String(build)
            &&& d["pv"@] == PlistData::String(version)
            &&& d["u"@] == PlistData::String(id)
            &&& d["ap"@] == PlistData::String("0"@)
            &&& d["dt"@] == PlistData::Integer(1)
            &&& d["gt"@] == PlistData::String("0"@)
            &&& d["h"@] == PlistData::String("1"@)
            &&& d["m"@] == PlistData::String("0"@)
            &&& d["p"@] == PlistData::String("0"@)
            &&& d["pn"@] == PlistData::String("macOS"@)
            &&& d["s"@] == PlistData::String("0"@)
            &&& d["t"@] == PlistData::String("0"@)
            &&& d["v"@] == PlistData::String("1"@)
            &&& d.dom() == set![
                "ap"@,
                "d"@,
                "dt"@,
                "gt"@,
                "h"@,
                "m"@,
                "p"@,
                "pb"@,
                "pn"@,
                "pv"@,
                "s"@,
                "t"@,
                "u"@,
                "v"@,
            ]
        }),
{
    lemma_private_keys();
    assert("d"@.len() == 1 && "h"@.len() == 1 && "m"@.len() == 1 && "p"@.len() == 1 && "s"@.len()
        == 1 && "t"@.len() == 1 && "u"@.len() == 1 && "v"@.len() == 1);
    assert("ap"@.len() == 2 && "dt"@.len() == 2 && "gt"@.len() == 2 && "pb"@.len() == 2
        && "pn"@.len() == 2 && "pv"@.len() == 2);
    assert("d"@[0] == 'd' && "h"@[0] == 'h' && "m"@[0] == 'm' && "p"@[0] == 'p' && "s"@[0] == 's'
        && "t"@[0] == 't' && "u"@[0] == 'u' && "v"@[0] == 'v');
    assert("pb"@[1] == 'b' && "pn"@[1] == 'n' && "pv"@[1] == 'v' && "dt"@[1] == 't' && "gt"@[1]
        == 't' && "ap"@[1] == 'p');
    assert("pb"@[0] == 'p' && "pn"@[0] == 'p' && "pv"@[0] == 'p' && "dt"@[0] == 'd' && "gt"@[0]
        == 'g' && "ap"@[0] == 'a');
    let d = private_entries(build, version, elapsed, id);
    assert(d.dom() =~= set![
        "ap"@,
        "d"@,
        "dt"@,
        "gt"@,
        "h"@,
        "m"@,
        "p"@,
        "pb"@,
        "pn"@,
        "pv"@,
        "s"@,
        "t"@,
        "u"@,
        "v"@,
    ]);
}

/// The private data of a Mac is the one with its own device id, in upper case.
pub proof fn law_private_data_names_the_device(
    cfg: &MacOSConfigRemote,
    elapsed: &str,
    r: plist::Dictionary,
    id: &str,
    same: plist::Dictionary,
)
    requires
        call_ensures(MacOSConfigRemote::get_private_data, (cfg, elapsed), r),
        id@ == uppercase(cfg.device_id@),
        call_ensures(MacOSConfigRemote::private_data, (cfg, elapsed, id), same),
    ensures
        dictionary_entries(r) == dictionary_entries(same),
        dictionary_entries(r)["d"@] == PlistData::String(elapsed@),
        dictionary_entries(r)["pb"@] == PlistData::String(cfg.inner.os_build_num@),
        dictionary_entries(r)["pv"@] == PlistData::String(cfg.version@),
        dictionary_entries(r)["u"@] == PlistData::String(uppercase(cfg.device_id@)),
{
    law_private_data_holds_what_was_given(cfg, elapsed, id, same);
}

/// The activation data holds what was given and what the Mac is, each part
/// whole and in its own place.
pub proof fn law_activation_info_holds_what_was_given(
    cfg: &MacOSConfigRemote,
    csr: Vec<u8>,
    randomness: String,
    id: String,
    r: ActivationInfo,
)
    requires
        call_ensures(MacOSConfigRemote::activation_info, (cfg, csr, randomness, id), r),
    ensures
        r.activation_randomness@ == randomness@,
        r.activation_state@ == "Unactivated"@,
        r.build_version@ == cfg.inner.os_build_num@,
        r.device_cert_request@ == csr@,
        r.device_class@ == "MacOS"@,
        r.product_type@ == cfg.inner.product_name@,
        r.product_version@ == cfg.version@,
        r.serial_number@ == cfg.inner.platform_serial_number@,
        r.unique_device_id@ == id@,
{
}

/// The activation data of a Mac is the one with its own device id in upper case
/// and an upper-case random UUID of version 4.
pub proof fn law_activation_info_names_the_device(
    cfg: &MacOSConfigRemote,
    csr: Vec<u8>,
    r: ActivationInfo,
)
    requires
        call_ensures(MacOSConfigRemote::build_activation_info, (cfg, csr), r),
    ensures
        r.activation_state@ == "Unactivated"@,
        r.build_version@ == cfg.inner.os_build_num@,
        r.device_cert_request@ == csr@,
        r.device_class@ == "MacOS"@,
        r.product_type@ == cfg.inner.product_name@,
        r.product_version@ == cfg.version@,
        r.serial_number@ == cfg.inner.platform_serial_number@,
        r.unique_device_id@ == uppercase(cfg.device_id@),
        ({
            let s = r.activation_randomness@;
            &&& s.len() == 36
            &&& s[8] == '-' && s[13] == '-' && s[18] == '-' && s[23] == '-'
            &&& forall|i: int|
                0 <= i < 36 && i != 8 && i != 13 && i != 18 && i != 23 ==> ('0' <= #[trigger] s[i]
                    <= '9' || 'A' <= s[i] <= 'F')
            &&& s[14] == '4'
            &&& s[19] == '8' || s[19] == '9' || s[19] == 'A' || s[19] == 'B'
        }),
{
    let s = r.activation_randomness@;
    let u = choose|u: Seq<char>| uuid_v4_text(u) && s == #[trigger] ascii_uppercase(u);
    assert(uuid_v4_text(u) && s == ascii_uppercase(u));
    assert forall|i: int| 0 <= i < 36 && i != 8 && i != 13 && i != 18 && i != 23 implies ('0'
        <= #[trigger] s[i] <= '9' || 'A' <= s[i] <= 'F') by {
        assert('0' <= u[i] <= '9' || 'a' <= u[i] <= 'f');
    }
    assert(u[8] == '-' && u[13] == '-' && u[18] == '-' && u[23] == '-' && u[14] == '4');
}

/// The GSA headers are exactly the MLB, the ROM in lower-case hexadecimal and
/// the serial number of the Mac, each whole.
pub proof fn law_headers_carry_the_hardware(cfg: &MacOSConfigRemote, r: StringHashMap<String>)
    requires
        call_ensures(MacOSConfigRemote::get_gsa_hardware_headers, (cfg,), r),
    ensures
        r@.dom() == set!["X-Apple-I-MLB"@, "X-Apple-I-ROM"@, "X-Apple-I-SRL-NO"@],
        r@["X-Apple-I-MLB"@]@ == cfg.inner.mlb@,
        r@["X-Apple-I-ROM"@]@ == hex(cfg.inner.rom@, false),
        r@["X-Apple-I-SRL-NO"@]@ == cfg.inner.platform_serial_number@,
{
}

/// The user agent for an item is the item, a space and all that stands in front
/// of the first white space of the iCloud user agent.
pub proof fn law_normal_ua_ends_in_the_first_word(cfg: &MacOSConfigRemote, item: &str, r: String)
    requires
        call_ensures(MacOSConfigRemote::get_normal_ua, (cfg, item), r),
    ensures
        r@ == item@ + " "@ + first_word(cfg.icloud_ua@),
{
}

/// The client info names the product, the version, the build and the item,
/// each whole and in this order.
pub proof fn law_clientinfo_names_the_parts(cfg: &MacOSConfigRemote, item: &str, r: String)
    requires
        call_ensures(MacOSConfigRemote::get_mme_clientinfo, (cfg, item), r),
    ensures
        r@ == "<"@ + cfg.inner.product_name@ + "> <macOS;"@ + cfg.version@ + ";"@
            + cfg.inner.os_build_num@ + "> <"@ + item@ + ">"@,
{
}

/// The version part of a user agent names the version, the build and the
/// product, each whole and in this order.
pub proof fn law_version_ua_names_the_parts(cfg: &MacOSConfigRemote, r: String)
    requires
        call_ensures(MacOSConfigRemote::get_version_ua, (cfg,), r),
    ensures
        r@ == "[macOS,"@ + cfg.version@ + ","@ + cfg.inner.os_build_num@ + ","@
            + cfg.inner.product_name@ + "]"@,
{
}

/// Registration names the product, the version and the build.
pub proof fn law_register_meta_names_the_parts(cfg: &MacOSConfigRemote, r: RegisterMeta)
    requires
        call_ensures(MacOSConfigRemote::get_register_meta, (cfg,), r),
    ensures
        r.hardware_version@ == cfg.inner.product_name@,
        r.os_version@ == "macOS,"@ + cfg.version@ + ","@ + cfg.inner.os_build_num@,
        r.software_version@ == cfg.inner.os_build_num@,
{
}

/// A debug report names the version, the product and the serial number.
pub proof fn law_debug_meta_names_the_parts(cfg: &MacOSConfigRemote, r: DebugMeta)
    requires
        call_ensures(MacOSConfigRemote::get_debug_meta, (cfg,), r),
    ensures
        r.user_version@ == cfg.version@,
        r.hardware_version@ == cfg.inner.product_name@,
        r.serial_number@ == cfg.inner.platform_serial_number@,
{
}

/// What a Mac says of itself is what it is: its UDID, its AOSKit version, its
/// device id, its serial number and its protocol version, as they are.
pub proof fn law_mac_says_what_it_is(
    cfg: &MacOSConfigRemote,
    udid: String,
    aoskit: String,
    uuid: String,
    serial: String,
    protocol: u32,
)
    requires
        call_ensures(MacOSConfigRemote::get_udid, (cfg,), udid),
        call_ensures(MacOSConfigRemote::get_aoskit_version, (cfg,), aoskit),
        call_ensures(MacOSConfigRemote::get_device_uuid, (cfg,), uuid),
        call_ensures(MacOSConfigRemote::get_serial_number, (cfg,), serial),
        call_ensures(MacOSConfigRemote::get_protocol_version, (cfg,), protocol),
    ensures
        cfg.udid matches Some(u) ==> udid@ == u@,
        aoskit@ == cfg.aoskit_version@,
        uuid@ == cfg.device_id@,
        serial@ == cfg.inner.platform_serial_number@,
        protocol == cfg.protocol_version,
{
}

/// Every Mac is activated as the same kind of device, logs in at the same place
/// and has its serial number in its name.
pub proof fn law_mac_is_named_by_its_serial(
    cfg: &MacOSConfigRemote,
    device: String,
    url: &'static str,
    name: String,
)
    requires
        call_ensures(MacOSConfigRemote::get_activation_device, (cfg,), device),
        call_ensures(MacOSConfigRemote::get_login_url, (cfg,), url),
        call_ensures(MacOSConfigRemote::get_device_name, (cfg,), name),
    ensures
        device@ == "MacOS"@,
        url@ == "https://setup.icloud.com/setup/signin/v2/login"@,
        name@ == "Mac-"@ + cfg.inner.platform_serial_number@,
{
}

/// The view of a property-list value holds the whole of it.
pub proof fn law_view_of_a_value_holds_it(text: String, n: i64)
    ensures
        PlistValue::String(text)@ == PlistData::String(text@),
        PlistValue::Integer(n)@ == PlistData::Integer(n as int),
{
}

} // verus!
