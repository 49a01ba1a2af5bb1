//! What can be asked with anything: these functions have an answer for every
//! input.
use crate::error::{IoErrorKind, PushError};
use crate::hw_body::{body_of_dumb_file, decoded_or_raw, hw_config_from_file};
use crate::keystore::keys::{AesKeystoreKey, EcKeystoreKey, RsaKey, StoredRsaKey};
use crate::keystore::store::{numbered_alias, Keystore};
use crate::keystore::types::{EcCurve, KeyType, KeystoreAccessRules, KeystoreError};
use crate::macos_remote::MacOSConfigRemote;
use crate::nac::{
    create_request, refused, session_created, sign_request, NacEvent, NacRequest, NacRun,
};
use crate::proto::ProtoFields;
use crate::text::{
    before_white_space, decimal_text, encode_hex, encode_hex_upper, trim, white_space,
};
use crate::udid::{generate_udid, is_openbubbles_shaped_udid};
use vstd::prelude::*;

verus! {

/// Any bytes can be read as a message, and asked for any field.
pub proof fn law_any_bytes_can_be_read(buf: &[u8], f: &ProtoFields, field: u64)
    ensures
        call_requires(ProtoFields::parse, (buf,)),
        call_requires(ProtoFields::bytes, (f, field)),
        call_requires(ProtoFields::string, (f, field)),
        call_requires(ProtoFields::get_varint, (f, field)),
{
}

/// Any bytes can be taken for a dumb body, under any UDID.
pub proof fn law_any_body_can_be_read(body: &[u8], udid: String)
    ensures
        call_requires(MacOSConfigRemote::from_dumb_body, (body,)),
        call_requires(MacOSConfigRemote::from_dumb_body_with_udid, (body, udid)),
{
}

/// Any Mac can be asked for its body, and any file can be taken for a dumb
/// file.
pub proof fn law_any_file_can_be_read(
    cfg: &MacOSConfigRemote,
    dumb_path: Option<String>,
    path: &str,
    read: Result<Vec<u8>, String>,
    decoded: Option<Vec<u8>>,
    raw: Vec<u8>,
)
    ensures
        call_requires(MacOSConfigRemote::hw_config_source, (cfg, dumb_path)),
        call_requires(MacOSConfigRemote::rom_and_io_mac_hex, (cfg,)),
        call_requires(hw_config_from_file, (path, read)),
        call_requires(body_of_dumb_file, (raw,)),
        call_requires(decoded_or_raw, (decoded, raw)),
{
}

/// Any Mac can be asked for what it is. Only one without a UDID cannot be asked
/// for it, and one whose iCloud user agent has no white space not for its
/// normal user agent.
pub proof fn law_any_mac_can_be_asked(
    cfg: &MacOSConfigRemote,
    csr: Vec<u8>,
    randomness: String,
    id: String,
    text: &str,
    other: &str,
    i: int,
)
    ensures
        call_requires(MacOSConfigRemote::activation_info, (cfg, csr, randomness, id)),
        call_requires(MacOSConfigRemote::build_activation_info, (cfg, csr)),
        call_requires(MacOSConfigRemote::private_data, (cfg, text, other)),
        call_requires(MacOSConfigRemote::get_private_data, (cfg, text)),
        call_requires(MacOSConfigRemote::get_gsa_hardware_headers, (cfg,)),
        call_requires(MacOSConfigRemote::get_aoskit_version, (cfg,)),
        call_requires(MacOSConfigRemote::get_mme_clientinfo, (cfg, text)),
        call_requires(MacOSConfigRemote::get_version_ua, (cfg,)),
        call_requires(MacOSConfigRemote::get_activation_device, (cfg,)),
        call_requires(MacOSConfigRemote::get_device_uuid, (cfg,)),
        call_requires(MacOSConfigRemote::get_device_name, (cfg,)),
        call_requires(MacOSConfigRemote::get_protocol_version, (cfg,)),
        call_requires(MacOSConfigRemote::get_register_meta, (cfg,)),
        call_requires(MacOSConfigRemote::get_debug_meta, (cfg,)),
        call_requires(MacOSConfigRemote::get_serial_number, (cfg,)),
        call_requires(MacOSConfigRemote::get_login_url, (cfg,)),
        cfg.udid is Some ==> call_requires(MacOSConfigRemote::get_udid, (cfg,)),
        0 <= i < cfg.icloud_ua@.len() && white_space(cfg.icloud_ua@[i])
            ==> call_requires(MacOSConfigRemote::get_normal_ua, (cfg, text)),
{
}

/// Any text and any number can be written and read, and a UDID can be had at
/// any time.
pub proof fn law_any_text_can_be_read(bytes: &[u8], n: u64, s: &str)
    ensures
        call_requires(encode_hex, (bytes,)),
        call_requires(encode_hex_upper, (bytes,)),
        call_requires(decimal_text, (n,)),
        call_requires(before_white_space, (s,)),
        call_requires(trim, (s,)),
        call_requires(is_openbubbles_shaped_udid, (s,)),
        call_requires(generate_udid, ()),
{
}

/// A run takes every event that it accepts, and requests and reports can be
/// made of anything.
pub proof fn law_run_takes_what_it_accepts(
    run: NacRun,
    event: NacEvent,
    chain: String,
    body: Vec<u8>,
    decoded: Option<Vec<u8>>,
    request: NacRequest,
    status: u16,
    text: &str,
    kind: IoErrorKind,
)
    ensures
        call_requires(NacRun::start, ()),
        call_requires(NacRun::accepts, (&run, &event)),
        call_ensures(NacRun::accepts, (&run, &event), true) ==> call_requires(
            NacRun::advance,
            (run, event),
        ),
        call_requires(create_request, (chain, body)),
        call_requires(sign_request, (text, body)),
        call_requires(session_created, (chain, decoded)),
        call_requires(refused, (request, status, text)),
        call_requires(PushError::io, (kind, chain)),
{
}

/// Any keystore can be asked to make sure of, to replace and to create any key,
/// and to make sure of a secret of any length.
pub proof fn law_any_keystore_can_be_asked<K: Keystore + ?Sized>(
    store: &mut K,
    alias: &str,
    key_type: KeyType,
    access_rules: KeystoreAccessRules,
    len: usize,
    fresh: Vec<u8>,
    n: u64,
)
    ensures
        call_requires(K::ensure_exists, (store, alias, key_type, access_rules)),
        call_requires(K::overwrite_new, (store, alias, key_type, access_rules)),
        call_requires(K::create_new, (store, alias, key_type, access_rules)),
        call_requires(K::ensure_secret, (store, alias, len)),
        call_requires(K::store_secret, (store, alias, fresh)),
        call_requires(numbered_alias, (alias, n)),
{
}

/// Any key can be made sure of, replaced, created, imported and loaded, on any
/// keystore.
pub proof fn law_any_key_can_be_had<K: Keystore + ?Sized>(
    store: &mut K,
    key: &str,
    bits: u16,
    curve: EcCurve,
    bytes: &[u8],
    access_rules: KeystoreAccessRules,
    stored: StoredRsaKey,
    alias: String,
    reply: Result<(), KeystoreError>,
)
    ensures
        call_requires(RsaKey::ensure::<K>, (store, key, bits, access_rules)),
        call_requires(RsaKey::overwrite::<K>, (store, key, bits, access_rules)),
        call_requires(RsaKey::create_new::<K>, (store, key, bits, access_rules)),
        call_requires(RsaKey::import::<K>, (store, key, bits, bytes, access_rules)),
        call_requires(RsaKey::import_der::<K>, (store, bytes)),
        call_requires(RsaKey::load::<K>, (store, stored)),
        call_requires(RsaKey::imported, (alias, reply)),
        call_requires(EcKeystoreKey::ensure::<K>, (store, key, curve, access_rules)),
        call_requires(EcKeystoreKey::overwrite::<K>, (store, key, curve, access_rules)),
        call_requires(EcKeystoreKey::create_new::<K>, (store, key, curve, access_rules)),
        call_requires(EcKeystoreKey::import::<K>, (store, key, curve, bytes, access_rules)),
        call_requires(AesKeystoreKey::ensure::<K>, (store, key, bits, access_rules)),
        call_requires(AesKeystoreKey::overwrite::<K>, (store, key, bits, access_rules)),
        call_requires(AesKeystoreKey::create_new::<K>, (store, key, bits, access_rules)),
        call_requires(AesKeystoreKey::import::<K>, (store, key, bits, bytes, access_rules)),
{
}

} // verus!
