//! What a described Mac answers.
use rustpush::macos_remote::{HardwareConfig, MacOSConfigRemote};

fn mac() -> MacOSConfigRemote {
    MacOSConfigRemote {
        inner: HardwareConfig {
            product_name: "MacBookPro16,2".to_string(),
            platform_serial_number: "SERIALNUM123".to_string(),
            os_build_num: "24D70".to_string(),
            mlb: "MLB0".to_string(),
            rom: vec![0x8e, 0x04, 0x0f],
        },
        version: "15.3.1".to_string(),
        protocol_version: 1640,
        device_id: "ab-cd-straße".to_string(),
        icloud_ua: "com.apple.iCloudHelper/282 CFNetwork/1494.0.7 Darwin/23.4.0".to_string(),
        aoskit_version: "com.apple.AOSKit/282".to_string(),
        udid: Some("UDID".to_string()),
        hw_config: None,
    }
}

#[test]
fn user_agents_and_names() {
    let m = mac();
    assert_eq!(m.get_normal_ua("item/1"), "item/1 com.apple.iCloudHelper/282");
    assert_eq!(m.get_aoskit_version(), "com.apple.AOSKit/282");
    assert_eq!(m.get_mme_clientinfo("app"), "<MacBookPro16,2> <macOS;15.3.1;24D70> <app>");
    assert_eq!(m.get_version_ua(), "[macOS,15.3.1,24D70,MacBookPro16,2]");
    assert_eq!(m.get_activation_device(), "MacOS");
    assert_eq!(m.get_device_uuid(), "ab-cd-straße");
    assert_eq!(m.get_device_name(), "Mac-SERIALNUM123");
    assert_eq!(m.get_protocol_version(), 1640);
    assert_eq!(m.get_serial_number(), "SERIALNUM123");
    assert_eq!(m.get_login_url(), "https://setup.icloud.com/setup/signin/v2/login");
    assert_eq!(m.get_udid(), "UDID");
}

#[test]
fn meta_names_the_versions() {
    let register = mac().get_register_meta();
    assert_eq!(register.hardware_version, "MacBookPro16,2");
    assert_eq!(register.os_version, "macOS,15.3.1,24D70");
    assert_eq!(register.software_version, "24D70");
    let debug = mac().get_debug_meta();
    assert_eq!(debug.user_version, "15.3.1");
    assert_eq!(debug.hardware_version, "MacBookPro16,2");
    assert_eq!(debug.serial_number, "SERIALNUM123");
}

#[test]
fn headers_carry_the_hardware() {
    let headers = mac().get_gsa_hardware_headers();
    assert_eq!(headers.len(), 3);
    assert_eq!(headers.get("X-Apple-I-MLB").map(String::as_str), Some("MLB0"));
    assert_eq!(headers.get("X-Apple-I-ROM").map(String::as_str), Some("8e040f"));
    assert_eq!(headers.get("X-Apple-I-SRL-NO").map(String::as_str), Some("SERIALNUM123"));
}

#[test]
fn activation_info_is_filled_in() {
    let info = mac().build_activation_info(vec![1, 2, 3]);
    assert_eq!(info.activation_state, "Unactivated");
    assert_eq!(info.build_version, "24D70");
    assert_eq!(info.device_cert_request, vec![1, 2, 3]);
    assert_eq!(info.device_class, "MacOS");
    assert_eq!(info.product_type, "MacBookPro16,2");
    assert_eq!(info.product_version, "15.3.1");
    assert_eq!(info.serial_number, "SERIALNUM123");
    assert_eq!(info.unique_device_id, "AB-CD-STRASSE");

    let given = mac().activation_info(vec![9], "random".to_string(), "id".to_string());
    assert_eq!(given.activation_randomness, "random");
    assert_eq!(given.unique_device_id, "id");
    assert_eq!(given.device_cert_request, vec![9]);
}

#[test]
fn activation_randomness_is_a_fresh_upper_case_uuid() {
    let a = mac().build_activation_info(vec![]).activation_randomness;
    let b = mac().build_activation_info(vec![]).activation_randomness;
    assert_ne!(a, b);
    for s in [a, b] {
        assert_eq!(s.len(), 36);
        assert_eq!(s, s.to_uppercase());
        let parsed = uuid::Uuid::parse_str(&s).expect("a UUID");
        assert_eq!(parsed.get_version_num(), 4);
        assert_eq!(parsed.get_variant(), uuid::Variant::RFC4122);
    }
}

#[test]
fn private_data_has_its_entries() {
    let d = mac().get_private_data("123.456000");
    let text = |key: &str| d.get(key).and_then(plist::Value::as_string).map(str::to_string);
    assert_eq!(d.len(), 14);
    for (key, value) in [
        ("ap", "0"),
        ("d", "123.456000"),
        ("gt", "0"),
        ("h", "1"),
        ("m", "0"),
        ("p", "0"),
        ("pb", "24D70"),
        ("pn", "macOS"),
        ("pv", "15.3.1"),
        ("s", "0"),
        ("t", "0"),
        ("u", "AB-CD-STRASSE"),
        ("v", "1"),
    ] {
        assert_eq!(text(key), Some(value.to_string()), "{key}");
    }
    assert_eq!(d.get("dt").and_then(plist::Value::as_signed_integer), Some(1));
    let given = mac().private_data("0.000000", "id");
    assert_eq!(given.get("u").and_then(plist::Value::as_string), Some("id"));
}
