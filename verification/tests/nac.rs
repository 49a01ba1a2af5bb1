//! The validation exchange, and where the hardware-config body comes from.
use rustpush::error::{IoErrorKind, PushError};
use rustpush::hw_body::{body_of_dumb_file, decoded_or_raw, hw_config_from_file, HwConfigSource};
use rustpush::macos_remote::{HardwareConfig, MacOSConfigRemote, DEFAULT_DUMB_PATH, NAC_BASE_URL};
use rustpush::nac::{
    create_request, refused, session_created, sign_request, HttpPost, NacAction, NacEvent,
    NacRequest, NacRun,
};

fn mac(hw_config: Option<Vec<u8>>) -> MacOSConfigRemote {
    MacOSConfigRemote {
        inner: HardwareConfig {
            product_name: "MacBookPro16,2".to_string(),
            platform_serial_number: "SERIALNUM123".to_string(),
            os_build_num: "24D70".to_string(),
            mlb: "MLB".to_string(),
            rom: vec![1, 2],
        },
        version: "15.3.1".to_string(),
        protocol_version: 1640,
        device_id: "id".to_string(),
        icloud_ua: "ua x".to_string(),
        aoskit_version: "kit".to_string(),
        udid: None,
        hw_config,
    }
}

fn io_error(e: PushError) -> (IoErrorKind, String) {
    match e {
        PushError::IoError(e) => (e.kind, e.message),
    }
}

fn step(run: NacRun, event: NacEvent) -> (NacRun, NacAction) {
    assert!(run.accepts(&event));
    run.advance(event)
}

fn post(action: NacAction) -> HttpPost {
    match action {
        NacAction::Post(post) => post,
        _ => panic!("a request is sent"),
    }
}

fn header(name: &str, value: &str) -> (String, String) {
    (name.to_string(), value.to_string())
}

/// A run up to the answer of `/nac/create`.
fn created_run() -> NacRun {
    let (run, _) = NacRun::start();
    let (run, _) = step(run, NacEvent::BagUrl("u".to_string()));
    let (run, _) = step(run, NacEvent::CertChain(vec![1]));
    let (run, _) = step(run, NacEvent::HardwareConfig(vec![2]));
    run
}

/// A run up to the answer of the sign request.
fn signed_run() -> NacRun {
    let (run, _) = step(created_run(), NacEvent::Status(200));
    let (run, _) = step(
        run,
        NacEvent::Session { sign_url: "/nac/1/sign".to_string(), request: "aGk=".to_string() },
    );
    let (run, _) = step(run, NacEvent::BagUrl("v".to_string()));
    let (run, _) = step(run, NacEvent::SessionInfo(vec![3]));
    run
}

#[test]
fn whole_exchange_gives_the_body_of_the_signature() {
    let (run, action) = NacRun::start();
    assert!(matches!(action, NacAction::LookUpBag("id-validation-cert")));

    let (run, action) = step(run, NacEvent::BagUrl("https://certs".to_string()));
    match action {
        NacAction::FetchCertChain { url, timeout_secs } => {
            assert_eq!(url, "https://certs");
            assert_eq!(timeout_secs, 20);
        }
        _ => panic!("the chain is fetched"),
    }

    let (run, action) = step(run, NacEvent::CertChain(b"chain".to_vec()));
    assert!(matches!(action, NacAction::LoadHardwareConfig));

    let (run, action) = step(run, NacEvent::HardwareConfig(b"OABS\0hw".to_vec()));
    let create = post(action);
    assert_eq!(create.url, "https://hw.openbubbles.app/nac/create");
    assert_eq!(
        create.headers,
        vec![
            header("X-Absinthe-Cert-Chain", "Y2hhaW4="),
            header("Content-Type", "application/octet-stream"),
        ]
    );
    assert_eq!(create.body, b"OABS\0hw".to_vec());
    assert_eq!(create.timeout_secs, 20);

    let (run, action) = step(run, NacEvent::Status(201));
    assert!(matches!(action, NacAction::ReadSession));

    let (run, action) = step(
        run,
        NacEvent::Session {
            sign_url: "/nac/7/sign".to_string(),
            request: "cmVxdWVzdA==".to_string(),
        },
    );
    assert!(matches!(action, NacAction::LookUpBag("id-initialize-validation")));

    let (run, action) = step(run, NacEvent::BagUrl("https://init".to_string()));
    match action {
        NacAction::PostSessionInfoRequest { url, session_info_request, timeout_secs } => {
            assert_eq!(url, "https://init");
            assert_eq!(session_info_request, b"request".to_vec());
            assert_eq!(timeout_secs, 20);
        }
        _ => panic!("the request goes to Apple"),
    }

    let (run, action) = step(run, NacEvent::SessionInfo(b"info".to_vec()));
    let sign = post(action);
    assert_eq!(sign.url, "https://hw.openbubbles.app/nac/7/sign");
    assert_eq!(sign.headers, vec![header("Content-Type", "application/octet-stream")]);
    assert_eq!(sign.body, b"info".to_vec());
    assert_eq!(sign.timeout_secs, 20);

    let (run, action) = step(run, NacEvent::Status(200));
    assert!(matches!(action, NacAction::ReadBody));

    let (run, action) = step(run, NacEvent::Body(b"validation".to_vec()));
    assert!(matches!(run, NacRun::Finished));
    match action {
        NacAction::Finish(Ok(data)) => assert_eq!(data, b"validation".to_vec()),
        _ => panic!("the run is over"),
    }
}

#[test]
fn refused_session_ends_the_run() {
    for status in [100u16, 199, 300, 404, 500] {
        let (run, action) = step(created_run(), NacEvent::Status(status));
        assert!(matches!(action, NacAction::ReadErrorText));
        let (run, action) = step(run, NacEvent::ErrorText("no".to_string()));
        assert!(matches!(run, NacRun::Finished));
        match action {
            NacAction::Finish(Err(e)) => assert_eq!(
                io_error(e),
                (IoErrorKind::Other, format!("nac/create HTTP {status}: no"))
            ),
            _ => panic!("the run is over"),
        }
    }
}

#[test]
fn missing_hardware_config_ends_the_run() {
    let (run, _) = NacRun::start();
    let (run, _) = step(run, NacEvent::BagUrl("u".to_string()));
    let (run, action) = step(run, NacEvent::CertChain(vec![1]));
    assert!(matches!(action, NacAction::LoadHardwareConfig));
    let reason = match hw_config_from_file("/d", Err("gone".to_string())) {
        Ok(_) => panic!("the file is not there"),
        Err(e) => e,
    };
    let (run, action) = step(run, NacEvent::NoHardwareConfig(reason));
    assert!(matches!(run, NacRun::Finished));
    match action {
        NacAction::Finish(Err(e)) => assert_eq!(
            io_error(e),
            (IoErrorKind::Other, "read dumb file /d: gone".to_string())
        ),
        _ => panic!("the run is over"),
    }
}

#[test]
fn refused_signature_ends_the_run() {
    let (run, action) = step(signed_run(), NacEvent::Status(503));
    assert!(matches!(action, NacAction::ReadErrorText));
    let (run, action) = step(run, NacEvent::ErrorText("".to_string()));
    assert!(matches!(run, NacRun::Finished));
    match action {
        NacAction::Finish(Err(e)) => {
            assert_eq!(io_error(e), (IoErrorKind::Other, "nac sign HTTP 503: ".to_string()))
        }
        _ => panic!("the run is over"),
    }
}

#[test]
fn every_success_status_goes_on() {
    for status in 200u16..300 {
        let (_, action) = step(created_run(), NacEvent::Status(status));
        assert!(matches!(action, NacAction::ReadSession));
        let (_, action) = step(signed_run(), NacEvent::Status(status));
        assert!(matches!(action, NacAction::ReadBody));
    }
}

#[test]
fn request_that_is_not_base64_ends_the_run() {
    let (run, _) = step(created_run(), NacEvent::Status(200));
    let (run, action) = step(
        run,
        NacEvent::Session { sign_url: "/s".to_string(), request: "not base64!".to_string() },
    );
    assert!(matches!(run, NacRun::Finished));
    match action {
        NacAction::Finish(Err(e)) => assert_eq!(
            io_error(e),
            (
                IoErrorKind::InvalidData,
                "nac/create: the session-info-request is not base64".to_string()
            )
        ),
        _ => panic!("the run is over"),
    }
}

#[test]
fn a_run_takes_only_the_event_that_it_waits_for() {
    let (run, _) = NacRun::start();
    assert!(run.accepts(&NacEvent::BagUrl("u".to_string())));
    assert!(!run.accepts(&NacEvent::Status(200)));
    assert!(!run.accepts(&NacEvent::Body(vec![])));
    let run = created_run();
    assert!(run.accepts(&NacEvent::Status(200)));
    assert!(!run.accepts(&NacEvent::HardwareConfig(vec![])));
    assert!(!run.accepts(&NacEvent::NoHardwareConfig(refused(NacRequest::Create, 1, ""))));
    assert!(!NacRun::Finished.accepts(&NacEvent::Body(vec![])));
    assert!(!NacRun::Finished.accepts(&NacEvent::ErrorText("".to_string())));
}

#[test]
fn requests_name_their_parts() {
    let create = create_request("chain".to_string(), vec![1]);
    assert_eq!(create.url, format!("{NAC_BASE_URL}/nac/create"));
    assert_eq!(create.headers[0], header("X-Absinthe-Cert-Chain", "chain"));
    let sign = sign_request("/x", vec![2]);
    assert_eq!(sign.url, format!("{NAC_BASE_URL}/x"));
    assert_eq!(sign.body, vec![2]);
    assert_eq!(
        io_error(refused(NacRequest::Create, 7, "t")),
        (IoErrorKind::Other, "nac/create HTTP 7: t".to_string())
    );
    assert_eq!(
        io_error(refused(NacRequest::Sign, 65535, "t")),
        (IoErrorKind::Other, "nac sign HTTP 65535: t".to_string())
    );
    match session_created("/s".to_string(), Some(vec![9])) {
        (NacRun::InitializeUrl { sign_url, session_info_request }, NacAction::LookUpBag(key)) => {
            assert_eq!(sign_url, "/s");
            assert_eq!(session_info_request, vec![9]);
            assert_eq!(key, "id-initialize-validation");
        }
        _ => panic!("the run goes on"),
    }
    assert!(matches!(
        session_created("/s".to_string(), None),
        (NacRun::Finished, NacAction::Finish(Err(_)))
    ));
}

#[test]
fn body_comes_inline_or_from_the_file() {
    match mac(Some(vec![1, 2])).hw_config_source(None) {
        HwConfigSource::Inline(b) => assert_eq!(b, vec![1, 2]),
        HwConfigSource::DumbFile(_) => panic!("the body is at hand"),
    }
    for hw_config in [None, Some(vec![])] {
        match mac(hw_config.clone()).hw_config_source(None) {
            HwConfigSource::DumbFile(p) => assert_eq!(p, DEFAULT_DUMB_PATH),
            HwConfigSource::Inline(_) => panic!("there is no body"),
        }
        match mac(hw_config).hw_config_source(Some("/tmp/dumb".to_string())) {
            HwConfigSource::DumbFile(p) => assert_eq!(p, "/tmp/dumb"),
            HwConfigSource::Inline(_) => panic!("there is no body"),
        }
    }
}

#[test]
fn dumb_file_is_decoded_where_it_is_base64() {
    assert_eq!(body_of_dumb_file(b"T0FCUwA=".to_vec()), b"OABS\0".to_vec());
    assert_eq!(body_of_dumb_file(b" \n\tT0FCUwA=\r\n ".to_vec()), b"OABS\0".to_vec());
    assert_eq!(body_of_dumb_file("\u{a0}T0FCUwA=\u{3000}".as_bytes().to_vec()), b"OABS\0".to_vec());
    assert_eq!(body_of_dumb_file(b"OABS\0raw".to_vec()), b"OABS\0raw".to_vec());
    assert_eq!(body_of_dumb_file(vec![0xff, 0xfe]), vec![0xff, 0xfe]);
    // text without its padding is not taken
    assert_eq!(body_of_dumb_file(b"T0FCUwA".to_vec()), b"T0FCUwA".to_vec());
    // what encodes nothing stays as it is
    assert_eq!(body_of_dumb_file(b" \n".to_vec()), b" \n".to_vec());
    assert_eq!(body_of_dumb_file(vec![]), Vec::<u8>::new());
    assert_eq!(decoded_or_raw(Some(vec![1]), vec![2]), vec![1]);
    assert_eq!(decoded_or_raw(Some(vec![]), vec![2]), vec![2]);
    assert_eq!(decoded_or_raw(None, vec![2]), vec![2]);
}

#[test]
fn unreadable_dumb_file_is_reported() {
    match hw_config_from_file("/d", Ok(b"aGk=".to_vec())) {
        Ok(b) => assert_eq!(b, b"hi".to_vec()),
        Err(_) => panic!("the file is there"),
    }
    match hw_config_from_file("/d", Err("no such file".to_string())) {
        Ok(_) => panic!("the file is not there"),
        Err(e) => assert_eq!(
            io_error(e),
            (IoErrorKind::Other, "read dumb file /d: no such file".to_string())
        ),
    }
}
