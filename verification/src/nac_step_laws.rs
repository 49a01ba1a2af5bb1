//! What a run of the validation exchange does with each event, part by part.
use crate::error::PushError;
use crate::nac::{
    create_request, refused, session_created, sign_request, HttpPost, NacAction, NacEvent,
    NacRequest, NacRun,
};
use crate::outside::{base64_decoded, base64_encoded};
use crate::text::decimal;
use vstd::prelude::*;

verus! {

/// A run starts by asking for the URL of Apple's certificate chain.
pub proof fn law_run_starts_with_the_chain(r: (NacRun, NacAction))
    requires
        call_ensures(NacRun::start, (), r),
    ensures
        r.0 is CertUrl,
        r.1 is LookUpBag,
        r.1->LookUpBag_0@ == "id-validation-cert"@,
{
}

/// The chain is fetched from the very URL that the bag gave, and then kept as
/// it is until the hardware config is there.
pub proof fn law_chain_is_fetched_and_kept(
    url: String,
    asked: (NacRun, NacAction),
    certs: Vec<u8>,
    fetched: (NacRun, NacAction),
)
    requires
        call_ensures(NacRun::advance, (NacRun::CertUrl, NacEvent::BagUrl(url)), asked),
        call_ensures(NacRun::advance, (NacRun::CertChain, NacEvent::CertChain(certs)), fetched),
    ensures
        asked.0 is CertChain,
        asked.1 is FetchCertChain,
        asked.1->FetchCertChain_url@ == url@,
        asked.1->FetchCertChain_timeout_secs == 20,
        fetched.0 is HardwareConfig,
        fetched.0->certs@ == certs@,
        fetched.1 is LoadHardwareConfig,
{
}

/// The session is asked for with the whole hardware-config body, whatever its
/// length, and with the whole chain in the header.
pub proof fn law_create_carries_the_whole_body(
    certs: Vec<u8>,
    body: Vec<u8>,
    r: (NacRun, NacAction),
)
    requires
        call_ensures(
            NacRun::advance,
            (NacRun::HardwareConfig { certs }, NacEvent::HardwareConfig(body)),
            r,
        ),
    ensures
        r.0 is CreateStatus,
        r.1 is Post,
        ({
            let post = r.1->Post_0;
            &&& post.url@ == "https://hw.openbubbles.app"@ + "/nac/create"@
            &&& post.headers@.len() == 2
            &&& post.headers@[0].0@ == "X-Absinthe-Cert-Chain"@
            &&& post.headers@[0].1@ == base64_encoded(certs@)
            &&& base64_decoded(post.headers@[0].1@) == Some(certs@)
            &&& post.headers@[1].0@ == "Content-Type"@
            &&& post.headers@[1].1@ == "application/octet-stream"@
            &&& post.body@ == body@
            &&& post.timeout_secs == 20
        }),
{
}

/// A run that gets no hardware config ends with the reason as it was given.
pub proof fn law_missing_body_ends_the_run(
    certs: Vec<u8>,
    e: PushError,
    r: (NacRun, NacAction),
)
    requires
        call_ensures(
            NacRun::advance,
            (NacRun::HardwareConfig { certs }, NacEvent::NoHardwareConfig(e)),
            r,
        ),
    ensures
        r.0 is Finished,
        r.1 == NacAction::Finish(Err(e)),
{
}

/// A status from 200 to 299 is a success, any other a refusal, of either
/// request to the NAC server.
pub proof fn law_status_decides(
    status: u16,
    create: (NacRun, NacAction),
    sign: (NacRun, NacAction),
)
    requires
        call_ensures(NacRun::advance, (NacRun::CreateStatus, NacEvent::Status(status)), create),
        call_ensures(NacRun::advance, (NacRun::SignStatus, NacEvent::Status(status)), sign),
    ensures
        200 <= status <= 299 ==> {
            &&& create.0 is Session && create.1 is ReadSession
            &&& sign.0 is Signed && sign.1 is ReadBody
        },
        status < 200 || status > 299 ==> {
            &&& create.0 is Refused && create.1 is ReadErrorText
            &&& create.0->request is Create && create.0->status == status
            &&& sign.0 is Refused && sign.1 is ReadErrorText
            &&& sign.0->request is Sign && sign.0->status == status
        },
{
}

/// A refusal is reported with its request, its status and the whole text of the
/// answer.
pub proof fn law_refusal_is_reported(
    request: NacRequest,
    status: u16,
    text: String,
    r: (NacRun, NacAction),
)
    requires
        call_ensures(
            NacRun::advance,
            (NacRun::Refused { request, status }, NacEvent::ErrorText(text)),
            r,
        ),
    ensures
        r.0 is Finished,
        ({
            &&& r.1 matches NacAction::Finish(Err(PushError::IoError(e)))
            &&& e.kind is Other
            &&& e.message@ == (if request is Create {
                "nac/create HTTP "@
            } else {
                "nac sign HTTP "@
            }) + decimal(status as nat) + ": "@ + text@
        }),
{
}

/// The request that a session describes is decoded whole, and its sign URL is
/// kept; a request that is not Base64 ends the run.
pub proof fn law_session_request_is_decoded(
    sign_url: String,
    request: String,
    r: (NacRun, NacAction),
)
    requires
        call_ensures(
            NacRun::advance,
            (NacRun::Session, NacEvent::Session { sign_url, request }),
            r,
        ),
    ensures
        match base64_decoded(request@) {
            Some(bytes) => {
                &&& r.0 is InitializeUrl
                &&& r.0->InitializeUrl_sign_url@ == sign_url@
                &&& r.0->session_info_request@ == bytes
                &&& r.1 is LookUpBag
                &&& r.1->LookUpBag_0@ == "id-initialize-validation"@
            },
            None => {
                &&& r.0 is Finished
                &&& r.1 matches NacAction::Finish(Err(PushError::IoError(e)))
                &&& e.kind is InvalidData
                &&& e.message@ == "nac/create: the session-info-request is not base64"@
            },
        },
{
}

/// Apple gets the session-info-request as it was decoded, at the URL that the
/// bag gave, and the sign URL is kept.
pub proof fn law_apple_gets_the_request(
    sign_url: String,
    session_info_request: Vec<u8>,
    url: String,
    r: (NacRun, NacAction),
)
    requires
        call_ensures(
            NacRun::advance,
            (NacRun::InitializeUrl { sign_url, session_info_request }, NacEvent::BagUrl(url)),
            r,
        ),
    ensures
        r.0 is SessionInfo,
        r.0->SessionInfo_sign_url@ == sign_url@,
        r.1 is PostSessionInfoRequest,
        r.1->PostSessionInfoRequest_url@ == url@,
        r.1->PostSessionInfoRequest_session_info_request@ == session_info_request@,
        r.1->PostSessionInfoRequest_timeout_secs == 20,
{
}

/// The session's sign URL gets Apple's session info, whole.
pub proof fn law_sign_carries_the_whole_session_info(
    sign_url: String,
    info: Vec<u8>,
    r: (NacRun, NacAction),
)
    requires
        call_ensures(
            NacRun::advance,
            (NacRun::SessionInfo { sign_url }, NacEvent::SessionInfo(info)),
            r,
        ),
    ensures
        r.0 is SignStatus,
        r.1 is Post,
        ({
            let post = r.1->Post_0;
            &&& post.url@ == "https://hw.openbubbles.app"@ + sign_url@
            &&& post.headers@.len() == 1
            &&& post.headers@[0].0@ == "Content-Type"@
            &&& post.headers@[0].1@ == "application/octet-stream"@
            &&& post.body@ == info@
            &&& post.timeout_secs == 20
        }),
{
}

/// The body of the signed answer is the validation data, unchanged.
pub proof fn law_signed_body_is_the_validation_data(data: Vec<u8>, r: (NacRun, NacAction))
    requires
        call_ensures(NacRun::advance, (NacRun::Signed, NacEvent::Body(data)), r),
    ensures
        r.0 is Finished,
        r.1 is Finish,
        r.1->Finish_0 is Ok,
        r.1->Finish_0->Ok_0@ == data@,
{
}

/// Which events a run takes: in each state the one kind that answers its last
/// action, whatever it carries. Only a chain whose Base64 text would not fit in
/// memory is not taken.
pub proof fn law_run_takes_every_answer(run: &NacRun, event: &NacEvent, r: bool)
    requires
        call_ensures(NacRun::accepts, (run, event), r),
    ensures
        r == run.waits_for(*event),
        r == match *run {
            NacRun::CertUrl => event is BagUrl,
            NacRun::CertChain => event is CertChain && (event->CertChain_0@.len() + 2) / 3 * 4
                <= isize::MAX,
            NacRun::HardwareConfig { certs } => event is NoHardwareConfig || event is HardwareConfig
                && (certs@.len() + 2) / 3 * 4 <= isize::MAX,
            NacRun::CreateStatus => event is Status,
            NacRun::Session => event is Session,
            NacRun::InitializeUrl { .. } => event is BagUrl,
            NacRun::SessionInfo { .. } => event is SessionInfo,
            NacRun::SignStatus => event is Status,
            NacRun::Signed => event is Body,
            NacRun::Refused { .. } => event is ErrorText,
            NacRun::Finished => false,
        },
{
}

/// The two requests to the NAC server are made of their parts as they are.
pub proof fn law_requests_hold_their_parts(
    chain: String,
    body: Vec<u8>,
    create: HttpPost,
    sign_url: &str,
    info: Vec<u8>,
    sign: HttpPost,
)
    requires
        call_ensures(create_request, (chain, body), create),
        call_ensures(sign_request, (sign_url, info), sign),
    ensures
        create.url@ == "https://hw.openbubbles.app"@ + "/nac/create"@,
        create.headers@.len() == 2,
        create.headers@[0].0@ == "X-Absinthe-Cert-Chain"@,
        create.headers@[0].1@ == chain@,
        create.headers@[1].0@ == "Content-Type"@,
        create.headers@[1].1@ == "application/octet-stream"@,
        create.body@ == body@,
        create.timeout_secs == 20,
        sign.url@ == "https://hw.openbubbles.app"@ + sign_url@,
        sign.headers@.len() == 1,
        sign.headers@[0].0@ == "Content-Type"@,
        sign.headers@[0].1@ == "application/octet-stream"@,
        sign.body@ == info@,
        sign.timeout_secs == 20,
{
}

/// What follows a session depends on its request only through the bytes that
/// it decodes to, which are kept whole.
pub proof fn law_decoded_request_is_kept(
    sign_url: String,
    decoded: Option<Vec<u8>>,
    r: (NacRun, NacAction),
)
    requires
        call_ensures(session_created, (sign_url, decoded), r),
    ensures
        match decoded {
            Some(bytes) => {
                &&& r.0 is InitializeUrl
                &&& r.0->InitializeUrl_sign_url@ == sign_url@
                &&& r.0->session_info_request@ == bytes@
                &&& r.1 is LookUpBag
                &&& r.1->LookUpBag_0@ == "id-initialize-validation"@
            },
            None => {
                &&& r.0 is Finished
                &&& r.1 matches NacAction::Finish(Err(PushError::IoError(e)))
                &&& e.kind is InvalidData
                &&& e.message@ == "nac/create: the session-info-request is not base64"@
            },
        },
{
}

/// The report of a refusal holds the whole text.
pub proof fn law_report_holds_the_whole_text(
    request: NacRequest,
    status: u16,
    text: &str,
    e: PushError,
)
    requires
        call_ensures(refused, (request, status, text), e),
    ensures
        ({
            &&& e matches PushError::IoError(io)
            &&& io.kind is Other
            &&& io.message@ == (if request is Create {
                "nac/create HTTP "@
            } else {
                "nac sign HTTP "@
            }) + decimal(status as nat) + ": "@ + text@
        }),
{
}

} // verus!
