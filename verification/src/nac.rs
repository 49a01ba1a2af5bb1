//! The exchange that produces validation data: with Apple for the certificate
//! chain and the session info, with the NAC server for the session and its
//! signature. A [`NacRun`] decides what comes next; its owner does the I/O and
//! reports back.
//!
//! 1. Fetch Apple's validation certificate chain.
//! 2. POST the hardware-config body to `/nac/create`, with the chain in the
//!    `X-Absinthe-Cert-Chain` header.
//! 3. Decode the session-info-request that comes back.
//! 4. Send it to Apple's validation-initialize endpoint.
//! 5. POST the session info to the session's sign URL. The body of the answer
//!    is the validation data.
use crate::error::{IoErrorKind, PushError};
use crate::macos_remote::NAC_BASE_URL;
use crate::outside::{base64_decode, base64_decoded, base64_encode, base64_encoded, base64_fits};
use crate::text::{decimal, decimal_text};
use vstd::prelude::*;

verus! {

/// How long each network hop may take, in seconds.
pub const NET_TIMEOUT_SECS: u64 = 20;

/// A POST request with its headers, in order.
pub struct HttpPost {
    pub url: String,
    pub headers: Vec<(String, String)>,
    pub body: Vec<u8>,
    pub timeout_secs: u64,
}

/// What is to be done next.
pub enum NacAction {
    /// Look up a URL in Apple's IDS bag.
    LookUpBag(&'static str),
    /// GET the certificate chain; a property list holds it under `cert`.
    FetchCertChain { url: String, timeout_secs: u64 },
    /// Get the hardware-config body.
    LoadHardwareConfig,
    /// Send a request to the NAC server.
    Post(HttpPost),
    /// Read the body of the last answer as the description of a session.
    ReadSession,
    /// Read the body of the last answer as text.
    ReadErrorText,
    /// POST the request to Apple in a property list under
    /// `session-info-request`; the answer holds `session-info`.
    PostSessionInfoRequest { url: String, session_info_request: Vec<u8>, timeout_secs: u64 },
    /// Read the body of the last answer as bytes.
    ReadBody,
    /// The run is over.
    Finish(Result<Vec<u8>, PushError>),
}

/// What came of the last action.
pub enum NacEvent {
    /// The URL that the bag holds.
    BagUrl(String),
    /// The certificate chain.
    CertChain(Vec<u8>),
    /// The hardware-config body.
    HardwareConfig(Vec<u8>),
    /// Why there is no hardware-config body.
    NoHardwareConfig(PushError),
    /// The status code of the answer to a request.
    Status(u16),
    /// The session that `/nac/create` describes.
    Session { sign_url: String, request: String },
    /// The text of a refusal.
    ErrorText(String),
    /// Apple's session info.
    SessionInfo(Vec<u8>),
    /// The body of an answer.
    Body(Vec<u8>),
}

/// Which of the two requests to the NAC server was refused.
#[derive(Clone, Copy, PartialEq, Eq, Structural)]
pub enum NacRequest {
    Create,
    Sign,
}

/// A run of the exchange: what it waits for, and what it has to remember.
pub enum NacRun {
    CertUrl,
    CertChain,
    HardwareConfig { certs: Vec<u8> },
    CreateStatus,
    Session,
    InitializeUrl { sign_url: String, session_info_request: Vec<u8> },
    SessionInfo { sign_url: String },
    SignStatus,
    Signed,
    Refused { request: NacRequest, status: u16 },
    Finished,
}

/// A status code of success.
pub open spec fn success(status: u16) -> bool {
    200 <= status < 300
}

/// What a refused request is reported as.
pub open spec fn refusal(request: NacRequest, status: u16, text: Seq<char>) -> Seq<char> {
    (match request {
        NacRequest::Create => "nac/create HTTP "@,
        NacRequest::Sign => "nac sign HTTP "@,
    }) + decimal(status as nat) + ": "@ + text
}

impl HttpPost {
    /// The request that creates a session.
    pub open spec fn creates(&self, chain: Seq<char>, body: Vec<u8>) -> bool {
        &&& self.url@ == NAC_BASE_URL@ + "/nac/create"@
        &&& self.headers@.len() == 2
        &&& self.headers@[0].0@ == "X-Absinthe-Cert-Chain"@ && self.headers@[0].1@ == chain
        &&& self.headers@[1].0@ == "Content-Type"@ && self.headers@[1].1@
            == "application/octet-stream"@
        &&& self.body == body
        &&& self.timeout_secs == NET_TIMEOUT_SECS
    }

    /// The request that signs a session.
    pub open spec fn signs(&self, sign_url: Seq<char>, session_info: Vec<u8>) -> bool {
        &&& self.url@ == NAC_BASE_URL@ + sign_url
        &&& self.headers@.len() == 1
        &&& self.headers@[0].0@ == "Content-Type"@ && self.headers@[0].1@
            == "application/octet-stream"@
        &&& self.body == session_info
        &&& self.timeout_secs == NET_TIMEOUT_SECS
    }
}

impl NacRun {
    /// Whether the run waits for `event`. A certificate chain is only taken
    /// where its Base64 text fits in memory.
    pub open spec fn waits_for(&self, event: NacEvent) -> bool {
        match (self, event) {
            (NacRun::CertUrl, NacEvent::BagUrl(_)) => true,
            (NacRun::CertChain, NacEvent::CertChain(certs)) => base64_fits(certs@.len()),
            (NacRun::HardwareConfig { certs }, NacEvent::HardwareConfig(_)) => base64_fits(
                certs@.len(),
            ),
            (NacRun::HardwareConfig { .. }, NacEvent::NoHardwareConfig(_)) => true,
            (NacRun::CreateStatus, NacEvent::Status(_)) => true,
            (NacRun::Session, NacEvent::Session { .. }) => true,
            (NacRun::InitializeUrl { .. }, NacEvent::BagUrl(_)) => true,
            (NacRun::SessionInfo { .. }, NacEvent::SessionInfo(_)) => true,
            (NacRun::SignStatus, NacEvent::Status(_)) => true,
            (NacRun::Signed, NacEvent::Body(_)) => true,
            (NacRun::Refused { .. }, NacEvent::ErrorText(_)) => true,
            _ => false,
        }
    }

    /// What the run does when `event` arrives: the state behind it and the next
    /// action.
    pub open spec fn moves(&self, event: NacEvent, next: NacRun, action: NacAction) -> bool {
        match (self, event) {
            (NacRun::CertUrl, NacEvent::BagUrl(url)) => {
                &&& next is CertChain
                &&& action == NacAction::FetchCertChain { url, timeout_secs: NET_TIMEOUT_SECS }
            },
            (NacRun::CertChain, NacEvent::CertChain(certs)) => {
                &&& next == NacRun::HardwareConfig { certs }
                &&& action is LoadHardwareConfig
            },
            (NacRun::HardwareConfig { certs }, NacEvent::HardwareConfig(body)) => {
                &&& next is CreateStatus
                &&& action matches NacAction::Post(post) && post.creates(
                    base64_encoded(certs@),
                    body,
                ) && base64_decoded(post.headers@[0].1@) == Some(certs@)
            },
            (NacRun::HardwareConfig { .. }, NacEvent::NoHardwareConfig(e)) => {
                &&& next is Finished
                &&& action == NacAction::Finish(Err(e))
            },
            (NacRun::CreateStatus, NacEvent::Status(status)) => if success(status) {
                next is Session && action is ReadSession
            } else {
                next == (NacRun::Refused { request: NacRequest::Create, status })
                    && action is ReadErrorText
            },
            (NacRun::Session, NacEvent::Session { sign_url, request }) => created(
                sign_url,
                base64_decoded(request@),
                next,
                action,
            ),
            (NacRun::InitializeUrl { sign_url, session_info_request }, NacEvent::BagUrl(url)) => {
                &&& next == NacRun::SessionInfo { sign_url: *sign_url }
                &&& action == NacAction::PostSessionInfoRequest {
                    url,
                    session_info_request: *session_info_request,
                    timeout_secs: NET_TIMEOUT_SECS,
                }
            },
            (NacRun::SessionInfo { sign_url }, NacEvent::SessionInfo(info)) => {
                &&& next is SignStatus
                &&& action matches NacAction::Post(post) && post.signs(sign_url@, info)
            },
            (NacRun::SignStatus, NacEvent::Status(status)) => if success(status) {
                next is Signed && action is ReadBody
            } else {
                next == (NacRun::Refused { request: NacRequest::Sign, status })
                    && action is ReadErrorText
            },
            (NacRun::Signed, NacEvent::Body(data)) => {
                &&& next is Finished
                &&& action == NacAction::Finish(Ok(data))
            },
            (NacRun::Refused { request, status }, NacEvent::ErrorText(text)) => {
                &&& next is Finished
                &&& action matches NacAction::Finish(Err(e)) && e.is_io(
                    IoErrorKind::Other,
                    refusal(*request, *status, text@),
                )
            },
            _ => false,
        }
    }

    /// How many events a run can still take.
    pub open spec fn events_left(&self) -> nat {
        match self {
            NacRun::CertUrl => 9,
            NacRun::CertChain => 8,
            NacRun::HardwareConfig { .. } => 7,
            NacRun::CreateStatus => 6,
            NacRun::Session => 5,
            NacRun::InitializeUrl { .. } => 4,
            NacRun::SessionInfo { .. } => 3,
            NacRun::SignStatus => 2,
            NacRun::Signed => 1,
            NacRun::Refused { .. } => 1,
            NacRun::Finished => 0,
        }
    }
}

/// What follows the description of a session whose request decodes to
/// `decoded`.
pub open spec fn created(
    sign_url: String,
    decoded: Option<Seq<u8>>,
    next: NacRun,
    action: NacAction,
) -> bool {
    match decoded {
        Some(bytes) => {
            &&& next matches NacRun::InitializeUrl { sign_url: u, session_info_request: r }
            &&& u == sign_url && r@ == bytes
            &&& action matches NacAction::LookUpBag(key) && key@ == "id-initialize-validation"@
        },
        None => {
            &&& next is Finished
            &&& action matches NacAction::Finish(Err(e)) && e.is_io(
                IoErrorKind::InvalidData,
                "nac/create: the session-info-request is not base64"@,
            )
        },
    }
}

/// The header that names the type of the bodies that are sent.
fn octet_stream() -> (h: (String, String))
    ensures
        h.0@ == "Content-Type"@,
        h.1@ == "application/octet-stream"@,
{
    (String::from_str("Content-Type"), String::from_str("application/octet-stream"))
}

/// The request that creates a session, with the given text of the chain.
pub fn create_request(chain: String, body: Vec<u8>) -> (r: HttpPost)
    ensures
        r.creates(chain@, body),
        r.url@ == NAC_BASE_URL@ + "/nac/create"@,
        r.headers@.len() == 2,
        r.headers@[0].0@ == "X-Absinthe-Cert-Chain"@,
        r.headers@[0].1 == chain,
        r.headers@[1].0@ == "Content-Type"@,
        r.headers@[1].1@ == "application/octet-stream"@,
        r.body == body,
        r.timeout_secs == 20,
{
    let mut url = String::from_str(NAC_BASE_URL);
    url.append("/nac/create");
    let mut headers: Vec<(String, String)> = Vec::new();
    headers.push((String::from_str("X-Absinthe-Cert-Chain"), chain));
    headers.push(octet_stream());
    HttpPost { url, headers, body, timeout_secs: NET_TIMEOUT_SECS }
}

/// The request that signs a session.
pub fn sign_request(sign_url: &str, session_info: Vec<u8>) -> (r: HttpPost)
    ensures
        r.signs(sign_url@, session_info),
        r.url@ == NAC_BASE_URL@ + sign_url@,
        r.headers@.len() == 1,
        r.headers@[0].0@ == "Content-Type"@,
        r.headers@[0].1@ == "application/octet-stream"@,
        r.body == session_info,
        r.timeout_secs == 20,
{
    let mut url = String::from_str(NAC_BASE_URL);
    url.append(sign_url);
    let mut headers: Vec<(String, String)> = Vec::new();
    headers.push(octet_stream());
    HttpPost { url, headers, body: session_info, timeout_secs: NET_TIMEOUT_SECS }
}

/// The step behind the description of a session, given the bytes that its
/// request decodes to.
pub fn session_created(sign_url: String, decoded: Option<Vec<u8>>) -> (r: (NacRun, NacAction))
    ensures
        created(
            sign_url,
            match decoded {
                Some(d) => Some(d@),
                None => None,
            },
            r.0,
            r.1,
        ),
{
    match decoded {
        Some(session_info_request) => (
            NacRun::InitializeUrl { sign_url, session_info_request },
            NacAction::LookUpBag("id-initialize-validation"),
        ),
        None => (
            NacRun::Finished,
            NacAction::Finish(
                Err(
                    PushError::io(
                        IoErrorKind::InvalidData,
                        String::from_str("nac/create: the session-info-request is not base64"),
                    ),
                ),
            ),
        ),
    }
}

/// The report of a refused request.
pub fn refused(request: NacRequest, status: u16, text: &str) -> (e: PushError)
    ensures
        e.is_io(IoErrorKind::Other, refusal(request, status, text@)),
{
    let mut m = match request {
        NacRequest::Create => String::from_str("nac/create HTTP "),
        NacRequest::Sign => String::from_str("nac sign HTTP "),
    };
    m.append(decimal_text(status as u64).as_str());
    m.append(": ");
    m.append(text);
    PushError::io(IoErrorKind::Other, m)
}

impl NacRun {
    /// Starts a run: the first action asks the bag for the URL of the chain.
    pub fn start() -> (r: (NacRun, NacAction))
        ensures
            r.0 is CertUrl,
            r.1 matches NacAction::LookUpBag(key) && key@ == "id-validation-cert"@,
    {
        (NacRun::CertUrl, NacAction::LookUpBag("id-validation-cert"))
    }

    /// Whether the run waits for `event`.
    pub fn accepts(&self, event: &NacEvent) -> (r: bool)
        ensures
            r == self.waits_for(*event),
    {
        match (self, event) {
            (NacRun::CertUrl, NacEvent::BagUrl(_)) => true,
            (NacRun::CertChain, NacEvent::CertChain(certs)) => fits(certs.len()),
            (NacRun::HardwareConfig { certs }, NacEvent::HardwareConfig(_)) => fits(certs.len()),
            (NacRun::HardwareConfig { .. }, NacEvent::NoHardwareConfig(_)) => true,
            (NacRun::CreateStatus, NacEvent::Status(_)) => true,
            (NacRun::Session, NacEvent::Session { .. }) => true,
            (NacRun::InitializeUrl { .. }, NacEvent::BagUrl(_)) => true,
            (NacRun::SessionInfo { .. }, NacEvent::SessionInfo(_)) => true,
            (NacRun::SignStatus, NacEvent::Status(_)) => true,
            (NacRun::Signed, NacEvent::Body(_)) => true,
            (NacRun::Refused { .. }, NacEvent::ErrorText(_)) => true,
            _ => false,
        }
    }

    /// Takes an event that the run waits for.
    pub fn advance(self, event: NacEvent) -> (r: (NacRun, NacAction))
        requires
            self.waits_for(event),
        ensures
            self.moves(event, r.0, r.1),
            (self is HardwareConfig && event is HardwareConfig) ==> ({
                &&& r.1 matches NacAction::Post(post)
                &&& post.url@ == NAC_BASE_URL@ + "/nac/create"@
                &&& post.headers@.len() == 2
                &&& post.headers@[0].0@ == "X-Absinthe-Cert-Chain"@
                &&& base64_decoded(post.headers@[0].1@) == Some(self->certs@)
                &&& post.headers@[1].0@ == "Content-Type"@
                &&& post.headers@[1].1@ == "application/octet-stream"@
                &&& post.body@ == event->HardwareConfig_0@
                &&& post.timeout_secs == 20
            }),
            (self is SessionInfo && event is SessionInfo) ==> ({
                &&& r.1 matches NacAction::Post(post)
                &&& post.url@ == NAC_BASE_URL@ + self->SessionInfo_sign_url@
                &&& post.headers@.len() == 1
                &&& post.headers@[0].0@ == "Content-Type"@
                &&& post.headers@[0].1@ == "application/octet-stream"@
                &&& post.body@ == event->SessionInfo_0@
                &&& post.timeout_secs == 20
            }),
            (self is Signed && event is Body) ==> r.1 == NacAction::Finish(Ok(event->Body_0)),
    {
        match (self, event) {
            (NacRun::CertUrl, NacEvent::BagUrl(url)) => (
                NacRun::CertChain,
                NacAction::FetchCertChain { url, timeout_secs: NET_TIMEOUT_SECS },
            ),
            (NacRun::CertChain, NacEvent::CertChain(certs)) => (
                NacRun::HardwareConfig { certs },
                NacAction::LoadHardwareConfig,
            ),
            (NacRun::HardwareConfig { certs }, NacEvent::HardwareConfig(body)) => {
                let chain = base64_encode(certs.as_slice());
                (NacRun::CreateStatus, NacAction::Post(create_request(chain, body)))
            },
            (NacRun::HardwareConfig { .. }, NacEvent::NoHardwareConfig(e)) => (
                NacRun::Finished,
                NacAction::Finish(Err(e)),
            ),
            (NacRun::CreateStatus, NacEvent::Status(status)) => if 200 <= status && status < 300 {
                (NacRun::Session, NacAction::ReadSession)
            } else {
                (
                    NacRun::Refused { request: NacRequest::Create, status },
                    NacAction::ReadErrorText,
                )
            },
            (NacRun::Session, NacEvent::Session { sign_url, request }) => session_created(
                sign_url,
                base64_decode(request.as_str()),
            ),
            (NacRun::InitializeUrl { sign_url, session_info_request }, NacEvent::BagUrl(url)) => (
                NacRun::SessionInfo { sign_url },
                NacAction::PostSessionInfoRequest {
                    url,
                    session_info_request,
                    timeout_secs: NET_TIMEOUT_SECS,
                },
            ),
            (NacRun::SessionInfo { sign_url }, NacEvent::SessionInfo(info)) => (
                NacRun::SignStatus,
                NacAction::Post(sign_request(sign_url.as_str(), info)),
            ),
            (NacRun::SignStatus, NacEvent::Status(status)) => if 200 <= status && status < 300 {
                (NacRun::Signed, NacAction::ReadBody)
            } else {
                (NacRun::Refused { request: NacRequest::Sign, status }, NacAction::ReadErrorText)
            },
            (NacRun::Signed, NacEvent::Body(data)) => (
                NacRun::Finished,
                NacAction::Finish(Ok(data)),
            ),
            (NacRun::Refused { request, status }, NacEvent::ErrorText(text)) => (
                NacRun::Finished,
                NacAction::Finish(Err(refused(request, status, text.as_str()))),
            ),
            _ => vstd::pervasive::unreached(),
        }
    }
}

/// Whether the Base64 text of `len` bytes fits in memory.
fn fits(len: usize) -> (r: bool)
    ensures
        r == base64_fits(len as nat),
{
    len <= isize::MAX as usize / 4 * 3
}

} // verus!
