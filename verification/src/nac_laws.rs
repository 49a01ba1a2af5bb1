//! What holds of every run of the validation exchange.
use crate::error::{IoErrorKind, PushError};
use crate::nac::{refusal, success, NacAction, NacEvent, NacRequest, NacRun, NET_TIMEOUT_SECS};
use crate::outside::{base64_decoded, base64_encoded};
use vstd::prelude::*;

verus! {

/// A run from its start: the states that it goes through, the events that it
/// takes between them, and the action that follows each event.
pub open spec fn is_run(
    runs: Seq<NacRun>,
    events: Seq<NacEvent>,
    actions: Seq<NacAction>,
) -> bool {
    &&& runs.len() == events.len() + 1
    &&& actions.len() == events.len()
    &&& runs[0] is CertUrl
    &&& forall|i: int|
        0 <= i < events.len() ==> (#[trigger] runs[i]).moves(events[i], runs[i + 1], actions[i])
}

/// Every event brings a run closer to its end, and a run is over exactly when
/// its last action says so.
pub proof fn law_every_event_is_progress(
    run: NacRun,
    event: NacEvent,
    next: NacRun,
    action: NacAction,
)
    requires
        run.moves(event, next, action),
    ensures
        next.events_left() < run.events_left(),
        next is Finished <==> action is Finish,
{
}

/// Every network hop of a run is bounded in time.
pub proof fn law_every_hop_is_bounded(
    run: NacRun,
    event: NacEvent,
    next: NacRun,
    action: NacAction,
)
    requires
        run.moves(event, next, action),
    ensures
        match action {
            NacAction::FetchCertChain { timeout_secs, .. } => timeout_secs == NET_TIMEOUT_SECS
                == 20,
            NacAction::Post(post) => post.timeout_secs == NET_TIMEOUT_SECS == 20,
            NacAction::PostSessionInfoRequest { timeout_secs, .. } => timeout_secs
                == NET_TIMEOUT_SECS == 20,
            _ => true,
        },
{
}

/// A request that the NAC server refuses ends the run with an error that names
/// the request, the status and the text, and nothing more is sent.
pub proof fn law_refusal_ends_the_run(
    run: NacRun,
    status: u16,
    refused: NacRun,
    read: NacAction,
    text: String,
    next: NacRun,
    action: NacAction,
)
    requires
        run.moves(NacEvent::Status(status), refused, read),
        !success(status),
        refused.moves(NacEvent::ErrorText(text), next, action),
    ensures
        read is ReadErrorText,
        next is Finished,
        action matches NacAction::Finish(Err(e)) && e.is_io(
            IoErrorKind::Other,
            refusal(
                if run is CreateStatus {
                    NacRequest::Create
                } else {
                    NacRequest::Sign
                },
                status,
                text@,
            ),
        ),
{
}

/// As long as a run is neither refused nor over, it has taken one event for
/// each step of the exchange.
proof fn lemma_step_number(
    runs: Seq<NacRun>,
    events: Seq<NacEvent>,
    actions: Seq<NacAction>,
    i: int,
)
    requires
        is_run(runs, events, actions),
        0 <= i < runs.len(),
    ensures
        runs[i].events_left() + i <= 9,
        runs[i] !is Refused && runs[i] !is Finished ==> runs[i].events_left() + i == 9,
    decreases i,
{
    if i > 0 {
        lemma_step_number(runs, events, actions, i - 1);
        assert(runs[i - 1].moves(events[i - 1], runs[i - 1 + 1], actions[i - 1]));
    }
}

/// No run takes more than nine events.
pub proof fn law_runs_are_short(
    runs: Seq<NacRun>,
    events: Seq<NacEvent>,
    actions: Seq<NacAction>,
)
    requires
        is_run(runs, events, actions),
    ensures
        events.len() <= 9,
{
    lemma_step_number(runs, events, actions, events.len() as int);
}

/// A run without a hardware-config body ends at once with the reason for that,
/// and nothing was sent to the NAC server.
pub proof fn law_nothing_is_posted_without_a_body(
    runs: Seq<NacRun>,
    events: Seq<NacEvent>,
    actions: Seq<NacAction>,
    i: int,
    e: PushError,
)
    requires
        is_run(runs, events, actions),
        0 <= i < events.len(),
        events[i] == NacEvent::NoHardwareConfig(e),
    ensures
        i == events.len() - 1,
        actions[i] == NacAction::Finish(Err(e)),
        forall|j: int| 0 <= j < actions.len() ==> (#[trigger] actions[j]) !is Post,
{
    lemma_step_number(runs, events, actions, i);
    assert(runs[i].moves(events[i], runs[i + 1], actions[i]));
    assert(i == 2);
    if i + 1 < events.len() {
        assert(runs[i + 1].moves(events[i + 1], runs[i + 1 + 1], actions[i + 1]));
    }
    assert(runs[0].moves(events[0], runs[1], actions[0]));
    assert(runs[1].moves(events[1], runs[2], actions[1]));
    assert forall|j: int| 0 <= j < actions.len() implies (#[trigger] actions[j]) !is Post by {
        assert(j == 0 || j == 1 || j == 2);
    }
}

/// Validation data comes only from the whole exchange. The chain that Apple
/// gave goes into the header of `/nac/create`, with the hardware config as the
/// body; the request that the session describes goes to Apple; Apple's session
/// info goes to the session's sign URL; and the body of that answer, unchanged,
/// is the validation data.
pub proof fn law_validation_data_comes_from_the_whole_exchange(
    runs: Seq<NacRun>,
    events: Seq<NacEvent>,
    actions: Seq<NacAction>,
    data: Vec<u8>,
)
    requires
        is_run(runs, events, actions),
        events.len() > 0,
        actions.last() == NacAction::Finish(Ok(data)),
    ensures
        events.len() == 9,
        events[8] == NacEvent::Body(data),
        ({
            &&& events[1] matches NacEvent::CertChain(certs)
            &&& events[2] matches NacEvent::HardwareConfig(body)
            &&& actions[2] matches NacAction::Post(post)
            &&& post.creates(base64_encoded(certs@), body)
            &&& post.url@ == "https://hw.openbubbles.app"@ + "/nac/create"@
            &&& post.headers@.len() == 2
            &&& post.headers@[0].0@ == "X-Absinthe-Cert-Chain"@
            &&& post.headers@[0].1@ == base64_encoded(certs@)
            &&& base64_decoded(post.headers@[0].1@) == Some(certs@)
            &&& post.headers@[1].0@ == "Content-Type"@
            &&& post.headers@[1].1@ == "application/octet-stream"@
            &&& post.body@ == body@
        }),
        events[3] matches NacEvent::Status(status) && success(status) && 200 <= status <= 299,
        ({
            &&& events[4] matches NacEvent::Session { sign_url, request }
            &&& actions[5] matches NacAction::PostSessionInfoRequest { session_info_request, .. }
            &&& base64_decoded(request@) == Some(session_info_request@)
            &&& events[6] matches NacEvent::SessionInfo(info)
            &&& actions[6] matches NacAction::Post(post)
            &&& post.signs(sign_url@, info)
            &&& post.url@ == "https://hw.openbubbles.app"@ + sign_url@
            &&& post.headers@.len() == 1
            &&& post.headers@[0].0@ == "Content-Type"@
            &&& post.headers@[0].1@ == "application/octet-stream"@
            &&& post.body@ == info@
        }),
        events[7] matches NacEvent::Status(status) && success(status) && 200 <= status <= 299,
{
    let n = events.len() as int;
    lemma_step_number(runs, events, actions, n - 1);
    assert(runs[n - 1].moves(events[n - 1], runs[n - 1 + 1], actions[n - 1]));
    assert(runs[n - 1] is Signed);
    assert(n == 9);
    lemma_step_number(runs, events, actions, 7);
    assert(runs[7].moves(events[7], runs[8], actions[7]));
    assert(runs[7] is SignStatus);
    assert(runs[6].moves(events[6], runs[7], actions[6]));
    assert(runs[6] is SessionInfo);
    assert(runs[5].moves(events[5], runs[6], actions[5]));
    assert(runs[5] is InitializeUrl);
    assert(runs[4].moves(events[4], runs[5], actions[4]));
    assert(runs[4] is Session);
    assert(runs[3].moves(events[3], runs[4], actions[3]));
    assert(runs[3] is CreateStatus);
    assert(runs[2].moves(events[2], runs[3], actions[2]));
    assert(runs[2] is HardwareConfig);
    assert(runs[1].moves(events[1], runs[2], actions[1]));
}

} // verus!
