//! What holds of a session along every run: the accounting of inference
//! work, the answer to a ping, the effect of authentication, of frames that
//! do not decode, of a request to stop, and of the end of a session.

use vstd::prelude::*;
use crate::clock::Timestamp;
use crate::protocol::{ClientMessageView, InferencePayloadView, ServerMessageView};
use crate::model::{
    disconnect_of,
    step_of,
    takes_request,
    CauseView,
    EventView,
    NextView,
    PendingView,
    ReactionView,
    SessionView,
};
use crate::ollama::OllamaChatResponseView;
use crate::state::AppStateView;

verus! {

/// What can happen to a session: an event at a time, or a request to stop.
pub enum Input {
    Event(EventView, Timestamp),
    Disconnect,
}

/// The session and the status after one input.
pub open spec fn apply(s: SessionView, a: AppStateView, input: Input) -> (SessionView, AppStateView) {
    match input {
        Input::Event(e, at) => (step_of(s, a, e, at).0, step_of(s, a, e, at).1),
        Input::Disconnect => disconnect_of(s, a),
    }
}

/// The session and the status after the inputs of `inputs`, in their order.
pub open spec fn run(s: SessionView, a: AppStateView, inputs: Seq<Input>) -> (
    SessionView,
    AppStateView,
)
    decreases inputs.len(),
{
    if inputs.len() == 0 {
        (s, a)
    } else {
        let before = run(s, a, inputs.drop_last());
        apply(before.0, before.1, inputs.last())
    }
}

/// Whether `input` is an inference request that session `s` takes on.
pub open spec fn is_taken(s: SessionView, input: Input) -> bool {
    input matches Input::Event(e, _) && takes_request(s, e)
}

/// How many inference requests the session takes on along `inputs`.
pub open spec fn requests_taken(s: SessionView, a: AppStateView, inputs: Seq<Input>) -> nat
    decreases inputs.len(),
{
    if inputs.len() == 0 {
        0
    } else {
        let before = run(s, a, inputs.drop_last());
        requests_taken(s, a, inputs.drop_last()) + if is_taken(before.0, inputs.last()) {
            1nat
        } else {
            0nat
        }
    }
}

/// The inference work that session `s` has in flight: one unit while it
/// waits for a chat completion, none otherwise.
pub open spec fn in_flight(s: SessionView) -> nat {
    if s.inferring() {
        1
    } else {
        0
    }
}

/// The frame that goes out on `input`, if any.
pub open spec fn sent(s: SessionView, a: AppStateView, input: Input) -> Option<ClientMessageView> {
    match input {
        Input::Event(e, at) => step_of(s, a, e, at).2.outbound,
        Input::Disconnect => None,
    }
}

/// The frame is the answer to an inference request: its result or its
/// failure.
pub open spec fn is_answer(frame: Option<ClientMessageView>) -> bool {
    frame matches Some(m) && (m is INFERENCE_RESPONSE || m is INFERENCE_ERROR)
}

/// How many answers to inference requests go out along `inputs`.
pub open spec fn answers_sent(s: SessionView, a: AppStateView, inputs: Seq<Input>) -> nat
    decreases inputs.len(),
{
    if inputs.len() == 0 {
        0
    } else {
        let before = run(s, a, inputs.drop_last());
        answers_sent(s, a, inputs.drop_last()) + if is_answer(
            sent(before.0, before.1, inputs.last()),
        ) {
            1nat
        } else {
            0nat
        }
    }
}

/// The load of the status is the work that the session has in flight.
pub open spec fn balanced(s: SessionView, a: AppStateView) -> bool {
    s.wf() && a.current_load == in_flight(s)
}

/// The status says connected only while the transport of the session is
/// open.
pub open spec fn attached(s: SessionView, a: AppStateView) -> bool {
    s.wf() && (a.connected ==> s.live())
}

/// Every input keeps a session well formed.
pub proof fn lemma_wf_is_kept(s: SessionView, a: AppStateView, input: Input)
    requires
        s.wf(),
    ensures
        apply(s, a, input).0.wf(),
{
}

/// Every input keeps the load balanced, and the request counter goes up by
/// one exactly when an inference request is taken on.
pub proof fn lemma_apply_accounts(s: SessionView, a: AppStateView, input: Input)
    requires
        balanced(s, a),
    ensures
        balanced(apply(s, a, input).0, apply(s, a, input).1),
        apply(s, a, input).1.total_requests == a.total_requests + if is_taken(s, input) {
            1nat
        } else {
            0nat
        },
{
}

/// Along every run that starts balanced, whatever is interleaved with the
/// inference requests: the request counter has gone up by the number of
/// requests taken on, the load is the work in flight (so it never falls
/// below zero and never exceeds one), and it is zero whenever no chat
/// completion is awaited. A run from a new session on a status without load
/// starts balanced, and so does every run that continues a balanced one.
pub proof fn lemma_load_accounting(s: SessionView, a: AppStateView, inputs: Seq<Input>)
    requires
        balanced(s, a),
    ensures
        balanced(run(s, a, inputs).0, run(s, a, inputs).1),
        run(s, a, inputs).1.total_requests == a.total_requests + requests_taken(s, a, inputs),
        run(s, a, inputs).1.total_requests >= a.total_requests,
        run(s, a, inputs).1.current_load == in_flight(run(s, a, inputs).0),
        !run(s, a, inputs).0.inferring() ==> run(s, a, inputs).1.current_load == 0,
    decreases inputs.len(),
{
    if inputs.len() > 0 {
        lemma_load_accounting(s, a, inputs.drop_last());
        let before = run(s, a, inputs.drop_last());
        lemma_apply_accounts(before.0, before.1, inputs.last());
    }
}

/// Along every run of a well-formed session, every inference request that
/// was taken on has been answered, but for the one that may be in flight:
/// requests taken on and work in flight at the start make up the answers
/// sent and the work in flight at the end.
pub proof fn lemma_answers_accounting(s: SessionView, a: AppStateView, inputs: Seq<Input>)
    requires
        s.wf(),
    ensures
        run(s, a, inputs).0.wf(),
        requests_taken(s, a, inputs) + in_flight(s) == answers_sent(s, a, inputs) + in_flight(
            run(s, a, inputs).0,
        ),
    decreases inputs.len(),
{
    if inputs.len() > 0 {
        lemma_answers_accounting(s, a, inputs.drop_last());
        let before = run(s, a, inputs.drop_last());
        lemma_wf_is_kept(before.0, before.1, inputs.last());
    }
}

/// A session that takes frames answers a ping with exactly one pong and
/// records the time of the ping as the last heartbeat; nothing else changes.
/// Unless the clock has gone backwards since the heartbeat before, the new
/// one is not earlier than that.
pub proof fn lemma_ping(s: SessionView, a: AppStateView, at: Timestamp)
    requires
        s.receiving(),
    ensures
        step_of(s, a, EventView::Frame(ServerMessageView::PING), at) == (
            s,
            AppStateView { last_heartbeat: Some(at), ..a },
            ReactionView { outbound: Some(ClientMessageView::PONG), next: NextView::Receive },
        ),
        a.last_heartbeat matches Some(before) ==> (before.not_after(at) ==> before.not_after(
            step_of(s, a, EventView::Frame(ServerMessageView::PING), at).1.last_heartbeat->Some_0,
        )),
{
}

/// A session that takes frames is active after the service has accepted it:
/// the status says connected and names the operator. When the model listing
/// that follows has come back, whatever it came to, an error frame ends the
/// session and the status says disconnected.
pub proof fn lemma_accepted_then_refused(
    s: SessionView,
    a: AppStateView,
    operator_id: Seq<char>,
    welcome: Seq<char>,
    listing: Result<Seq<Seq<char>>, Seq<char>>,
    complaint: Seq<char>,
    at: Timestamp,
)
    requires
        s.wf(),
        s.receiving(),
    ensures
        ({
            let accepted = step_of(
                s,
                a,
                EventView::Frame(ServerMessageView::AUTH_SUCCESS { operator_id, message: welcome }),
                at,
            );
            let listed = step_of(accepted.0, accepted.1, EventView::Models(listing), at);
            let refused = step_of(
                listed.0,
                listed.1,
                EventView::Frame(ServerMessageView::ERROR { message: complaint }),
                at,
            );
            &&& accepted.0.state is Active
            &&& accepted.1.connected
            &&& accepted.1.operator_id == Some(operator_id)
            &&& listed.0.receiving()
            &&& listed.1.connected
            &&& listed.1.operator_id == Some(operator_id)
            &&& refused.0.over()
            &&& !refused.1.connected
            &&& refused.2 == ReactionView::stop(CauseView::Remote { message: complaint })
        }),
{
}

/// A frame that does not decode, or that carries no text, changes nothing:
/// the session stays as it is (an active one stays active), the status and
/// its counters stay as they are, nothing is sent, and the next frame is
/// awaited.
pub proof fn lemma_undecodable_is_dropped(s: SessionView, a: AppStateView, at: Timestamp)
    requires
        s.receiving(),
    ensures
        step_of(s, a, EventView::Undecodable, at) == (s, a, ReactionView::receive()),
        step_of(s, a, EventView::Skipped, at) == (s, a, ReactionView::receive()),
{
}

/// The event that session `s` waits for from the backend.
pub open spec fn awaited(s: SessionView, e: EventView) -> bool {
    ||| s.pending is ModelListing && e is Models
    ||| s.pending is Inference && e is Completion
}

/// A request to stop ends the session, at whatever point it comes. A
/// session that is not waiting for the backend is over at once. One that is
/// waiting stays as it was but for the request, drops every event except the
/// one it waits for, and is over as soon as that one has come, whatever it
/// holds. Once the session is over the status says disconnected.
pub proof fn lemma_disconnect_ends(s: SessionView, a: AppStateView)
    requires
        s.wf(),
    ensures
        ({
            let asked = disconnect_of(s, a);
            &&& asked.0.wf()
            &&& attached(s, a) ==> attached(asked.0, asked.1)
            &&& asked.0.over() ==> !asked.1.connected
            &&& (s.over() || s.pending is Nothing) ==> asked.0.over()
            &&& !asked.0.over() ==> {
                &&& asked.0 == SessionView { stop_requested: true, ..s }
                &&& asked.1 == a
                &&& forall|e: EventView, at: Timestamp|
                    {
                        let after = #[trigger] step_of(asked.0, asked.1, e, at);
                        if awaited(asked.0, e) {
                            after.0.over() && !after.1.connected && after.2.next == NextView::Stop(
                                CauseView::Requested,
                            )
                        } else {
                            after == (asked.0, asked.1, ReactionView::unchanged())
                        }
                    }
            }
        }),
{
}

/// Every input keeps the status attached to the session: along every run
/// that starts attached, the status says connected only while the transport
/// is open, and says disconnected once the session is over.
pub proof fn lemma_connected_means_live(s: SessionView, a: AppStateView, inputs: Seq<Input>)
    requires
        attached(s, a),
    ensures
        attached(run(s, a, inputs).0, run(s, a, inputs).1),
        run(s, a, inputs).0.over() ==> !run(s, a, inputs).1.connected,
    decreases inputs.len(),
{
    if inputs.len() > 0 {
        lemma_connected_means_live(s, a, inputs.drop_last());
    }
}

/// A session that is over stays over: every event is answered with a stop,
/// nothing is sent, and neither the session nor the status changes. A
/// request to stop leaves the session as it is and the status saying
/// disconnected.
pub proof fn lemma_over_is_final(s: SessionView, a: AppStateView, e: EventView, at: Timestamp)
    requires
        s.over(),
    ensures
        step_of(s, a, e, at) == (s, a, ReactionView::stop(CauseView::Over)),
        disconnect_of(s, a) == (s, a.disconnected()),
        !disconnect_of(s, a).1.connected,
{
}

/// Only the opening of the transport and a ping are stamped with a time:
/// the step of every other event is the same at every time.
pub proof fn lemma_untimed_step(
    s: SessionView,
    a: AppStateView,
    e: EventView,
    at: Timestamp,
    other: Timestamp,
)
    requires
        !e.timed(),
    ensures
        step_of(s, a, e, at) == step_of(s, a, e, other),
{
}

/// An inference request that the session takes on is answered under its own
/// id. Taking it on sends nothing and asks for one chat completion that is
/// not streamed; when that has come, exactly one frame goes out, the answer
/// or the failure, with the id of the request; the load is back where it
/// was and the request counter is up by one.
pub proof fn lemma_request_is_answered(
    s: SessionView,
    a: AppStateView,
    request_id: Seq<char>,
    payload: InferencePayloadView,
    completion: Result<OllamaChatResponseView, Seq<char>>,
    at: Timestamp,
)
    requires
        s.wf(),
        s.receiving(),
    ensures
        ({
            let taken = step_of(
                s,
                a,
                EventView::Frame(ServerMessageView::INFERENCE_REQUEST { request_id, payload }),
                at,
            );
            let done = step_of(taken.0, taken.1, EventView::Completion(completion), at);
            &&& taken.2.outbound is None
            &&& taken.2.next matches NextView::Chat { request, .. } && request.model
                == payload.model && request.messages == payload.messages && request.stream
                == Some(false)
            &&& taken.0.pending == (PendingView::Inference { request_id })
            &&& taken.1 == a.charged()
            &&& done.2.outbound == Some(
                match completion {
                    Ok(result) => ClientMessageView::INFERENCE_RESPONSE { request_id, result },
                    Err(error) => ClientMessageView::INFERENCE_ERROR { request_id, error },
                },
            )
            &&& done.1.current_load == a.current_load
            &&& done.1.total_requests == a.total_requests + 1
            &&& done.1.connected == a.connected
            &&& done.0.state == s.state
            &&& done.0.receiving()
        }),
{
}

/// A transport that closes or fails ends a session that takes frames or
/// opens its transport: the status says disconnected and nothing is sent.
pub proof fn lemma_transport_loss_ends(s: SessionView, a: AppStateView, at: Timestamp)
    requires
        s.receiving() || s.state is Connecting,
    ensures
        step_of(s, a, EventView::Closed, at) == (
            SessionView::ended(),
            a.disconnected(),
            ReactionView::stop(CauseView::Transport),
        ),
        step_of(s, a, EventView::TransportFailed, at) == step_of(s, a, EventView::Closed, at),
        SessionView::ended().over(),
        !a.disconnected().connected,
{
}

} // verus!
