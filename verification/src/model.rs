//! The session as a mathematical model: what a session and the status are
//! made of, and what one event makes of them.

use vstd::prelude::*;
use crate::clock::Timestamp;
use crate::ollama::{
    chat_url,
    tags_url,
    OllamaChatRequestView,
    OllamaChatResponseView,
    CHAT_TIMEOUT_SECS,
    LIST_TIMEOUT_SECS,
};
use crate::protocol::{ClientMessageView, ServerMessageView};
use crate::session::SessionState;
use crate::signature::signature_of;
use crate::state::{AppStateView, ConfigErrorView};
use crate::text::decimal_digits;

verus! {

/// The backend work that a session waits for.
pub enum PendingView {
    Nothing,
    ModelListing,
    Inference { request_id: Seq<char> },
}

/// Why a session ended.
pub enum CauseView {
    Requested,
    Remote { message: Seq<char> },
    Transport,
    Over,
}

/// What the driver reports to the session.
pub enum EventView {
    Opened,
    Frame(ServerMessageView),
    Undecodable,
    Skipped,
    Closed,
    TransportFailed,
    Models(Result<Seq<Seq<char>>, Seq<char>>),
    Completion(Result<OllamaChatResponseView, Seq<char>>),
}

/// What the driver does after an event.
pub enum NextView {
    Receive,
    ListModels { endpoint: Seq<char>, timeout_secs: u64 },
    Chat { endpoint: Seq<char>, request: OllamaChatRequestView, timeout_secs: u64 },
    Stop(CauseView),
    Unchanged,
}

/// The session's answer to an event: at most one frame to send, and what
/// to do next.
pub struct ReactionView {
    pub outbound: Option<ClientMessageView>,
    pub next: NextView,
}

/// A session: where it stands, what it waits for, whether it was asked to
/// stop, and the identity and addresses it was made with.
pub struct SessionView {
    pub state: SessionState,
    pub pending: PendingView,
    pub stop_requested: bool,
    pub client_id: Seq<char>,
    pub api_secret: Seq<char>,
    pub server_url: Seq<char>,
    pub backend_url: Seq<char>,
}

impl EventView {
    /// The event is one whose time the session may use: the opening of the
    /// transport, which is stamped into the authentication frame, and a
    /// ping, which is recorded as the heartbeat.
    pub open spec fn timed(self) -> bool {
        self is Opened || self == EventView::Frame(ServerMessageView::PING)
    }
}

impl ReactionView {
    /// Nothing to send; wait for the next frame.
    pub open spec fn receive() -> ReactionView {
        ReactionView { outbound: None, next: NextView::Receive }
    }

    /// Nothing to send; the session is over.
    pub open spec fn stop(cause: CauseView) -> ReactionView {
        ReactionView { outbound: None, next: NextView::Stop(cause) }
    }

    /// The event was dropped.
    pub open spec fn unchanged() -> ReactionView {
        ReactionView { outbound: None, next: NextView::Unchanged }
    }
}

impl AppStateView {
    /// The status after a session has ended.
    pub open spec fn disconnected(self) -> AppStateView {
        AppStateView { connected: false, ..self }
    }

    /// The status after one unit of inference work is taken on.
    pub open spec fn charged(self) -> AppStateView {
        AppStateView {
            current_load: self.current_load + 1,
            total_requests: self.total_requests + 1,
            ..self
        }
    }

    /// The status after one unit of inference work is done: the load goes
    /// down by one and stops at zero.
    pub open spec fn released(self) -> AppStateView {
        AppStateView {
            current_load: if self.current_load > 0 {
                (self.current_load - 1) as nat
            } else {
                0
            },
            ..self
        }
    }
}

impl SessionView {
    /// A session that is about to open its transport.
    pub open spec fn opening(
        server_url: Seq<char>,
        client_id: Seq<char>,
        api_secret: Seq<char>,
        backend_url: Seq<char>,
    ) -> SessionView {
        SessionView {
            state: SessionState::Connecting,
            pending: PendingView::Nothing,
            stop_requested: false,
            client_id,
            api_secret,
            server_url,
            backend_url,
        }
    }

    /// Backend work is awaited only while the transport is open, and a stop
    /// is remembered only while backend work is awaited.
    pub open spec fn wf(self) -> bool {
        &&& (self.state is Disconnected || self.state is Connecting) ==> self.pending is Nothing
        &&& self.stop_requested ==> !(self.pending is Nothing)
    }

    /// The session has ended.
    pub open spec fn over(self) -> bool {
        self.state is Disconnected
    }

    /// The transport is open.
    pub open spec fn live(self) -> bool {
        self.state is Authenticating || self.state is Active
    }

    /// The session takes the next frame.
    pub open spec fn receiving(self) -> bool {
        self.live() && self.pending is Nothing
    }

    /// The session waits for a chat completion.
    pub open spec fn inferring(self) -> bool {
        self.live() && self.pending is Inference
    }

    /// A session after its end: nothing is awaited and nothing is kept.
    pub open spec fn ended() -> SessionView {
        SessionView {
            state: SessionState::Disconnected,
            pending: PendingView::Nothing,
            stop_requested: false,
            client_id: Seq::empty(),
            api_secret: Seq::empty(),
            server_url: Seq::empty(),
            backend_url: Seq::empty(),
        }
    }
}

/// The frame that authenticates `client_id` at the time `now`: the time in
/// whole seconds as a decimal number, and the signature over it.
pub open spec fn auth_frame(
    client_id: Seq<char>,
    now: Timestamp,
    api_secret: Seq<char>,
) -> ClientMessageView {
    ClientMessageView::AUTH {
        client_id,
        timestamp: decimal_digits(now.secs as nat),
        signature: signature_of(client_id, decimal_digits(now.secs as nat), api_secret),
    }
}

/// The end of a session: nothing is sent, the session forgets what it held,
/// and the status says disconnected.
pub open spec fn finish(a: AppStateView, cause: CauseView) -> (
    SessionView,
    AppStateView,
    ReactionView,
) {
    (SessionView::ended(), a.disconnected(), ReactionView::stop(cause))
}

/// What follows backend work: `outbound` is sent, and the session goes back
/// to receiving unless a stop was requested meanwhile, in which case it ends.
pub open spec fn settle(s: SessionView, a: AppStateView, outbound: Option<ClientMessageView>) -> (
    SessionView,
    AppStateView,
    ReactionView,
) {
    if s.stop_requested {
        (
            SessionView::ended(),
            a.disconnected(),
            ReactionView { outbound, next: NextView::Stop(CauseView::Requested) },
        )
    } else {
        (
            SessionView { pending: PendingView::Nothing, ..s },
            a,
            ReactionView { outbound, next: NextView::Receive },
        )
    }
}

/// A session that opens its transport: success sends the authentication
/// frame and forgets the secret, failure ends the session.
pub open spec fn connecting_step(s: SessionView, a: AppStateView, e: EventView, now: Timestamp) -> (
    SessionView,
    AppStateView,
    ReactionView,
) {
    match e {
        EventView::Opened => (
            SessionView { state: SessionState::Authenticating, api_secret: Seq::empty(), ..s },
            a,
            ReactionView {
                outbound: Some(auth_frame(s.client_id, now, s.api_secret)),
                next: NextView::Receive,
            },
        ),
        EventView::Closed | EventView::TransportFailed => finish(a, CauseView::Transport),
        _ => (s, a, ReactionView::unchanged()),
    }
}

/// The router: what one decoded frame does to session and status, and what
/// is answered.
pub open spec fn route(s: SessionView, a: AppStateView, m: ServerMessageView, now: Timestamp) -> (
    SessionView,
    AppStateView,
    ReactionView,
) {
    match m {
        ServerMessageView::AUTH_SUCCESS { operator_id, message } => (
            SessionView { state: SessionState::Active, pending: PendingView::ModelListing, ..s },
            AppStateView { operator_id: Some(operator_id), connected: true, ..a },
            ReactionView {
                outbound: None,
                next: NextView::ListModels {
                    endpoint: tags_url(s.backend_url),
                    timeout_secs: LIST_TIMEOUT_SECS,
                },
            },
        ),
        ServerMessageView::ERROR { message } => finish(a, CauseView::Remote { message }),
        ServerMessageView::PING => (
            s,
            AppStateView { last_heartbeat: Some(now), ..a },
            ReactionView { outbound: Some(ClientMessageView::PONG), next: NextView::Receive },
        ),
        ServerMessageView::HEARTBEAT_ACK | ServerMessageView::MODEL_LIST_ACK => (
            s,
            a,
            ReactionView::receive(),
        ),
        ServerMessageView::INFERENCE_REQUEST { request_id, payload } => (
            SessionView { pending: PendingView::Inference { request_id }, ..s },
            a.charged(),
            ReactionView {
                outbound: None,
                next: NextView::Chat {
                    endpoint: chat_url(s.backend_url),
                    request: OllamaChatRequestView {
                        model: payload.model,
                        messages: payload.messages,
                        stream: Some(false),
                        options: None,
                    },
                    timeout_secs: CHAT_TIMEOUT_SECS,
                },
            },
        ),
    }
}

/// A session that takes the next frame. What is no decodable frame is
/// dropped and the session goes on; a transport that fails or closes ends it.
pub open spec fn receiving_step(s: SessionView, a: AppStateView, e: EventView, now: Timestamp) -> (
    SessionView,
    AppStateView,
    ReactionView,
) {
    match e {
        EventView::Frame(m) => route(s, a, m, now),
        EventView::Closed | EventView::TransportFailed => finish(a, CauseView::Transport),
        _ => (s, a, ReactionView::receive()),
    }
}

/// A session that waits for the model listing: a listing is stored and
/// reported to the service, a failure is passed over in silence.
pub open spec fn listing_step(s: SessionView, a: AppStateView, e: EventView) -> (
    SessionView,
    AppStateView,
    ReactionView,
) {
    match e {
        EventView::Models(Ok(models)) => settle(
            s,
            AppStateView { models, ..a },
            Some(ClientMessageView::MODEL_LIST { models }),
        ),
        EventView::Models(Err(_)) => settle(s, a, None),
        _ => (s, a, ReactionView::unchanged()),
    }
}

/// A session that waits for the chat completion of `request_id`: the answer
/// or the failure is reported under that id, and the load is released.
pub open spec fn inference_step(
    s: SessionView,
    a: AppStateView,
    e: EventView,
    request_id: Seq<char>,
) -> (SessionView, AppStateView, ReactionView) {
    match e {
        EventView::Completion(Ok(result)) => settle(
            s,
            a.released(),
            Some(ClientMessageView::INFERENCE_RESPONSE { request_id, result }),
        ),
        EventView::Completion(Err(error)) => settle(
            s,
            a.released(),
            Some(ClientMessageView::INFERENCE_ERROR { request_id, error }),
        ),
        _ => (s, a, ReactionView::unchanged()),
    }
}

/// One step of the session: the session and the status after event `e` at
/// time `now`, and the reaction.
pub open spec fn step_of(s: SessionView, a: AppStateView, e: EventView, now: Timestamp) -> (
    SessionView,
    AppStateView,
    ReactionView,
) {
    match s.state {
        SessionState::Disconnected => (s, a, ReactionView::stop(CauseView::Over)),
        SessionState::Connecting => connecting_step(s, a, e, now),
        _ => match s.pending {
            PendingView::Nothing => receiving_step(s, a, e, now),
            PendingView::ModelListing => listing_step(s, a, e),
            PendingView::Inference { request_id } => inference_step(s, a, e, request_id),
        },
    }
}

/// A request to stop: a session that waits for a frame or for its transport
/// ends at once, one that waits for the backend remembers the request, and
/// one that is over stays as it is. Unless backend work is awaited, the
/// status says disconnected afterwards.
pub open spec fn disconnect_of(s: SessionView, a: AppStateView) -> (SessionView, AppStateView) {
    if s.over() {
        (s, a.disconnected())
    } else if s.pending is Nothing {
        (SessionView::ended(), a.disconnected())
    } else {
        (SessionView { stop_requested: true, ..s }, a)
    }
}

/// The step takes on an inference request.
pub open spec fn takes_request(s: SessionView, e: EventView) -> bool {
    s.receiving() && e matches EventView::Frame(ServerMessageView::INFERENCE_REQUEST { .. })
}

/// The counters of the status have room for what the step adds.
pub open spec fn admits(s: SessionView, a: AppStateView, e: EventView) -> bool {
    takes_request(s, e) ==> a.current_load < u32::MAX && a.total_requests < u64::MAX
}

/// What `connect` makes of the configured status and of the answer of the
/// credential store.
pub open spec fn connect_of(a: AppStateView, lookup: Result<Seq<char>, Seq<char>>) -> Result<
    SessionView,
    ConfigErrorView,
> {
    if a.connected {
        Err(ConfigErrorView::AlreadyConnected)
    } else {
        match (a.client_id, lookup) {
            (None, _) => Err(ConfigErrorView::NoIdentity),
            (Some(_), Err(cause)) => Err(ConfigErrorView::CredentialLookup { cause }),
            (Some(client_id), Ok(secret)) => Ok(
                SessionView::opening(a.dispatch_url(), client_id, secret, a.backend_url()),
            ),
        }
    }
}

} // verus!
