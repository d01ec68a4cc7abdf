//! The session with the dispatch service as a state machine.
//!
//! A session is opened, authenticates itself, and from then on answers the
//! frames of the service one at a time. The driver owns the transport and
//! the backend connection. It tells the session what happened as an
//! [`Event`] and gets back a [`Reaction`]: at most one frame to send, and
//! what to wait for next. While the session waits for the backend it takes
//! no frame, so at most one inference is in flight.

use vstd::prelude::*;
use vstd::string::*;
use crate::clock::{now, Timestamp};
use crate::model::{
    admits,
    connect_of,
    connecting_step,
    disconnect_of,
    finish,
    inference_step,
    listing_step,
    route,
    settle,
    step_of,
    CauseView,
    EventView,
    NextView,
    PendingView,
    ReactionView,
    SessionView,
};
use crate::ollama::{
    chat_endpoint,
    chat_request,
    completion_view,
    listing_view,
    tags_endpoint,
    OllamaChatRequest,
    OllamaChatResponse,
    CHAT_TIMEOUT_SECS,
    LIST_TIMEOUT_SECS,
};
use crate::protocol::{ClientMessage, ServerMessage};
use crate::signature::compute_signature;
use crate::state::{copy_names, AppState, ConfigError, ConfigErrorView};
use crate::text::decimal;

verus! {

/// Where a session stands in its life.
#[derive(Clone, Copy, Debug, PartialEq, Eq, Structural)]
pub enum SessionState {
    Disconnected,
    Connecting,
    Authenticating,
    Active,
}

/// The backend work that a session waits for.
#[derive(Clone, Debug, PartialEq, Eq)]
pub enum Pending {
    Nothing,
    ModelListing,
    Inference { request_id: String },
}

/// Why a session ended.
#[derive(Clone, Debug, PartialEq, Eq)]
pub enum Cause {
    /// `disconnect` was called.
    Requested,
    /// The service sent an error frame.
    Remote { message: String },
    /// The transport failed or was closed.
    Transport,
    /// The session had ended before.
    Over,
}

/// What the driver reports to the session.
#[derive(Debug, PartialEq, Eq)]
pub enum Event {
    /// The transport is open.
    Opened,
    /// A text frame that decoded.
    Frame(ServerMessage),
    /// A text frame that is malformed or of a type that is not known.
    Undecodable,
    /// A frame that carries no text.
    Skipped,
    /// The peer closed the transport, or the stream of frames ended.
    Closed,
    /// The transport could not be opened, read or written.
    TransportFailed,
    /// The model listing that was asked for came to this.
    Models(Result<Vec<String>, String>),
    /// The chat completion that was asked for came to this.
    Completion(Result<OllamaChatResponse, String>),
}

/// What the driver does after an event.
#[derive(Clone, Debug, PartialEq, Eq)]
pub enum Next {
    /// Wait for the next frame or for a call of `disconnect`.
    Receive,
    /// List the models of the backend at `endpoint`, waiting no longer than
    /// `timeout_secs`, and report `Models`.
    ListModels { endpoint: String, timeout_secs: u64 },
    /// Post `request` to `endpoint`, waiting no longer than `timeout_secs`,
    /// and report `Completion`.
    Chat { endpoint: String, request: OllamaChatRequest, timeout_secs: u64 },
    /// Close the transport: the session is over.
    Stop(Cause),
    /// The event did not fit and was dropped: go on as before.
    Unchanged,
}

/// The session's answer to an event.
#[derive(Clone, Debug, PartialEq, Eq)]
pub struct Reaction {
    /// A frame to send before anything else, if any.
    pub outbound: Option<ClientMessage>,
    pub next: Next,
}

impl View for Pending {
    type V = PendingView;

    open spec fn view(&self) -> PendingView {
        match *self {
            Pending::Nothing => PendingView::Nothing,
            Pending::ModelListing => PendingView::ModelListing,
            Pending::Inference { request_id } => PendingView::Inference { request_id: request_id@ },
        }
    }
}

impl View for Cause {
    type V = CauseView;

    open spec fn view(&self) -> CauseView {
        match *self {
            Cause::Requested => CauseView::Requested,
            Cause::Remote { message } => CauseView::Remote { message: message@ },
            Cause::Transport => CauseView::Transport,
            Cause::Over => CauseView::Over,
        }
    }
}

impl View for Event {
    type V = EventView;

    open spec fn view(&self) -> EventView {
        match *self {
            Event::Opened => EventView::Opened,
            Event::Frame(message) => EventView::Frame(message@),
            Event::Undecodable => EventView::Undecodable,
            Event::Skipped => EventView::Skipped,
            Event::Closed => EventView::Closed,
            Event::TransportFailed => EventView::TransportFailed,
            Event::Models(listing) => EventView::Models(listing_view(listing)),
            Event::Completion(completion) => EventView::Completion(completion_view(completion)),
        }
    }
}

impl View for Next {
    type V = NextView;

    open spec fn view(&self) -> NextView {
        match *self {
            Next::Receive => NextView::Receive,
            Next::ListModels { endpoint, timeout_secs } => NextView::ListModels {
                endpoint: endpoint@,
                timeout_secs,
            },
            Next::Chat { endpoint, request, timeout_secs } => NextView::Chat {
                endpoint: endpoint@,
                request: request@,
                timeout_secs,
            },
            Next::Stop(cause) => NextView::Stop(cause@),
            Next::Unchanged => NextView::Unchanged,
        }
    }
}

impl View for Reaction {
    type V = ReactionView;

    open spec fn view(&self) -> ReactionView {
        ReactionView {
            outbound: match self.outbound {
                Some(message) => Some(message@),
                None => None,
            },
            next: self.next@,
        }
    }
}

/// One session with the dispatch service. It holds the secret from its
/// making until the authentication frame is built, and no longer.
pub struct Session {
    state: SessionState,
    pending: Pending,
    stop_requested: bool,
    client_id: String,
    api_secret: String,
    server_url: String,
    backend_url: String,
}

impl View for Session {
    type V = SessionView;

    closed spec fn view(&self) -> SessionView {
        SessionView {
            state: self.state,
            pending: self.pending@,
            stop_requested: self.stop_requested,
            client_id: self.client_id@,
            api_secret: self.api_secret@,
            server_url: self.server_url@,
            backend_url: self.backend_url@,
        }
    }
}

/// The view of what the credential store answered.
pub open spec fn lookup_view(lookup: Result<String, String>) -> Result<Seq<char>, Seq<char>> {
    match lookup {
        Ok(secret) => Ok(secret@),
        Err(cause) => Err(cause@),
    }
}

/// The view of what `connect` returned.
pub open spec fn connect_view(r: Result<Session, ConfigError>) -> Result<
    SessionView,
    ConfigErrorView,
> {
    match r {
        Ok(session) => Ok(session@),
        Err(e) => Err(e@),
    }
}

impl Session {
    /// A session for `client_id` with the service at `server_url` and the
    /// backend at `ollama_url`. Its transport is yet to be opened.
    pub fn new(server_url: &str, client_id: &str, api_secret: &str, ollama_url: &str) -> (s: Session)
        ensures
            s@ == SessionView::opening(server_url@, client_id@, api_secret@, ollama_url@),
            s@.wf(),
    {
        Session {
            state: SessionState::Connecting,
            pending: Pending::Nothing,
            stop_requested: false,
            client_id: String::from_str(client_id),
            api_secret: String::from_str(api_secret),
            server_url: String::from_str(server_url),
            backend_url: String::from_str(ollama_url),
        }
    }

    /// A session for the identity configured in `state`, with the secret
    /// that the credential store gave for it. Fails while the status says
    /// that a session is connected, where no identity is configured
    /// (whatever `lookup` holds), and where the lookup failed.
    pub fn connect(state: &AppState, lookup: Result<String, String>) -> (r: Result<
        Session,
        ConfigError,
    >)
        ensures
            connect_view(r) == connect_of(state@, lookup_view(lookup)),
            r matches Ok(session) ==> session@.wf(),
    {
        if state.connected {
            return Err(ConfigError::AlreadyConnected);
        }
        match &state.client_id {
            None => Err(ConfigError::NoIdentity),
            Some(client_id) => match lookup {
                Err(cause) => Err(ConfigError::CredentialLookup { cause }),
                Ok(secret) => Ok(
                    Session {
                        state: SessionState::Connecting,
                        pending: Pending::Nothing,
                        stop_requested: false,
                        client_id: client_id.clone(),
                        api_secret: secret,
                        server_url: state.dispatch_url(),
                        backend_url: state.backend_url(),
                    },
                ),
            },
        }
    }

    /// Where the session stands.
    pub fn state(&self) -> (state: SessionState)
        ensures
            state == self@.state,
    {
        self.state
    }

    /// Whether the session has ended.
    pub fn is_over(&self) -> (over: bool)
        ensures
            over == self@.over(),
    {
        match self.state {
            SessionState::Disconnected => true,
            _ => false,
        }
    }

    /// Whether the session takes the next frame.
    pub fn is_receiving(&self) -> (receiving: bool)
        ensures
            receiving == self@.receiving(),
    {
        let live = match self.state {
            SessionState::Authenticating => true,
            SessionState::Active => true,
            _ => false,
        };
        let idle = match &self.pending {
            Pending::Nothing => true,
            _ => false,
        };
        live && idle
    }

    /// The backend work that the session waits for.
    pub fn pending(&self) -> (pending: &Pending)
        ensures
            pending@ == self@.pending,
    {
        &self.pending
    }

    /// Whether the counters of `shared` have room for what `event` adds, as
    /// `step` and `step_at` ask.
    pub fn has_room(&self, shared: &AppState, event: &Event) -> (ok: bool)
        ensures
            ok == admits(self@, shared@, event@),
    {
        let request = match event {
            Event::Frame(ServerMessage::INFERENCE_REQUEST { .. }) => true,
            _ => false,
        };
        !(request && self.is_receiving()) || (shared.current_load < u32::MAX
            && shared.total_requests < u64::MAX)
    }

    /// The address at which the transport is opened.
    pub fn server_url(&self) -> (url: &str)
        ensures
            url@ == self@.server_url,
    {
        self.server_url.as_str()
    }

    /// The address of the model backend.
    pub fn backend_url(&self) -> (url: &str)
        ensures
            url@ == self@.backend_url,
    {
        self.backend_url.as_str()
    }

    fn end(&mut self, shared: &mut AppState, cause: Cause) -> (reaction: Reaction)
        ensures
            (final(self)@, final(shared)@, reaction@) == finish(old(shared)@, cause@),
    {
        self.state = SessionState::Disconnected;
        self.pending = Pending::Nothing;
        self.stop_requested = false;
        self.client_id = String::new();
        self.api_secret = String::new();
        self.server_url = String::new();
        self.backend_url = String::new();
        shared.connected = false;
        Reaction { outbound: None, next: Next::Stop(cause) }
    }

    fn settled(&mut self, shared: &mut AppState, outbound: Option<ClientMessage>) -> (reaction:
        Reaction)
        ensures
            (final(self)@, final(shared)@, reaction@) == settle(
                old(self)@,
                old(shared)@,
                match outbound {
                    Some(message) => Some(message@),
                    None => None,
                },
            ),
    {
        if self.stop_requested {
            let stopped = self.end(shared, Cause::Requested);
            Reaction { outbound, next: stopped.next }
        } else {
            self.pending = Pending::Nothing;
            Reaction { outbound, next: Next::Receive }
        }
    }

    fn connecting(&mut self, shared: &mut AppState, event: Event, now: Timestamp) -> (reaction:
        Reaction)
        ensures
            (final(self)@, final(shared)@, reaction@) == connecting_step(
                old(self)@,
                old(shared)@,
                event@,
                now,
            ),
    {
        match event {
            Event::Opened => {
                let timestamp = decimal(now.secs);
                let signature = compute_signature(
                    self.client_id.as_str(),
                    timestamp.as_str(),
                    self.api_secret.as_str(),
                );
                let auth = ClientMessage::AUTH {
                    client_id: self.client_id.clone(),
                    timestamp,
                    signature,
                };
                self.api_secret = String::new();
                self.state = SessionState::Authenticating;
                Reaction { outbound: Some(auth), next: Next::Receive }
            },
            Event::Closed => self.end(shared, Cause::Transport),
            Event::TransportFailed => self.end(shared, Cause::Transport),
            _ => Reaction { outbound: None, next: Next::Unchanged },
        }
    }

    fn route(&mut self, shared: &mut AppState, message: ServerMessage, now: Timestamp) -> (reaction:
        Reaction)
        requires
            message is INFERENCE_REQUEST ==> old(shared).current_load < u32::MAX && old(
                shared,
            ).total_requests < u64::MAX,
        ensures
            (final(self)@, final(shared)@, reaction@) == route(
                old(self)@,
                old(shared)@,
                message@,
                now,
            ),
    {
        match message {
            ServerMessage::AUTH_SUCCESS { operator_id, message } => {
                shared.operator_id = Some(operator_id);
                shared.connected = true;
                self.state = SessionState::Active;
                self.pending = Pending::ModelListing;
                Reaction {
                    outbound: None,
                    next: Next::ListModels {
                        endpoint: tags_endpoint(self.backend_url.as_str()),
                        timeout_secs: LIST_TIMEOUT_SECS,
                    },
                }
            },
            ServerMessage::ERROR { message } => self.end(shared, Cause::Remote { message }),
            ServerMessage::PING => {
                shared.last_heartbeat = Some(now);
                Reaction { outbound: Some(ClientMessage::PONG), next: Next::Receive }
            },
            ServerMessage::HEARTBEAT_ACK => Reaction { outbound: None, next: Next::Receive },
            ServerMessage::MODEL_LIST_ACK => Reaction { outbound: None, next: Next::Receive },
            ServerMessage::INFERENCE_REQUEST { request_id, payload } => {
                shared.current_load = shared.current_load + 1;
                shared.total_requests = shared.total_requests + 1;
                self.pending = Pending::Inference { request_id };
                let request = chat_request(payload.model.as_str(), payload.messages, false);
                Reaction {
                    outbound: None,
                    next: Next::Chat {
                        endpoint: chat_endpoint(self.backend_url.as_str()),
                        request,
                        timeout_secs: CHAT_TIMEOUT_SECS,
                    },
                }
            },
        }
    }

    fn listed(&mut self, shared: &mut AppState, listing: Result<Vec<String>, String>) -> (reaction:
        Reaction)
        ensures
            (final(self)@, final(shared)@, reaction@) == listing_step(
                old(self)@,
                old(shared)@,
                EventView::Models(listing_view(listing)),
            ),
    {
        match listing {
            Ok(models) => {
                let reported = copy_names(&models);
                shared.models = models;
                self.settled(shared, Some(ClientMessage::MODEL_LIST { models: reported }))
            },
            Err(_) => self.settled(shared, None),
        }
    }

    fn completed(
        &mut self,
        shared: &mut AppState,
        request_id: String,
        completion: Result<OllamaChatResponse, String>,
    ) -> (reaction: Reaction)
        ensures
            (final(self)@, final(shared)@, reaction@) == inference_step(
                old(self)@,
                old(shared)@,
                EventView::Completion(completion_view(completion)),
                request_id@,
            ),
    {
        let answer = match completion {
            Ok(result) => ClientMessage::INFERENCE_RESPONSE { request_id, result },
            Err(error) => ClientMessage::INFERENCE_ERROR { request_id, error },
        };
        shared.current_load = if shared.current_load > 0 {
            shared.current_load - 1
        } else {
            0
        };
        self.settled(shared, Some(answer))
    }

    /// Takes one event at the time `now` and says what to do about it.
    ///
    /// The counters of `shared` must have room where the event is an
    /// inference request that the session takes on.
    pub fn step_at(&mut self, shared: &mut AppState, event: Event, now: Timestamp) -> (reaction:
        Reaction)
        requires
            admits(old(self)@, old(shared)@, event@),
        ensures
            (final(self)@, final(shared)@, reaction@) == step_of(
                old(self)@,
                old(shared)@,
                event@,
                now,
            ),
            old(self)@.wf() ==> final(self)@.wf(),
    {
        match self.state {
            SessionState::Disconnected => Reaction { outbound: None, next: Next::Stop(Cause::Over) },
            SessionState::Connecting => self.connecting(shared, event, now),
            _ => {
                let mut pending = Pending::Nothing;
                core::mem::swap(&mut self.pending, &mut pending);
                match pending {
                    Pending::Nothing => match event {
                        Event::Frame(message) => self.route(shared, message, now),
                        Event::Closed => self.end(shared, Cause::Transport),
                        Event::TransportFailed => self.end(shared, Cause::Transport),
                        _ => Reaction { outbound: None, next: Next::Receive },
                    },
                    Pending::ModelListing => match event {
                        Event::Models(listing) => self.listed(shared, listing),
                        _ => {
                            self.pending = Pending::ModelListing;
                            Reaction { outbound: None, next: Next::Unchanged }
                        },
                    },
                    Pending::Inference { request_id } => match event {
                        Event::Completion(completion) => self.completed(
                            shared,
                            request_id,
                            completion,
                        ),
                        _ => {
                            self.pending = Pending::Inference { request_id };
                            Reaction { outbound: None, next: Next::Unchanged }
                        },
                    },
                }
            },
        }
    }

    /// Takes one event and says what to do about it: a step of `step_at`.
    /// The clock is read for the events whose time may be used, and the
    /// step is taken at the time it shows. For every other event the step
    /// is the same at every time, and the clock is left alone.
    pub fn step(&mut self, shared: &mut AppState, event: Event) -> (reaction: Reaction)
        requires
            admits(old(self)@, old(shared)@, event@),
        ensures
            exists|at: Timestamp|
                (final(self)@, final(shared)@, reaction@) == #[trigger] step_of(
                    old(self)@,
                    old(shared)@,
                    event@,
                    at,
                ),
            !event@.timed() ==> forall|at: Timestamp|
                (final(self)@, final(shared)@, reaction@) == #[trigger] step_of(
                    old(self)@,
                    old(shared)@,
                    event@,
                    at,
                ),
            old(self)@.wf() ==> final(self)@.wf(),
    {
        let timed = match &event {
            Event::Opened => true,
            Event::Frame(ServerMessage::PING) => true,
            _ => false,
        };
        let at = if timed {
            now()
        } else {
            Timestamp { secs: 0, nanos: 0 }
        };
        let reaction = self.step_at(shared, event, at);
        assert((self@, shared@, reaction@) == step_of(old(self)@, old(shared)@, event@, at));
        reaction
    }
}

/// Asks `session` to stop. A session that waits for a frame ends at once
/// and the status says disconnected; one that waits for the backend lets
/// that work finish, sends what came of it, and ends then. Of a session
/// that is over, the status says disconnected as well.
pub fn disconnect(session: &mut Session, shared: &mut AppState)
    ensures
        (final(session)@, final(shared)@) == disconnect_of(old(session)@, old(shared)@),
        old(session)@.wf() ==> final(session)@.wf(),
{
    if session.is_over() {
        shared.connected = false;
        return ;
    }
    let idle = match &session.pending {
        Pending::Nothing => true,
        _ => false,
    };
    if idle {
        let _ = session.end(shared, Cause::Requested);
    } else {
        session.stop_requested = true;
    }
}

} // verus!
