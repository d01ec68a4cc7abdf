//! The frames of the session: what the service sends and what the client
//! answers. Each frame is a flat object told apart by its `type`.

use vstd::prelude::*;
use vstd::string::*;
use crate::ollama::{
    ChatMessage,
    ChatMessageView,
    OllamaChatResponse,
    OllamaChatResponseView,
};

verus! {

/// What an inference request asks of the backend.
#[derive(Clone, Debug, PartialEq, Eq)]
pub struct InferencePayload {
    pub model: String,
    pub messages: Vec<ChatMessage>,
    pub stream: bool,
}

/// A frame from the service.
#[allow(non_camel_case_types)]
#[derive(Clone, Debug, PartialEq, Eq)]
pub enum ServerMessage {
    AUTH_SUCCESS { operator_id: String, message: String },
    ERROR { message: String },
    PING,
    HEARTBEAT_ACK,
    MODEL_LIST_ACK,
    INFERENCE_REQUEST { request_id: String, payload: InferencePayload },
}

/// A frame to the service.
#[allow(non_camel_case_types)]
#[derive(Clone, Debug, PartialEq, Eq)]
pub enum ClientMessage {
    AUTH { client_id: String, timestamp: String, signature: String },
    PONG,
    MODEL_LIST { models: Vec<String> },
    INFERENCE_RESPONSE { request_id: String, result: OllamaChatResponse },
    INFERENCE_ERROR { request_id: String, error: String },
}

pub struct InferencePayloadView {
    pub model: Seq<char>,
    pub messages: Seq<ChatMessageView>,
    pub stream: bool,
}

#[allow(non_camel_case_types)]
pub enum ServerMessageView {
    AUTH_SUCCESS { operator_id: Seq<char>, message: Seq<char> },
    ERROR { message: Seq<char> },
    PING,
    HEARTBEAT_ACK,
    MODEL_LIST_ACK,
    INFERENCE_REQUEST { request_id: Seq<char>, payload: InferencePayloadView },
}

#[allow(non_camel_case_types)]
pub enum ClientMessageView {
    AUTH { client_id: Seq<char>, timestamp: Seq<char>, signature: Seq<char> },
    PONG,
    MODEL_LIST { models: Seq<Seq<char>> },
    INFERENCE_RESPONSE { request_id: Seq<char>, result: OllamaChatResponseView },
    INFERENCE_ERROR { request_id: Seq<char>, error: Seq<char> },
}

impl View for InferencePayload {
    type V = InferencePayloadView;

    open spec fn view(&self) -> InferencePayloadView {
        InferencePayloadView {
            model: self.model@,
            messages: self.messages.deep_view(),
            stream: self.stream,
        }
    }
}

impl View for ServerMessage {
    type V = ServerMessageView;

    open spec fn view(&self) -> ServerMessageView {
        match *self {
            ServerMessage::AUTH_SUCCESS { operator_id, message } => ServerMessageView::AUTH_SUCCESS {
                operator_id: operator_id@,
                message: message@,
            },
            ServerMessage::ERROR { message } => ServerMessageView::ERROR { message: message@ },
            ServerMessage::PING => ServerMessageView::PING,
            ServerMessage::HEARTBEAT_ACK => ServerMessageView::HEARTBEAT_ACK,
            ServerMessage::MODEL_LIST_ACK => ServerMessageView::MODEL_LIST_ACK,
            ServerMessage::INFERENCE_REQUEST {
                request_id,
                payload,
            } => ServerMessageView::INFERENCE_REQUEST { request_id: request_id@, payload: payload@ },
        }
    }
}

impl View for ClientMessage {
    type V = ClientMessageView;

    open spec fn view(&self) -> ClientMessageView {
        match *self {
            ClientMessage::AUTH { client_id, timestamp, signature } => ClientMessageView::AUTH {
                client_id: client_id@,
                timestamp: timestamp@,
                signature: signature@,
            },
            ClientMessage::PONG => ClientMessageView::PONG,
            ClientMessage::MODEL_LIST { models } => ClientMessageView::MODEL_LIST {
                models: models.deep_view(),
            },
            ClientMessage::INFERENCE_RESPONSE {
                request_id,
                result,
            } => ClientMessageView::INFERENCE_RESPONSE { request_id: request_id@, result: result@ },
            ClientMessage::INFERENCE_ERROR {
                request_id,
                error,
            } => ClientMessageView::INFERENCE_ERROR { request_id: request_id@, error: error@ },
        }
    }
}

impl ServerMessageView {
    /// The `type` that marks this frame on the wire.
    pub open spec fn tag(self) -> Seq<char> {
        match self {
            ServerMessageView::AUTH_SUCCESS { .. } => "AUTH_SUCCESS"@,
            ServerMessageView::ERROR { .. } => "ERROR"@,
            ServerMessageView::PING => "PING"@,
            ServerMessageView::HEARTBEAT_ACK => "HEARTBEAT_ACK"@,
            ServerMessageView::MODEL_LIST_ACK => "MODEL_LIST_ACK"@,
            ServerMessageView::INFERENCE_REQUEST { .. } => "INFERENCE_REQUEST"@,
        }
    }
}

impl ClientMessageView {
    /// Whether the session depends on this frame being sent: without its
    /// authentication frame a session cannot go on, every other frame is
    /// sent as well as the transport allows.
    pub open spec fn must_arrive(self) -> bool {
        self is AUTH
    }

    /// The `type` that marks this frame on the wire.
    pub open spec fn tag(self) -> Seq<char> {
        match self {
            ClientMessageView::AUTH { .. } => "AUTH"@,
            ClientMessageView::PONG => "PONG"@,
            ClientMessageView::MODEL_LIST { .. } => "MODEL_LIST"@,
            ClientMessageView::INFERENCE_RESPONSE { .. } => "INFERENCE_RESPONSE"@,
            ClientMessageView::INFERENCE_ERROR { .. } => "INFERENCE_ERROR"@,
        }
    }
}

impl ServerMessage {
    /// The `type` that marks this frame on the wire.
    pub fn tag(&self) -> (t: &'static str)
        ensures
            t@ == self@.tag(),
    {
        match self {
            ServerMessage::AUTH_SUCCESS { .. } => "AUTH_SUCCESS",
            ServerMessage::ERROR { .. } => "ERROR",
            ServerMessage::PING => "PING",
            ServerMessage::HEARTBEAT_ACK => "HEARTBEAT_ACK",
            ServerMessage::MODEL_LIST_ACK => "MODEL_LIST_ACK",
            ServerMessage::INFERENCE_REQUEST { .. } => "INFERENCE_REQUEST",
        }
    }
}

impl ClientMessage {
    /// Whether a failure to send this frame is a failure of the transport
    /// that the session has to hear of.
    pub fn must_arrive(&self) -> (must: bool)
        ensures
            must == self@.must_arrive(),
    {
        match self {
            ClientMessage::AUTH { .. } => true,
            _ => false,
        }
    }

    /// The `type` that marks this frame on the wire.
    pub fn tag(&self) -> (t: &'static str)
        ensures
            t@ == self@.tag(),
    {
        match self {
            ClientMessage::AUTH { .. } => "AUTH",
            ClientMessage::PONG => "PONG",
            ClientMessage::MODEL_LIST { .. } => "MODEL_LIST",
            ClientMessage::INFERENCE_RESPONSE { .. } => "INFERENCE_RESPONSE",
            ClientMessage::INFERENCE_ERROR { .. } => "INFERENCE_ERROR",
        }
    }
}

} // verus!
