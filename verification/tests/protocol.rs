use pin_client::ollama::{ChatMessage, OllamaChatResponse};
use pin_client::protocol::{ClientMessage, InferencePayload, ServerMessage};

#[test]
fn inbound_frames_carry_their_type() {
    let payload = InferencePayload { model: "llama2".to_string(), messages: vec![], stream: false };
    assert_eq!(
        ServerMessage::AUTH_SUCCESS { operator_id: "op1".to_string(), message: "hi".to_string() }
            .tag(),
        "AUTH_SUCCESS"
    );
    assert_eq!(ServerMessage::ERROR { message: "no".to_string() }.tag(), "ERROR");
    assert_eq!(ServerMessage::PING.tag(), "PING");
    assert_eq!(ServerMessage::HEARTBEAT_ACK.tag(), "HEARTBEAT_ACK");
    assert_eq!(ServerMessage::MODEL_LIST_ACK.tag(), "MODEL_LIST_ACK");
    assert_eq!(
        ServerMessage::INFERENCE_REQUEST { request_id: "r1".to_string(), payload }.tag(),
        "INFERENCE_REQUEST"
    );
}

#[test]
fn outbound_frames_carry_their_type() {
    let result = OllamaChatResponse {
        model: "llama2".to_string(),
        message: ChatMessage { role: "assistant".to_string(), content: "hi".to_string() },
        done: true,
        total_duration: None,
        prompt_eval_count: None,
        eval_count: None,
    };
    assert_eq!(
        ClientMessage::AUTH {
            client_id: "c1".to_string(),
            timestamp: "1000".to_string(),
            signature: "00".to_string()
        }
        .tag(),
        "AUTH"
    );
    assert_eq!(ClientMessage::PONG.tag(), "PONG");
    assert_eq!(ClientMessage::MODEL_LIST { models: vec![] }.tag(), "MODEL_LIST");
    assert_eq!(
        ClientMessage::INFERENCE_RESPONSE { request_id: "r1".to_string(), result }.tag(),
        "INFERENCE_RESPONSE"
    );
    assert_eq!(
        ClientMessage::INFERENCE_ERROR { request_id: "r1".to_string(), error: "x".to_string() }
            .tag(),
        "INFERENCE_ERROR"
    );
}

#[test]
fn only_the_authentication_frame_must_arrive() {
    let auth = ClientMessage::AUTH {
        client_id: "c1".to_string(),
        timestamp: "1000".to_string(),
        signature: "00".to_string(),
    };
    assert!(auth.must_arrive());
    assert!(!ClientMessage::PONG.must_arrive());
    assert!(!ClientMessage::MODEL_LIST { models: vec!["llama2".to_string()] }.must_arrive());
    assert!(!ClientMessage::INFERENCE_ERROR {
        request_id: "r1".to_string(),
        error: "x".to_string()
    }
    .must_arrive());
}
