use pin_client::ollama::{
    chat_endpoint, chat_request, chat_result, estimate_tokens, is_success, model_names,
    models_result, tags_endpoint, ChatMessage, HttpReply, OllamaChatRequest, OllamaChatResponse,
    OllamaModel, OllamaModelsResponse, CHAT_TIMEOUT_SECS, LIST_TIMEOUT_SECS,
};

fn by_floats(len: usize) -> u32 {
    (len as f32 / 4.0).ceil() as u32
}

fn model(name: &str) -> OllamaModel {
    OllamaModel { name: name.to_string(), modified_at: None, size: None }
}

fn reply_text(content: &str) -> OllamaChatResponse {
    OllamaChatResponse {
        model: "llama2".to_string(),
        message: ChatMessage { role: "assistant".to_string(), content: content.to_string() },
        done: true,
        total_duration: Some(12),
        prompt_eval_count: None,
        eval_count: Some(3),
    }
}

#[test]
fn estimate_of_short_texts() {
    assert_eq!(estimate_tokens(""), 0);
    assert_eq!(estimate_tokens("a"), 1);
    assert_eq!(estimate_tokens("abc"), 1);
    assert_eq!(estimate_tokens("abcd"), 1);
    assert_eq!(estimate_tokens("abcde"), 2);
    assert_eq!(estimate_tokens("hello world"), 3);
}

#[test]
fn estimate_counts_bytes_not_characters() {
    assert_eq!("é".len(), 2);
    assert_eq!(estimate_tokens("ééé"), 2);
    assert_eq!(estimate_tokens("✓✓✓"), 3);
}

#[test]
fn estimate_agrees_with_single_precision_on_short_texts() {
    for len in 0..2000usize {
        let text = "x".repeat(len);
        assert_eq!(estimate_tokens(&text), by_floats(len));
        assert_eq!(estimate_tokens(&text) as usize, (len + 3) / 4);
    }
}

#[test]
fn estimate_rounds_long_texts_as_single_precision_does() {
    // From 2^24 on not every length has a single-precision value of its own.
    let base: usize = 1 << 24;
    let mut text = "x".repeat(base - 2);
    for len in (base - 2)..(base + 12) {
        assert_eq!(text.len(), len);
        assert_eq!(estimate_tokens(&text), by_floats(len));
        text.push('x');
    }
    assert_eq!(estimate_tokens(&"x".repeat(base + 1)), 4194304);
    assert_eq!(estimate_tokens(&"x".repeat(base + 3)), 4194305);
}

#[test]
fn estimate_rounds_at_wider_spacing() {
    let base: usize = 1 << 25;
    let mut text = "x".repeat(base - 3);
    for len in (base - 3)..(base + 14) {
        assert_eq!(text.len(), len);
        assert_eq!(estimate_tokens(&text), by_floats(len));
        text.push('x');
    }
    assert_eq!(estimate_tokens(&"x".repeat(base + 2)), 8388608);
    assert_eq!(estimate_tokens(&"x".repeat(base + 6)), 8388610);
}

#[test]
fn estimate_rounds_halfway_lengths_to_the_even_neighbour() {
    let base: usize = 1 << 26;
    for (extra, expected) in [(0usize, 16777216u32), (4, 16777216), (5, 16777218), (12, 16777220)] {
        let text = "x".repeat(base + extra);
        assert_eq!(estimate_tokens(&text), expected);
        assert_eq!(estimate_tokens(&text), by_floats(base + extra));
    }
}

#[test]
fn success_is_two_hundred_to_two_ninety_nine() {
    assert!(!is_success(0));
    assert!(!is_success(199));
    assert!(is_success(200));
    assert!(is_success(204));
    assert!(is_success(299));
    assert!(!is_success(300));
    assert!(!is_success(404));
    assert!(!is_success(500));
    assert!(!is_success(u16::MAX));
}

#[test]
fn timeouts_are_ten_and_a_hundred_and_twenty_seconds() {
    assert_eq!(LIST_TIMEOUT_SECS, 10);
    assert_eq!(CHAT_TIMEOUT_SECS, 120);
}

#[test]
fn endpoints_follow_the_base_address() {
    assert_eq!(tags_endpoint("http://localhost:11434"), "http://localhost:11434/api/tags");
    assert_eq!(chat_endpoint("http://localhost:11434"), "http://localhost:11434/api/chat");
}

#[test]
fn endpoints_ignore_trailing_slashes() {
    assert_eq!(tags_endpoint("http://localhost:11434/"), "http://localhost:11434/api/tags");
    assert_eq!(tags_endpoint("http://localhost:11434///"), "http://localhost:11434/api/tags");
    assert_eq!(chat_endpoint("http://host/base/"), "http://host/base/api/chat");
    assert_eq!(tags_endpoint(""), "/api/tags");
    assert_eq!(chat_endpoint("/"), "/api/chat");
}

#[test]
fn names_come_in_the_order_of_the_listing() {
    let listing = OllamaModelsResponse {
        models: vec![
            model("llama2"),
            OllamaModel {
                name: "mistral".to_string(),
                modified_at: Some("2024-01-01T00:00:00Z".to_string()),
                size: Some(4_109_865_159),
            },
            model("llama2"),
        ],
    };
    assert_eq!(model_names(&listing), vec!["llama2", "mistral", "llama2"]);
    assert_eq!(model_names(&OllamaModelsResponse { models: vec![] }), Vec::<String>::new());
}

#[test]
fn chat_request_carries_model_messages_and_flag() {
    let messages = vec![
        ChatMessage { role: "system".to_string(), content: "be brief".to_string() },
        ChatMessage { role: "user".to_string(), content: "hi".to_string() },
    ];
    let request = chat_request("llama2", messages.clone(), false);
    assert_eq!(
        request,
        OllamaChatRequest {
            model: "llama2".to_string(),
            messages: messages.clone(),
            stream: Some(false),
            options: None,
        }
    );
    let streamed = chat_request("mistral", vec![], true);
    assert_eq!(streamed.stream, Some(true));
    assert_eq!(streamed.model, "mistral");
    assert!(streamed.messages.is_empty());
    assert!(streamed.options.is_none());
}

#[test]
fn listing_result_of_a_decoded_reply() {
    let reply = HttpReply::Decoded(OllamaModelsResponse { models: vec![model("llama2"), model("mistral")] });
    assert_eq!(models_result(reply), Ok(vec!["llama2".to_string(), "mistral".to_string()]));
}

#[test]
fn listing_result_of_each_failure() {
    assert_eq!(
        models_result(HttpReply::Unreachable { cause: "connection refused".to_string() }),
        Err("Failed to connect to Ollama: connection refused".to_string())
    );
    assert_eq!(
        models_result(HttpReply::Rejected {
            status: "404 Not Found".to_string(),
            body: "ignored".to_string()
        }),
        Err("Ollama returned status: 404 Not Found".to_string())
    );
    assert_eq!(
        models_result(HttpReply::Undecodable { cause: "expected value at line 1".to_string() }),
        Err("Failed to parse response: expected value at line 1".to_string())
    );
}

#[test]
fn chat_result_of_a_decoded_reply() {
    assert_eq!(chat_result(HttpReply::Decoded(reply_text("hello"))), Ok(reply_text("hello")));
}

#[test]
fn chat_result_of_each_failure() {
    assert_eq!(
        chat_result(HttpReply::Unreachable { cause: "operation timed out".to_string() }),
        Err("Ollama request failed: operation timed out".to_string())
    );
    assert_eq!(
        chat_result(HttpReply::Rejected {
            status: "500 Internal Server Error".to_string(),
            body: "model not found".to_string()
        }),
        Err("Ollama error 500 Internal Server Error: model not found".to_string())
    );
    assert_eq!(
        chat_result(HttpReply::Rejected { status: "503".to_string(), body: String::new() }),
        Err("Ollama error 503: ".to_string())
    );
    assert_eq!(
        chat_result(HttpReply::Undecodable { cause: "missing field `done`".to_string() }),
        Err("Failed to parse Ollama response: missing field `done`".to_string())
    );
}
