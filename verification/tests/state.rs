use pin_client::clock::{now, Timestamp};
use pin_client::state::{copy_names, copy_text, AppState, ConfigError, ConnectionConfig};

fn config(server: &str, backend: &str) -> ConnectionConfig {
    ConnectionConfig {
        client_id: "c1".to_string(),
        api_secret: "s1".to_string(),
        server_url: server.to_string(),
        ollama_url: backend.to_string(),
    }
}

#[test]
fn default_status_is_empty_and_disconnected() {
    let state = AppState::default();
    assert_eq!(state.client_id, None);
    assert_eq!(state.operator_id, None);
    assert_eq!(state.server_url, "");
    assert_eq!(state.ollama_url, "");
    assert!(!state.connected);
    assert_eq!(state.last_heartbeat, None);
    assert!(state.models.is_empty());
    assert_eq!(state.current_load, 0);
    assert_eq!(state.total_requests, 0);
}

#[test]
fn apply_config_stores_identity_and_addresses_only() {
    let mut state = AppState::default();
    state.operator_id = Some("op1".to_string());
    state.connected = true;
    state.models = vec!["llama2".to_string()];
    state.current_load = 1;
    state.total_requests = 9;
    state.last_heartbeat = Some(Timestamp { secs: 5, nanos: 6 });
    state.apply_config(config("https://pin.example", "http://gpu:11434"));
    assert_eq!(state.client_id, Some("c1".to_string()));
    assert_eq!(state.server_url, "https://pin.example");
    assert_eq!(state.ollama_url, "http://gpu:11434");
    assert_eq!(state.operator_id, Some("op1".to_string()));
    assert!(state.connected);
    assert_eq!(state.models, vec!["llama2"]);
    assert_eq!(state.current_load, 1);
    assert_eq!(state.total_requests, 9);
    assert_eq!(state.last_heartbeat, Some(Timestamp { secs: 5, nanos: 6 }));
}

#[test]
fn identity_is_missing_until_configured() {
    let mut state = AppState::default();
    assert_eq!(state.identity(), Err(ConfigError::NoIdentity));
    state.apply_config(config("", ""));
    assert_eq!(state.identity(), Ok("c1".to_string()));
}

#[test]
fn config_errors_in_words() {
    assert_eq!(ConfigError::NoIdentity.message(), "No client ID configured");
    assert_eq!(
        ConfigError::CredentialLookup { cause: "no entry".to_string() }.message(),
        "Failed to get credentials: no entry"
    );
}

#[test]
fn stored_credentials_need_identity_and_secret() {
    let mut state = AppState::default();
    assert_eq!(state.stored_credentials(Ok("s1".to_string())), None);
    assert_eq!(state.stored_credentials(Err("no entry".to_string())), None);
    state.apply_config(config("", ""));
    assert_eq!(state.stored_credentials(Err("no entry".to_string())), None);
    assert_eq!(
        state.stored_credentials(Ok("s1".to_string())),
        Some(("c1".to_string(), "s1".to_string()))
    );
}

#[test]
fn backend_defaults_to_the_local_service() {
    let mut state = AppState::default();
    assert_eq!(state.backend_url(), "http://localhost:11434");
    state.ollama_url = "http://gpu:11434/".to_string();
    assert_eq!(state.backend_url(), "http://gpu:11434/");
}

#[test]
fn session_endpoint_defaults_to_the_public_service() {
    let state = AppState::default();
    assert_eq!(state.dispatch_url(), "wss://aiassist-secure.replit.app/api/v1/pin/ws");
}

#[test]
fn session_endpoint_swaps_the_scheme_and_adds_the_path() {
    let mut state = AppState::default();
    state.server_url = "https://pin.example".to_string();
    assert_eq!(state.dispatch_url(), "wss://pin.example/api/v1/pin/ws");
    state.server_url = "http://localhost:8000".to_string();
    assert_eq!(state.dispatch_url(), "ws://localhost:8000/api/v1/pin/ws");
    state.server_url = "pin.example".to_string();
    assert_eq!(state.dispatch_url(), "pin.example/api/v1/pin/ws");
    state.server_url = "wss://pin.example/".to_string();
    assert_eq!(state.dispatch_url(), "wss://pin.example//api/v1/pin/ws");
}

#[test]
fn session_endpoint_swaps_every_occurrence() {
    let mut state = AppState::default();
    state.server_url = "https://a/?next=http://b&then=https://c".to_string();
    assert_eq!(state.dispatch_url(), "wss://a/?next=ws://b&then=wss://c/api/v1/pin/ws");
    for url in ["https://x", "http://x", "hhttp://x", "https://http://", "HTTP://x", "é https:// ü"] {
        state.server_url = url.to_string();
        let expected =
            url.replace("https://", "wss://").replace("http://", "ws://") + "/api/v1/pin/ws";
        assert_eq!(state.dispatch_url(), expected);
    }
}

#[test]
fn snapshot_is_an_equal_copy() {
    let mut state = AppState::default();
    assert_eq!(state.snapshot(), state);
    state.apply_config(config("https://pin.example", "http://gpu:11434"));
    state.operator_id = Some("op1".to_string());
    state.connected = true;
    state.models = vec!["llama2".to_string(), "mistral".to_string()];
    state.current_load = 1;
    state.total_requests = 3;
    state.last_heartbeat = Some(Timestamp { secs: 1_700_000_000, nanos: 999_999_999 });
    let copy = state.snapshot();
    assert_eq!(copy, state);
    state.connected = false;
    assert!(copy.connected);
}

#[test]
fn copies_are_equal_to_what_they_copy() {
    assert_eq!(copy_text(&None), None);
    assert_eq!(copy_text(&Some("op1".to_string())), Some("op1".to_string()));
    assert_eq!(copy_names(&vec![]), Vec::<String>::new());
    assert_eq!(copy_names(&vec!["a".to_string(), "".to_string(), "a".to_string()]), vec!["a", "", "a"]);
}

#[test]
fn timestamps_are_ordered_by_seconds_then_nanoseconds() {
    let a = Timestamp { secs: 10, nanos: 500 };
    let b = Timestamp { secs: 10, nanos: 501 };
    let c = Timestamp { secs: 11, nanos: 0 };
    assert!(a.is_not_after(&a));
    assert!(a.is_not_after(&b));
    assert!(!b.is_not_after(&a));
    assert!(b.is_not_after(&c));
    assert!(!c.is_not_after(&b));
    assert!(a.is_not_after(&c));
}

#[test]
fn reading_after_the_epoch_is_taken_as_it_is() {
    assert_eq!(
        Timestamp::from_elapsed(Some((1_700_000_000, 123_456_789))),
        Timestamp { secs: 1_700_000_000, nanos: 123_456_789 }
    );
    assert_eq!(Timestamp::from_elapsed(Some((0, 0))), Timestamp { secs: 0, nanos: 0 });
    assert_eq!(
        Timestamp::from_elapsed(Some((u64::MAX, 999_999_999))),
        Timestamp { secs: u64::MAX, nanos: 999_999_999 }
    );
}

#[test]
fn clock_before_the_epoch_reads_as_the_epoch() {
    assert_eq!(Timestamp::from_elapsed(None), Timestamp { secs: 0, nanos: 0 });
}

#[test]
fn clock_shows_the_time_of_the_system() {
    let before = std::time::SystemTime::now()
        .duration_since(std::time::UNIX_EPOCH)
        .map(|d| d.as_secs())
        .unwrap_or(0);
    let first = now();
    let second = now();
    let after = std::time::SystemTime::now()
        .duration_since(std::time::UNIX_EPOCH)
        .map(|d| d.as_secs())
        .unwrap_or(0);
    assert!(before <= first.secs && first.secs <= after);
    assert!(first.is_not_after(&second));
    assert!(first.nanos < 1_000_000_000);
    assert!(second.nanos < 1_000_000_000);
}
