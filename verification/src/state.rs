//! The snapshot of session status that observers read, and what the
//! configuration stored in it says about where to connect.

use vstd::prelude::*;
use vstd::string::*;
use crate::clock::Timestamp;
use crate::ollama::opt_text;
use crate::text::{replace, replace_all};

verus! {

/// The status of the client as observers see it. The session writes
/// `operator_id`, `connected`, `last_heartbeat`, `models` and the two
/// counters; the configuration fills the rest.
#[derive(Clone, Debug, PartialEq, Eq)]
pub struct AppState {
    pub client_id: Option<String>,
    pub operator_id: Option<String>,
    pub server_url: String,
    pub ollama_url: String,
    pub connected: bool,
    pub last_heartbeat: Option<Timestamp>,
    pub models: Vec<String>,
    pub current_load: u32,
    pub total_requests: u64,
}

/// What the user configures: who the client is and where its two peers are.
#[derive(Clone, Debug, PartialEq, Eq)]
pub struct ConnectionConfig {
    pub client_id: String,
    pub api_secret: String,
    pub server_url: String,
    pub ollama_url: String,
}

/// Why a connection cannot be attempted.
#[derive(Clone, Debug, PartialEq, Eq)]
pub enum ConfigError {
    /// No identity has been configured.
    NoIdentity,
    /// The secret of the configured identity could not be had.
    CredentialLookup { cause: String },
    /// A session is connected: it has to end before another is made.
    AlreadyConnected,
}

pub enum ConfigErrorView {
    NoIdentity,
    CredentialLookup { cause: Seq<char> },
    AlreadyConnected,
}

pub struct AppStateView {
    pub client_id: Option<Seq<char>>,
    pub operator_id: Option<Seq<char>>,
    pub server_url: Seq<char>,
    pub ollama_url: Seq<char>,
    pub connected: bool,
    pub last_heartbeat: Option<Timestamp>,
    pub models: Seq<Seq<char>>,
    pub current_load: nat,
    pub total_requests: nat,
}

pub struct ConnectionConfigView {
    pub client_id: Seq<char>,
    pub api_secret: Seq<char>,
    pub server_url: Seq<char>,
    pub ollama_url: Seq<char>,
}

impl View for AppState {
    type V = AppStateView;

    open spec fn view(&self) -> AppStateView {
        AppStateView {
            client_id: opt_text(self.client_id),
            operator_id: opt_text(self.operator_id),
            server_url: self.server_url@,
            ollama_url: self.ollama_url@,
            connected: self.connected,
            last_heartbeat: self.last_heartbeat,
            models: self.models.deep_view(),
            current_load: self.current_load as nat,
            total_requests: self.total_requests as nat,
        }
    }
}

impl View for ConfigError {
    type V = ConfigErrorView;

    open spec fn view(&self) -> ConfigErrorView {
        match *self {
            ConfigError::NoIdentity => ConfigErrorView::NoIdentity,
            ConfigError::CredentialLookup { cause } => ConfigErrorView::CredentialLookup {
                cause: cause@,
            },
            ConfigError::AlreadyConnected => ConfigErrorView::AlreadyConnected,
        }
    }
}

impl View for ConnectionConfig {
    type V = ConnectionConfigView;

    open spec fn view(&self) -> ConnectionConfigView {
        ConnectionConfigView {
            client_id: self.client_id@,
            api_secret: self.api_secret@,
            server_url: self.server_url@,
            ollama_url: self.ollama_url@,
        }
    }
}

impl AppStateView {
    /// The status before anything is configured or connected.
    pub open spec fn initial() -> AppStateView {
        AppStateView {
            client_id: None,
            operator_id: None,
            server_url: Seq::empty(),
            ollama_url: Seq::empty(),
            connected: false,
            last_heartbeat: None,
            models: Seq::empty(),
            current_load: 0,
            total_requests: 0,
        }
    }

    /// The status once `config` is stored: identity and addresses are taken
    /// from it, the secret is not kept, the rest stays.
    pub open spec fn configured(self, config: ConnectionConfigView) -> AppStateView {
        AppStateView {
            client_id: Some(config.client_id),
            server_url: config.server_url,
            ollama_url: config.ollama_url,
            ..self
        }
    }

    /// The address of the model backend: the configured one, or the local
    /// default where none is configured.
    pub open spec fn backend_url(self) -> Seq<char> {
        if self.ollama_url.len() == 0 {
            "http://localhost:11434"@
        } else {
            self.ollama_url
        }
    }

    /// The address of the session endpoint: the configured service with its
    /// scheme turned into the matching socket scheme and the session path
    /// added, or the default endpoint where no service is configured.
    pub open spec fn dispatch_url(self) -> Seq<char> {
        if self.server_url.len() == 0 {
            "wss://aiassist-secure.replit.app/api/v1/pin/ws"@
        } else {
            replace_all(replace_all(self.server_url, "https://"@, "wss://"@), "http://"@, "ws://"@)
                + "/api/v1/pin/ws"@
        }
    }
}

impl ConfigErrorView {
    /// The error in words.
    pub open spec fn text(self) -> Seq<char> {
        match self {
            ConfigErrorView::NoIdentity => "No client ID configured"@,
            ConfigErrorView::CredentialLookup { cause } => "Failed to get credentials: "@ + cause,
            ConfigErrorView::AlreadyConnected => "Already connected"@,
        }
    }
}

impl ConfigError {
    /// The error in words.
    pub fn message(&self) -> (m: String)
        ensures
            m@ == self@.text(),
    {
        match self {
            ConfigError::NoIdentity => String::from_str("No client ID configured"),
            ConfigError::CredentialLookup { cause } => String::from_str(
                "Failed to get credentials: ",
            ).concat(cause.as_str()),
            ConfigError::AlreadyConnected => String::from_str("Already connected"),
        }
    }
}

/// A copy of an optional string.
pub fn copy_text(s: &Option<String>) -> (r: Option<String>)
    ensures
        opt_text(r) == opt_text(*s),
{
    match s {
        Some(t) => Some(t.clone()),
        None => None,
    }
}

/// A copy of a list of strings.
pub fn copy_names(names: &Vec<String>) -> (r: Vec<String>)
    ensures
        r.deep_view() == names.deep_view(),
{
    let mut r: Vec<String> = Vec::new();
    let n = names.len();
    let mut i: usize = 0;
    while i < n
        invariant
            i <= n,
            n == names.len(),
            r.len() == i,
            forall|j: int| 0 <= j < i ==> r[j]@ == names[j]@,
        decreases n - i,
    {
        r.push(names[i].clone());
        i += 1;
    }
    assert(r.deep_view() =~= names.deep_view());
    r
}

impl Default for AppState {
    fn default() -> (s: AppState)
        ensures
            s@ == AppStateView::initial(),
    {
        let s = AppState {
            client_id: None,
            operator_id: None,
            server_url: String::new(),
            ollama_url: String::new(),
            connected: false,
            last_heartbeat: None,
            models: Vec::new(),
            current_load: 0,
            total_requests: 0,
        };
        assert(s.models.deep_view() =~= Seq::<Seq<char>>::empty());
        s
    }
}

impl AppState {
    /// A copy for an observer, who then reads it without holding anything.
    pub fn snapshot(&self) -> (copy: AppState)
        ensures
            copy@ == self@,
    {
        AppState {
            client_id: copy_text(&self.client_id),
            operator_id: copy_text(&self.operator_id),
            server_url: self.server_url.clone(),
            ollama_url: self.ollama_url.clone(),
            connected: self.connected,
            last_heartbeat: self.last_heartbeat,
            models: copy_names(&self.models),
            current_load: self.current_load,
            total_requests: self.total_requests,
        }
    }

    /// Stores identity and addresses of `config`. The secret is not stored
    /// here: it belongs to the credential store.
    pub fn apply_config(&mut self, config: ConnectionConfig)
        ensures
            final(self)@ == old(self)@.configured(config@),
    {
        self.client_id = Some(config.client_id);
        self.server_url = config.server_url;
        self.ollama_url = config.ollama_url;
    }

    /// The configured identity, or `NoIdentity` where there is none.
    pub fn identity(&self) -> (r: Result<String, ConfigError>)
        ensures
            match self@.client_id {
                Some(id) => r is Ok && r->Ok_0@ == id,
                None => r is Err && r->Err_0@ == ConfigErrorView::NoIdentity,
            },
    {
        match &self.client_id {
            Some(id) => Ok(id.clone()),
            None => Err(ConfigError::NoIdentity),
        }
    }

    /// The configured identity with its secret, given what the credential
    /// store answered for it. A missing identity or a failed lookup means
    /// "not configured", which is no error.
    pub fn stored_credentials(&self, lookup: Result<String, String>) -> (r: Option<(String, String)>)
        ensures
            match (self@.client_id, lookup) {
                (Some(id), Ok(secret)) => r is Some && r->Some_0.0@ == id && r->Some_0.1@
                    == secret@,
                _ => r is None,
            },
    {
        match &self.client_id {
            Some(id) => match lookup {
                Ok(secret) => Some((id.clone(), secret)),
                Err(_) => None,
            },
            None => None,
        }
    }

    /// The address of the model backend.
    pub fn backend_url(&self) -> (url: String)
        ensures
            url@ == self@.backend_url(),
    {
        if self.ollama_url.as_str().is_empty() {
            String::from_str("http://localhost:11434")
        } else {
            self.ollama_url.clone()
        }
    }

    /// The address of the session endpoint.
    pub fn dispatch_url(&self) -> (url: String)
        ensures
            url@ == self@.dispatch_url(),
    {
        if self.server_url.as_str().is_empty() {
            String::from_str("wss://aiassist-secure.replit.app/api/v1/pin/ws")
        } else {
            let secure = replace(self.server_url.as_str(), "https://", "wss://");
            let plain = replace(secure.as_str(), "http://", "ws://");
            plain.concat("/api/v1/pin/ws")
        }
    }
}

} // verus!
