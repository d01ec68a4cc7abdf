//! The local model backend: the shapes of its requests and replies, where
//! its two endpoints live, and how a reply becomes a result.
//!
//! The HTTP exchange itself is the driver's business. The driver asks here
//! for the endpoint and the request body, performs the call with the timeout
//! given, and hands back an [`HttpReply`].

use vstd::prelude::*;
use vstd::string::*;
use crate::text::{trim_end, trim_end_slashes};

verus! {

/// `serde_json::Value`, carried through untouched.
#[verifier::external_type_specification]
#[verifier::external_body]
pub struct ExJsonValue(serde_json::Value);

/// Seconds the driver grants a model listing.
pub const LIST_TIMEOUT_SECS: u64 = 10;

/// Seconds the driver grants a chat completion.
pub const CHAT_TIMEOUT_SECS: u64 = 120;

/// One entry of the backend's model listing.
#[derive(Clone, Debug, PartialEq, Eq)]
pub struct OllamaModel {
    pub name: String,
    pub modified_at: Option<String>,
    pub size: Option<u64>,
}

/// The backend's answer to a model listing.
#[derive(Clone, Debug, PartialEq, Eq)]
pub struct OllamaModelsResponse {
    pub models: Vec<OllamaModel>,
}

/// One turn of a conversation.
#[derive(Clone, Debug, PartialEq, Eq)]
pub struct ChatMessage {
    pub role: String,
    pub content: String,
}

/// The body of a chat completion request.
#[derive(Clone, Debug, PartialEq, Eq)]
pub struct OllamaChatRequest {
    pub model: String,
    pub messages: Vec<ChatMessage>,
    pub stream: Option<bool>,
    pub options: Option<serde_json::Value>,
}

/// The backend's answer to a chat completion.
#[derive(Clone, Debug, PartialEq, Eq)]
pub struct OllamaChatResponse {
    pub model: String,
    pub message: ChatMessage,
    pub done: bool,
    pub total_duration: Option<u64>,
    pub prompt_eval_count: Option<u32>,
    pub eval_count: Option<u32>,
}

/// What came of one HTTP exchange with the backend.
#[derive(Clone, Debug, PartialEq, Eq)]
pub enum HttpReply<T> {
    /// The request could not be sent or no answer came in time.
    Unreachable { cause: String },
    /// The backend answered with a status outside 200-299; `status` is the
    /// status line as text, `body` what the answer carried.
    Rejected { status: String, body: String },
    /// The status was fine but the body could not be decoded.
    Undecodable { cause: String },
    /// The decoded body.
    Decoded(T),
}

pub struct ChatMessageView {
    pub role: Seq<char>,
    pub content: Seq<char>,
}

pub struct OllamaModelView {
    pub name: Seq<char>,
    pub modified_at: Option<Seq<char>>,
    pub size: Option<u64>,
}

pub struct OllamaChatRequestView {
    pub model: Seq<char>,
    pub messages: Seq<ChatMessageView>,
    pub stream: Option<bool>,
    pub options: Option<serde_json::Value>,
}

pub struct OllamaChatResponseView {
    pub model: Seq<char>,
    pub message: ChatMessageView,
    pub done: bool,
    pub total_duration: Option<u64>,
    pub prompt_eval_count: Option<u32>,
    pub eval_count: Option<u32>,
}

/// The view of an optional string.
pub open spec fn opt_text(s: Option<String>) -> Option<Seq<char>> {
    match s {
        Some(t) => Some(t@),
        None => None,
    }
}

impl View for ChatMessage {
    type V = ChatMessageView;

    open spec fn view(&self) -> ChatMessageView {
        ChatMessageView { role: self.role@, content: self.content@ }
    }
}

impl DeepView for ChatMessage {
    type V = ChatMessageView;

    open spec fn deep_view(&self) -> ChatMessageView {
        self@
    }
}

impl View for OllamaModel {
    type V = OllamaModelView;

    open spec fn view(&self) -> OllamaModelView {
        OllamaModelView {
            name: self.name@,
            modified_at: opt_text(self.modified_at),
            size: self.size,
        }
    }
}

impl DeepView for OllamaModel {
    type V = OllamaModelView;

    open spec fn deep_view(&self) -> OllamaModelView {
        self@
    }
}

impl View for OllamaModelsResponse {
    type V = Seq<OllamaModelView>;

    open spec fn view(&self) -> Seq<OllamaModelView> {
        self.models.deep_view()
    }
}

impl View for OllamaChatRequest {
    type V = OllamaChatRequestView;

    open spec fn view(&self) -> OllamaChatRequestView {
        OllamaChatRequestView {
            model: self.model@,
            messages: self.messages.deep_view(),
            stream: self.stream,
            options: self.options,
        }
    }
}

impl View for OllamaChatResponse {
    type V = OllamaChatResponseView;

    open spec fn view(&self) -> OllamaChatResponseView {
        OllamaChatResponseView {
            model: self.model@,
            message: self.message@,
            done: self.done,
            total_duration: self.total_duration,
            prompt_eval_count: self.prompt_eval_count,
            eval_count: self.eval_count,
        }
    }
}

/// The names of a listing, in the order of the listing.
pub open spec fn names_of(models: Seq<OllamaModelView>) -> Seq<Seq<char>> {
    Seq::new(models.len(), |i: int| models[i].name)
}

/// Where the model listing of the backend at `url` is found.
pub open spec fn tags_url(url: Seq<char>) -> Seq<char> {
    trim_end(url, '/') + "/api/tags"@
}

/// Where the chat completion of the backend at `url` is found.
pub open spec fn chat_url(url: Seq<char>) -> Seq<char> {
    trim_end(url, '/') + "/api/chat"@
}

/// The view of what a model listing came to.
pub open spec fn listing_view(r: Result<Vec<String>, String>) -> Result<Seq<Seq<char>>, Seq<char>> {
    match r {
        Ok(names) => Ok(names.deep_view()),
        Err(e) => Err(e@),
    }
}

/// The view of what a chat completion came to.
pub open spec fn completion_view(r: Result<OllamaChatResponse, String>) -> Result<
    OllamaChatResponseView,
    Seq<char>,
> {
    match r {
        Ok(response) => Ok(response@),
        Err(e) => Err(e@),
    }
}

/// What a reply to a model listing comes to: the names, or the cause of
/// the failure in words.
pub open spec fn listing_of(reply: HttpReply<OllamaModelsResponse>) -> Result<
    Seq<Seq<char>>,
    Seq<char>,
> {
    match reply {
        HttpReply::Unreachable { cause } => Err("Failed to connect to Ollama: "@ + cause@),
        HttpReply::Rejected { status, body } => Err("Ollama returned status: "@ + status@),
        HttpReply::Undecodable { cause } => Err("Failed to parse response: "@ + cause@),
        HttpReply::Decoded(listing) => Ok(names_of(listing@)),
    }
}

/// What a reply to a chat completion comes to: the backend's answer, or the
/// cause of the failure in words.
pub open spec fn completion_of(reply: HttpReply<OllamaChatResponse>) -> Result<
    OllamaChatResponseView,
    Seq<char>,
> {
    match reply {
        HttpReply::Unreachable { cause } => Err("Ollama request failed: "@ + cause@),
        HttpReply::Rejected { status, body } => Err("Ollama error "@ + status@ + ": "@ + body@),
        HttpReply::Undecodable { cause } => Err("Failed to parse Ollama response: "@ + cause@),
        HttpReply::Decoded(response) => Ok(response@),
    }
}

/// The gap between neighbouring values that 24 significant bits can hold
/// around `n`: one up to 2^24, doubling with every further bit of `n`.
pub open spec fn ulp24(n: nat) -> nat
    decreases n,
{
    if n < 0x100_0000 {
        1
    } else {
        2 * ulp24(n / 2)
    }
}

/// `n` rounded to the nearest multiple of `unit`; halfway between two
/// multiples, the even one is taken.
pub open spec fn round_to_multiple(n: nat, unit: nat) -> nat
    recommends
        unit > 0,
{
    let q = n / unit;
    let r = n % unit;
    if 2 * r < unit || (2 * r == unit && q % 2 == 0) {
        q * unit
    } else {
        (q + 1) * unit
    }
}

/// `n` as single-precision arithmetic holds it: rounded to 24 significant
/// bits, ties to even.
pub open spec fn single_precision(n: nat) -> nat {
    round_to_multiple(n, ulp24(n))
}

/// A quarter of `len`, rounded up, computed at single precision and capped
/// at the largest 32-bit number.
pub open spec fn token_estimate(len: nat) -> nat {
    let quarter = (single_precision(len) + 3) / 4;
    if quarter > u32::MAX {
        u32::MAX as nat
    } else {
        quarter
    }
}

proof fn lemma_ulp24_bound(n: nat)
    requires
        n >= 0x100_0000,
    ensures
        ulp24(n) * 0x80_0000 <= n,
        ulp24(n) >= 2,
    decreases n,
{
    assert(ulp24(n) == 2 * ulp24(n / 2));
    if n / 2 >= 0x100_0000 {
        lemma_ulp24_bound(n / 2);
    } else {
        assert(ulp24(n / 2) == 1);
    }
}

/// Below 2^24 nothing is lost to rounding: the estimate is a quarter of the
/// length, rounded up.
pub proof fn lemma_token_estimate_small(len: nat)
    requires
        len < 0x100_0000,
    ensures
        token_estimate(len) == (len + 3) / 4,
{
    assert(ulp24(len) == 1);
}

/// From 2^35 on the estimate is the cap.
proof fn lemma_token_estimate_large(len: nat)
    requires
        len >= 0x8_0000_0000,
    ensures
        token_estimate(len) == u32::MAX,
{
    lemma_ulp24_bound(len);
    let u = ulp24(len);
    let q = len / u;
    let r = len % u;
    assert(len == q * u + r && r < u) by (nonlinear_arith)
        requires
            u > 0,
            q == len / u,
            r == len % u,
    ;
    assert((q + 1) * u == q * u + u) by (nonlinear_arith);
    assert(single_precision(len) >= q * u);
}

/// Whether an HTTP status counts as success.
pub fn is_success(status: u16) -> (r: bool)
    ensures
        r == (200 <= status < 300),
{
    200 <= status && status < 300
}

/// Estimates how many tokens `text` holds: a quarter of its length in bytes,
/// rounded up, in single-precision arithmetic.
pub fn estimate_tokens(text: &str) -> (r: u32)
    ensures
        r == token_estimate(text.spec_bytes().len()),
        text.spec_bytes().len() < 0x100_0000 ==> r == (text.spec_bytes().len() + 3) / 4,
{
    let n: u64 = text.as_bytes().len() as u64;
    proof {
        if n < 0x100_0000 {
            lemma_token_estimate_small(n as nat);
        }
    }
    if n >= 0x8_0000_0000 {
        proof {
            lemma_token_estimate_large(n as nat);
        }
        return u32::MAX;
    }
    let mut unit: u64 = 1;
    let mut m: u64 = n;
    while m >= 0x100_0000
        invariant
            n < 0x8_0000_0000,
            1 <= unit <= 0x1000,
            m * unit <= n,
            ulp24(n as nat) == unit * ulp24(m as nat),
        decreases m,
    {
        assert(unit < 0x800) by (nonlinear_arith)
            requires
                m >= 0x100_0000,
                m * unit <= n,
                n < 0x8_0000_0000,
        ;
        assert((m / 2) * (unit * 2) <= m * unit) by (nonlinear_arith)
            requires
                m >= 0,
                unit >= 1,
        ;
        assert(unit * ulp24(m as nat) == (unit * 2) * ulp24((m / 2) as nat)) by (nonlinear_arith)
            requires
                ulp24(m as nat) == 2 * ulp24((m / 2) as nat),
        ;
        m = m / 2;
        unit = unit * 2;
    }
    assert(ulp24(m as nat) == 1);
    assert(unit == ulp24(n as nat)) by (nonlinear_arith)
        requires
            ulp24(n as nat) == unit * ulp24(m as nat),
            ulp24(m as nat) == 1,
    ;
    let q = n / unit;
    let rem = n % unit;
    assert(n == q * unit + rem && rem < unit && q * unit <= n) by (nonlinear_arith)
        requires
            unit > 0,
            q == n / unit,
            rem == n % unit,
    ;
    assert((q + 1) * unit == q * unit + unit) by (nonlinear_arith);
    let rounded = if 2 * rem < unit || (2 * rem == unit && q % 2 == 0) {
        q * unit
    } else {
        (q + 1) * unit
    };
    assert(rounded == single_precision(n as nat));
    let quarter = (rounded + 3) / 4;
    if quarter > u32::MAX as u64 {
        u32::MAX
    } else {
        quarter as u32
    }
}

/// The URL of the model listing of the backend at `url`.
pub fn tags_endpoint(url: &str) -> (r: String)
    ensures
        r@ == tags_url(url@),
{
    String::from_str(trim_end_slashes(url)).concat("/api/tags")
}

/// The URL of the chat completion of the backend at `url`.
pub fn chat_endpoint(url: &str) -> (r: String)
    ensures
        r@ == chat_url(url@),
{
    String::from_str(trim_end_slashes(url)).concat("/api/chat")
}

/// The names of the models in a listing, in its order.
pub fn model_names(listing: &OllamaModelsResponse) -> (names: Vec<String>)
    ensures
        names.deep_view() == names_of(listing@),
{
    let mut names: Vec<String> = Vec::new();
    let n = listing.models.len();
    let mut i: usize = 0;
    while i < n
        invariant
            i <= n,
            n == listing.models.len(),
            names.len() == i,
            forall|j: int| 0 <= j < i ==> names[j]@ == listing.models[j].name@,
        decreases n - i,
    {
        names.push(listing.models[i].name.clone());
        i += 1;
    }
    assert(names.deep_view() =~= names_of(listing@));
    names
}

/// The body of a chat completion request for `model` over `messages`.
pub fn chat_request(model: &str, messages: Vec<ChatMessage>, stream: bool) -> (request:
    OllamaChatRequest)
    ensures
        request@ == (OllamaChatRequestView {
            model: model@,
            messages: messages.deep_view(),
            stream: Some(stream),
            options: None,
        }),
{
    OllamaChatRequest { model: String::from_str(model), messages, stream: Some(stream), options: None }
}

/// Turns the reply to a model listing into the names or the failure.
pub fn models_result(reply: HttpReply<OllamaModelsResponse>) -> (r: Result<Vec<String>, String>)
    ensures
        listing_view(r) == listing_of(reply),
{
    match reply {
        HttpReply::Unreachable { cause } => {
            Err(String::from_str("Failed to connect to Ollama: ").concat(cause.as_str()))
        },
        HttpReply::Rejected { status, body } => {
            Err(String::from_str("Ollama returned status: ").concat(status.as_str()))
        },
        HttpReply::Undecodable { cause } => {
            Err(String::from_str("Failed to parse response: ").concat(cause.as_str()))
        },
        HttpReply::Decoded(listing) => Ok(model_names(&listing)),
    }
}

/// Turns the reply to a chat completion into the answer or the failure.
pub fn chat_result(reply: HttpReply<OllamaChatResponse>) -> (r: Result<OllamaChatResponse, String>)
    ensures
        completion_view(r) == completion_of(reply),
{
    match reply {
        HttpReply::Unreachable { cause } => {
            Err(String::from_str("Ollama request failed: ").concat(cause.as_str()))
        },
        HttpReply::Rejected { status, body } => {
            let mut text = String::from_str("Ollama error ");
            text.append(status.as_str());
            text.append(": ");
            text.append(body.as_str());
            Err(text)
        },
        HttpReply::Undecodable { cause } => {
            Err(String::from_str("Failed to parse Ollama response: ").concat(cause.as_str()))
        },
        HttpReply::Decoded(response) => Ok(response),
    }
}

} // verus!
