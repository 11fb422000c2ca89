//! The model providers: which endpoint, headers and reply field each one
//! uses, how a configuration selects one, and what a failed exchange is
//! reported as.

use vstd::prelude::*;
use vstd::string::*;
use crate::config::{validation, Config};
use crate::json::{element, json_element, json_member, json_string_text, member, string_text};
use crate::text::{
    chars_of, has_suffix, is_blank, is_blank_text, lemma_trim_end_matches_done,
    trim_end_matches, window, window_trim_end_matches,
};

verus! {

/// An OpenAI-compatible endpoint (`/chat/completions`).
#[derive(Debug, Clone)]
pub struct OpenAiProvider {
    pub url: String,
    pub api_key: String,
    pub model: String,
    pub timeout_ms: u64,
}

/// The Anthropic Messages endpoint (`/messages`).
#[derive(Debug, Clone)]
pub struct AnthropicProvider {
    pub url: String,
    pub api_key: String,
    pub model: String,
    pub timeout_ms: u64,
}

/// The provider that a configuration selects.
#[derive(Debug, Clone)]
pub enum Provider {
    OpenAi(OpenAiProvider),
    Anthropic(AnthropicProvider),
}

/// The base URL without trailing slashes, followed by `path`.
pub open spec fn endpoint_url(base: Seq<char>, path: Seq<char>) -> Seq<char> {
    trim_end_matches(base, seq!['/']) + path
}

/// Joins the base URL, without its trailing slashes, and `path`.
pub fn join_endpoint(base: &str, path: &str) -> (url: String)
    ensures
        url@ == endpoint_url(base@, path@),
{
    let v = chars_of(base);
    let slash: Vec<char> = vec!['/'];
    assert(window(v@, 0, v.len() as int) =~= v@);
    let end = window_trim_end_matches(&v, 0, v.len(), &slash);
    assert(slash@ =~= seq!['/']);
    let url = String::from_str(base.substring_char(0, end));
    url.concat(path)
}

/// Header names and values as texts.
pub open spec fn header_texts(h: Seq<(String, String)>) -> Seq<(Seq<char>, Seq<char>)> {
    h.map_values(|p: (String, String)| (p.0@, p.1@))
}

/// The headers of a request to an OpenAI-compatible endpoint: a bearer
/// token where there is a key, none for a local endpoint without one.
pub open spec fn openai_headers(api_key: Seq<char>) -> Seq<(Seq<char>, Seq<char>)> {
    if api_key.len() == 0 {
        Seq::empty()
    } else {
        seq![("Authorization"@, "Bearer "@ + api_key)]
    }
}

/// The headers of a request to the Anthropic endpoint.
pub open spec fn anthropic_headers(api_key: Seq<char>) -> Seq<(Seq<char>, Seq<char>)> {
    seq![("x-api-key"@, api_key), ("anthropic-version"@, "2023-06-01"@)]
}

/// The reply text of an OpenAI-compatible answer: `choices[0].message.content`.
pub open spec fn openai_reply(reply: serde_json::Value) -> Option<Seq<char>> {
    json_string_text(
        json_member(json_member(json_element(json_member(reply, "choices"@), 0), "message"@), "content"@),
    )
}

/// The reply text of an Anthropic answer: `content[0].text`.
pub open spec fn anthropic_reply(reply: serde_json::Value) -> Option<Seq<char>> {
    json_string_text(json_member(json_element(json_member(reply, "content"@), 0), "text"@))
}

/// The text of an optional string.
pub open spec fn opt_text(s: Option<String>) -> Option<Seq<char>> {
    match s {
        Some(t) => Some(t@),
        None => None,
    }
}

/// A copy of an optional borrowed string.
fn owned_text(s: Option<&str>) -> (r: Option<String>)
    ensures
        opt_text(r) == match s {
            Some(t) => Some(t@),
            None => None::<Seq<char>>,
        },
{
    match s {
        Some(t) => Some(String::from_str(t)),
        None => None,
    }
}

/// One message of a chat request: who speaks, and what.
#[derive(Debug, Clone)]
pub struct ChatMessage {
    pub role: String,
    pub content: String,
}

/// The fields of a request to a model, besides any sampling settings.
#[derive(Debug, Clone)]
pub struct ChatRequest {
    pub model: String,
    /// The system prompt, where the API takes it apart from the messages.
    pub system: Option<String>,
    pub messages: Vec<ChatMessage>,
    pub max_tokens: u32,
}

/// The roles and texts of chat messages.
pub open spec fn message_texts(v: Seq<ChatMessage>) -> Seq<(Seq<char>, Seq<char>)> {
    v.map_values(|m: ChatMessage| (m.role@, m.content@))
}

/// A message from a role and a text.
fn message(role: &str, content: &str) -> (m: ChatMessage)
    ensures
        m.role@ == role@ && m.content@ == content@,
{
    ChatMessage { role: String::from_str(role), content: String::from_str(content) }
}

/// What the daemon needs of a provider to make a request and read its answer.
pub trait LlmProvider {
    /// The URL that requests go to.
    fn endpoint(&self) -> String;

    /// The model that requests name.
    fn model_id(&self) -> String;

    /// The time allowed for an answer, in milliseconds.
    fn timeout_ms(&self) -> u64;

    /// The headers that requests carry, besides the JSON content type.
    fn request_headers(&self) -> Vec<(String, String)>;

    /// The fields of a request for a system prompt and a user prompt.
    fn request_fields(&self, system_prompt: &str, user_prompt: &str) -> ChatRequest;

    /// The reply text in a decoded answer, if the answer holds one.
    fn reply_text(&self, reply: &serde_json::Value) -> Option<String>;
}

impl OpenAiProvider {
    /// The provider for an OpenAI-compatible configuration.
    pub fn new(config: &Config) -> (r: Result<Self, String>)
        ensures
            r matches Ok(p) && p.url@ == endpoint_url(config.provider_url@, "/chat/completions"@)
                && p.api_key@ == config.api_key@ && p.model@ == config.model@ && p.timeout_ms
                == config.timeout_ms,
    {
        let url = join_endpoint(config.provider_url.as_str(), "/chat/completions");
        Ok(OpenAiProvider {
            url,
            api_key: config.api_key.clone(),
            model: config.model.clone(),
            timeout_ms: config.timeout_ms,
        })
    }
}

impl AnthropicProvider {
    /// The provider for an Anthropic configuration, which must hold a key.
    pub fn new(config: &Config) -> (r: Result<Self, String>)
        ensures
            match r {
                Ok(p) => {
                    &&& !is_blank(config.api_key@)
                    &&& p.url@ == endpoint_url(config.provider_url@, "/messages"@)
                    &&& p.api_key@ == config.api_key@
                    &&& p.model@ == config.model@
                    &&& p.timeout_ms == config.timeout_ms
                },
                Err(e) => {
                    &&& is_blank(config.api_key@)
                    &&& e@ == "Config incomplete: api_key is required for Anthropic provider"@
                },
            },
    {
        if is_blank_text(config.api_key.as_str()) {
            return Err(
                String::from_str("Config incomplete: api_key is required for Anthropic provider"),
            );
        }
        let url = join_endpoint(config.provider_url.as_str(), "/messages");
        Ok(AnthropicProvider {
            url,
            api_key: config.api_key.clone(),
            model: config.model.clone(),
            timeout_ms: config.timeout_ms,
        })
    }
}

impl LlmProvider for OpenAiProvider {
    fn endpoint(&self) -> (r: String)
        ensures
            r@ == self.url@,
    {
        self.url.clone()
    }

    fn model_id(&self) -> (r: String)
        ensures
            r@ == self.model@,
    {
        self.model.clone()
    }

    fn timeout_ms(&self) -> (r: u64)
        ensures
            r == self.timeout_ms,
    {
        self.timeout_ms
    }

    fn request_headers(&self) -> (r: Vec<(String, String)>)
        ensures
            header_texts(r@) == openai_headers(self.api_key@),
    {
        let mut headers: Vec<(String, String)> = Vec::new();
        if self.api_key.as_str().is_empty() {
            assert(header_texts(headers@) =~= openai_headers(self.api_key@));
        } else {
            let value = String::from_str("Bearer ").concat(self.api_key.as_str());
            headers.push((String::from_str("Authorization"), value));
            assert(header_texts(headers@) =~= openai_headers(self.api_key@));
        }
        headers
    }

    fn request_fields(&self, system_prompt: &str, user_prompt: &str) -> (r: ChatRequest)
        ensures
            r.model@ == self.model@,
            r.system is None,
            message_texts(r.messages@) == seq![("system"@, system_prompt@), ("user"@, user_prompt@)],
            r.max_tokens == 500,
    {
        let mut messages: Vec<ChatMessage> = Vec::new();
        messages.push(message("system", system_prompt));
        messages.push(message("user", user_prompt));
        assert(message_texts(messages@) =~= seq![("system"@, system_prompt@), ("user"@, user_prompt@)]);
        ChatRequest { model: self.model.clone(), system: None, messages, max_tokens: 500 }
    }

    fn reply_text(&self, reply: &serde_json::Value) -> (r: Option<String>)
        ensures
            opt_text(r) == openai_reply(*reply),
    {
        let content = member(member(element(member(reply, "choices"), 0), "message"), "content");
        owned_text(string_text(content))
    }
}

impl LlmProvider for AnthropicProvider {
    fn endpoint(&self) -> (r: String)
        ensures
            r@ == self.url@,
    {
        self.url.clone()
    }

    fn model_id(&self) -> (r: String)
        ensures
            r@ == self.model@,
    {
        self.model.clone()
    }

    fn timeout_ms(&self) -> (r: u64)
        ensures
            r == self.timeout_ms,
    {
        self.timeout_ms
    }

    fn request_headers(&self) -> (r: Vec<(String, String)>)
        ensures
            header_texts(r@) == anthropic_headers(self.api_key@),
    {
        let mut headers: Vec<(String, String)> = Vec::new();
        headers.push((String::from_str("x-api-key"), self.api_key.clone()));
        headers.push((String::from_str("anthropic-version"), String::from_str("2023-06-01")));
        assert(header_texts(headers@) =~= anthropic_headers(self.api_key@));
        headers
    }

    fn request_fields(&self, system_prompt: &str, user_prompt: &str) -> (r: ChatRequest)
        ensures
            r.model@ == self.model@,
            r.system matches Some(s) && s@ == system_prompt@,
            message_texts(r.messages@) == seq![("user"@, user_prompt@)],
            r.max_tokens == 500,
    {
        let mut messages: Vec<ChatMessage> = Vec::new();
        messages.push(message("user", user_prompt));
        assert(message_texts(messages@) =~= seq![("user"@, user_prompt@)]);
        ChatRequest {
            model: self.model.clone(),
            system: Some(String::from_str(system_prompt)),
            messages,
            max_tokens: 500,
        }
    }

    fn reply_text(&self, reply: &serde_json::Value) -> (r: Option<String>)
        ensures
            opt_text(r) == anthropic_reply(*reply),
    {
        let text = member(element(member(reply, "content"), 0), "text");
        owned_text(string_text(text))
    }
}


/// The message for a provider type that no provider answers to.
pub open spec fn unknown_provider_message(t: Seq<char>) -> Seq<char> {
    "Unknown provider_type: "@ + t
}

/// Why a configuration gives no provider, if it gives none.
pub open spec fn provider_error(c: Config) -> Option<Seq<char>> {
    if c.provider_type@ == "openai"@ {
        None
    } else if c.provider_type@ == "anthropic"@ {
        if is_blank(c.api_key@) {
            Some("Config incomplete: api_key is required for Anthropic provider"@)
        } else {
            None
        }
    } else {
        Some(unknown_provider_message(c.provider_type@))
    }
}

/// Selects and sets up the provider that the configuration names.
pub fn build_provider(config: &Config) -> (r: Result<Provider, String>)
    ensures
        r is Err <==> provider_error(*config) is Some,
        r matches Err(e) ==> provider_error(*config) == Some(e@),
        match r {
            Ok(Provider::OpenAi(p)) => {
                &&& config.provider_type@ == "openai"@
                &&& p.url@ == endpoint_url(config.provider_url@, "/chat/completions"@)
                &&& p.api_key@ == config.api_key@
                &&& p.model@ == config.model@
                &&& p.timeout_ms == config.timeout_ms
            },
            Ok(Provider::Anthropic(p)) => {
                &&& config.provider_type@ == "anthropic"@
                &&& !is_blank(config.api_key@)
                &&& p.url@ == endpoint_url(config.provider_url@, "/messages"@)
                &&& p.api_key@ == config.api_key@
                &&& p.model@ == config.model@
                &&& p.timeout_ms == config.timeout_ms
            },
            Err(e) => {
                ||| config.provider_type@ == "anthropic"@ && is_blank(config.api_key@) && e@
                    == "Config incomplete: api_key is required for Anthropic provider"@
                ||| config.provider_type@ != "openai"@ && config.provider_type@ != "anthropic"@
                    && e@ == unknown_provider_message(config.provider_type@)
            },
        },
{
    if config.provider_type == String::from_str("openai") {
        match OpenAiProvider::new(config) {
            Ok(p) => Ok(Provider::OpenAi(p)),
            Err(e) => Err(e),
        }
    } else if config.provider_type == String::from_str("anthropic") {
        match AnthropicProvider::new(config) {
            Ok(p) => Ok(Provider::Anthropic(p)),
            Err(e) => Err(e),
        }
    } else {
        Err(String::from_str("Unknown provider_type: ").concat(config.provider_type.as_str()))
    }
}

/// The URL that a provider's requests go to.
pub open spec fn provider_url(p: Provider) -> Seq<char> {
    match p {
        Provider::OpenAi(q) => q.url@,
        Provider::Anthropic(q) => q.url@,
    }
}

/// The model that a provider's requests name.
pub open spec fn provider_model(p: Provider) -> Seq<char> {
    match p {
        Provider::OpenAi(q) => q.model@,
        Provider::Anthropic(q) => q.model@,
    }
}

/// The time a provider allows for an answer.
pub open spec fn provider_timeout(p: Provider) -> u64 {
    match p {
        Provider::OpenAi(q) => q.timeout_ms,
        Provider::Anthropic(q) => q.timeout_ms,
    }
}

/// The headers of a provider's requests.
pub open spec fn provider_headers(p: Provider) -> Seq<(Seq<char>, Seq<char>)> {
    match p {
        Provider::OpenAi(q) => openai_headers(q.api_key@),
        Provider::Anthropic(q) => anthropic_headers(q.api_key@),
    }
}

/// The reply text that a provider reads from a decoded answer.
pub open spec fn provider_reply(p: Provider, reply: serde_json::Value) -> Option<Seq<char>> {
    match p {
        Provider::OpenAi(_) => openai_reply(reply),
        Provider::Anthropic(_) => anthropic_reply(reply),
    }
}

impl LlmProvider for Provider {
    fn endpoint(&self) -> (r: String)
        ensures
            r@ == provider_url(*self),
    {
        match self {
            Provider::OpenAi(p) => p.endpoint(),
            Provider::Anthropic(p) => p.endpoint(),
        }
    }

    fn model_id(&self) -> (r: String)
        ensures
            r@ == provider_model(*self),
    {
        match self {
            Provider::OpenAi(p) => p.model_id(),
            Provider::Anthropic(p) => p.model_id(),
        }
    }

    fn timeout_ms(&self) -> (r: u64)
        ensures
            r == provider_timeout(*self),
    {
        match self {
            Provider::OpenAi(p) => p.timeout_ms(),
            Provider::Anthropic(p) => p.timeout_ms(),
        }
    }

    fn request_headers(&self) -> (r: Vec<(String, String)>)
        ensures
            header_texts(r@) == provider_headers(*self),
    {
        match self {
            Provider::OpenAi(p) => p.request_headers(),
            Provider::Anthropic(p) => p.request_headers(),
        }
    }

    fn request_fields(&self, system_prompt: &str, user_prompt: &str) -> (r: ChatRequest)
        ensures
            r.model@ == provider_model(*self),
            r.max_tokens == 500,
            match *self {
                Provider::OpenAi(_) => {
                    &&& r.system is None
                    &&& message_texts(r.messages@) == seq![("system"@, system_prompt@), ("user"@, user_prompt@)]
                },
                Provider::Anthropic(_) => {
                    &&& r.system matches Some(s) && s@ == system_prompt@
                    &&& message_texts(r.messages@) == seq![("user"@, user_prompt@)]
                },
            },
    {
        match self {
            Provider::OpenAi(p) => p.request_fields(system_prompt, user_prompt),
            Provider::Anthropic(p) => p.request_fields(system_prompt, user_prompt),
        }
    }

    fn reply_text(&self, reply: &serde_json::Value) -> (r: Option<String>)
        ensures
            opt_text(r) == provider_reply(*self, *reply),
    {
        match self {
            Provider::OpenAi(p) => p.reply_text(reply),
            Provider::Anthropic(p) => p.reply_text(reply),
        }
    }
}

/// Why a request did not reach an answer.
#[derive(Debug, Clone)]
pub enum SendFailure {
    /// The answer did not come in the time allowed.
    Timeout,
    /// The provider could not be connected to.
    Connect,
    /// Any other failure, with its description.
    Other(String),
}

/// Names a failed request: a timeout first, then a failed connection,
/// else the failure's own description.
pub fn classify_send_failure(is_timeout: bool, is_connect: bool, detail: String) -> (f: SendFailure)
    ensures
        is_timeout ==> f is Timeout,
        !is_timeout && is_connect ==> f is Connect,
        !is_timeout && !is_connect ==> f == SendFailure::Other(detail),
{
    if is_timeout {
        SendFailure::Timeout
    } else if is_connect {
        SendFailure::Connect
    } else {
        SendFailure::Other(detail)
    }
}

/// What a failed request to `url` is reported as.
pub open spec fn send_failure_text(f: SendFailure, url: Seq<char>) -> Seq<char> {
    match f {
        SendFailure::Timeout => "LLM timeout"@,
        SendFailure::Connect => "Cannot reach provider at "@ + url,
        SendFailure::Other(d) => "Provider request failed: "@ + d@,
    }
}

/// Reports a failed request to `url`.
pub fn send_failure_message(failure: &SendFailure, url: &str) -> (m: String)
    ensures
        m@ == send_failure_text(*failure, url@),
{
    match failure {
        SendFailure::Timeout => String::from_str("LLM timeout"),
        SendFailure::Connect => String::from_str("Cannot reach provider at ").concat(url),
        SendFailure::Other(d) => String::from_str("Provider request failed: ").concat(d.as_str()),
    }
}

/// Whether an HTTP status code is a success (the 2xx codes).
pub fn is_success_status(code: u16) -> (b: bool)
    ensures
        b == (200 <= code && code <= 299),
{
    200 <= code && code <= 299
}

/// Reports an answer whose status is not a success, with the status as it
/// displays (code and reason) and the answer's body.
pub fn status_failure_message(status: &str, body: &str) -> (m: String)
    ensures
        m@ == "Provider returned "@ + status@ + ": "@ + body@,
{
    String::from_str("Provider returned ").concat(status).concat(": ").concat(body)
}

/// Reports an answer whose body is not JSON.
pub fn decode_failure_message(detail: &str) -> (m: String)
    ensures
        m@ == "Bad JSON response: "@ + detail@,
{
    String::from_str("Bad JSON response: ").concat(detail)
}

/// The outcome of an exchange whose answer decoded: its reply text, or an
/// error where it holds none.
pub fn reply_result(text: Option<String>) -> (r: Result<String, String>)
    ensures
        match text {
            Some(t) => r == Ok::<String, String>(t),
            None => r matches Err(e) && e@ == "Empty response from LLM"@,
        },
{
    match text {
        Some(t) => Ok(t),
        None => Err(String::from_str("Empty response from LLM")),
    }
}


/// What came of a request, in the order the exchange meets it: the request
/// failed; else the answer's status was not a success; else its body did
/// not decode as JSON; else the reply text that the decoded answer holds.
#[derive(Debug, Clone)]
pub enum Answer {
    /// The request got no answer.
    Failed(SendFailure),
    /// The answer's status (as it displays) was not a success; its body.
    Refused { status: String, body: String },
    /// The answer's body did not decode, with the decoder's description.
    Undecodable(String),
    /// The answer decoded; the reply text it holds, if any.
    Decoded(Option<String>),
}

/// The result of an exchange with the provider at `url`.
pub open spec fn exchange_outcome(answer: Answer, url: Seq<char>) -> Result<Seq<char>, Seq<char>> {
    match answer {
        Answer::Failed(f) => Err(send_failure_text(f, url)),
        Answer::Refused { status, body } => Err("Provider returned "@ + status@ + ": "@ + body@),
        Answer::Undecodable(d) => Err("Bad JSON response: "@ + d@),
        Answer::Decoded(Some(t)) => Ok(t@),
        Answer::Decoded(None) => Err("Empty response from LLM"@),
    }
}

/// The text of a result of texts.
pub open spec fn result_text(r: Result<String, String>) -> Result<Seq<char>, Seq<char>> {
    match r {
        Ok(t) => Ok(t@),
        Err(e) => Err(e@),
    }
}

/// Turns what came of a request to `url` into the translation's result:
/// the reply text, or the message for the first thing that went wrong.
pub fn exchange_result(answer: Answer, url: &str) -> (r: Result<String, String>)
    ensures
        result_text(r) == exchange_outcome(answer, url@),
{
    match answer {
        Answer::Failed(f) => Err(send_failure_message(&f, url)),
        Answer::Refused { status, body } => Err(status_failure_message(status.as_str(), body.as_str())),
        Answer::Undecodable(d) => Err(decode_failure_message(d.as_str())),
        Answer::Decoded(text) => reply_result(text),
    }
}

/// An exchange gives a command only where the answer decoded and holds a
/// reply text, and then gives exactly that text.
pub proof fn exchange_succeeds_only_with_reply(answer: Answer, url: Seq<char>)
    ensures
        exchange_outcome(answer, url) is Ok <==> answer matches Answer::Decoded(Some(_)),
        answer matches Answer::Decoded(Some(t)) ==> exchange_outcome(answer, url) == Ok::<Seq<char>, Seq<char>>(t@),
{
}

/// A configuration that passes validation, and that holds a key where its
/// provider type is `anthropic`, always gives a provider.
pub proof fn validated_config_gives_provider(c: Config)
    requires
        validation(c) is Ok,
        c.provider_type@ == "anthropic"@ ==> !is_blank(c.api_key@),
    ensures
        provider_error(c) is None,
{
}

/// A configuration that passes validation never names an unknown provider
/// type: the only provider error left is a missing Anthropic key.
pub proof fn validated_config_names_known_provider(c: Config)
    requires
        validation(c) is Ok,
    ensures
        provider_error(c) is Some ==> c.provider_type@ == "anthropic"@ && is_blank(c.api_key@),
{
}


/// An endpoint URL is the base URL, less its trailing slashes, followed by
/// the path; so where the path begins with a slash, exactly one slash joins
/// them.
pub proof fn endpoint_joins_with_one_slash(base: Seq<char>, path: Seq<char>)
    ensures
        !has_suffix(
            endpoint_url(base, path).take(endpoint_url(base, path).len() - path.len()),
            seq!['/'],
        ),
        endpoint_url(base, path).skip(endpoint_url(base, path).len() - path.len()) == path,
{
    let t = trim_end_matches(base, seq!['/']);
    lemma_trim_end_matches_done(base, seq!['/']);
    let u = endpoint_url(base, path);
    assert(u.take(u.len() - path.len()) =~= t);
    assert(u.skip(u.len() - path.len()) =~= path);
}

} // verus!
