use vstd::prelude::*;

use crate::config::{has_name, AppConfig, LlmConfig, LlmProvider, ProviderConfig};
use crate::credentials::{lemma_resolved_secret, missing_secret_message, resolved_secret, CredentialManager};
use crate::error::Y2mdError;
use crate::http::{header, is_success_status, status_is_success, Header, HttpMethod, HttpOutcome, HttpRequest};
use crate::json::{json_quote, json_string_literal, json_text_at, json_text_at_of};
use crate::ollama::{any_contains, join_names, joined, model_names, names_contain, names_prefix};
use crate::json::json_len_at_of;
use crate::secret_store::opt_view;
use crate::strings::{concat, concat3, trim, trim_of};

verus! {

/// The time limit of a generation request, in seconds.
pub const LLM_TIMEOUT_SECS: u64 = 120;

pub open spec fn default_endpoint(kind: LlmProvider) -> Seq<char> {
    match kind {
        LlmProvider::Ollama => "http://localhost:11434"@,
        LlmProvider::Anthropic => "https://api.anthropic.com/v1"@,
        _ => "https://api.openai.com/v1"@,
    }
}

/// The name under which a provider's errors are reported.
pub open spec fn provider_label(kind: LlmProvider) -> Seq<char> {
    match kind {
        LlmProvider::Ollama => "Ollama"@,
        LlmProvider::Anthropic => "Anthropic"@,
        LlmProvider::Custom => "custom LLM"@,
        _ => "OpenAI"@,
    }
}

fn label(kind: LlmProvider) -> (r: String)
    ensures
        r@ == provider_label(kind),
{
    match kind {
        LlmProvider::Ollama => "Ollama".to_owned(),
        LlmProvider::Anthropic => "Anthropic".to_owned(),
        LlmProvider::Custom => "custom LLM".to_owned(),
        _ => "OpenAI".to_owned(),
    }
}

pub open spec fn prompt_head() -> Seq<char> {
    "Please format the following transcript into well-structured markdown. \n        Keep the original content but improve readability by:\n        - Organizing into logical paragraphs\n        - Fixing any grammar or punctuation issues\n        - Removing filler words if appropriate\n        - Maintaining the original meaning and tone\n        \n        Transcript:\n\n"@
}

pub open spec fn system_message() -> Seq<char> {
    "You are a helpful assistant that formats transcripts into well-structured markdown."@
}

/// What follows the transcript in the local kind's single-turn prompt.
pub open spec fn completion_tail() -> Seq<char> {
    "\n        \n        Formatted markdown:"@
}

/// The prompt sent to a provider kind for a transcript.
pub open spec fn prompt_for(kind: LlmProvider, transcript: Seq<char>) -> Seq<char> {
    if kind == LlmProvider::Ollama {
        prompt_head() + transcript + completion_tail()
    } else {
        prompt_head() + transcript
    }
}

pub open spec fn empty_model_message() -> Seq<char> {
    "LLM model name cannot be empty"@
}

pub open spec fn custom_endpoint_message() -> Seq<char> {
    "Custom provider requires an endpoint URL"@
}

/// The validation error of a provider configuration named `name`, if any:
/// a model that is blank; a hosted kind without a secret; a custom kind
/// without an endpoint.
pub open spec fn validation_error(c: LlmConfig, name: Seq<char>) -> Option<Seq<char>> {
    validation_error_of(c.provider, c.model@, opt_view(c.endpoint), c.api_key is Some, name)
}

/// The validation error of a provider of kind `kind` with the given model
/// and endpoint, with or without a secret.
pub open spec fn validation_error_of(
    kind: LlmProvider,
    model: Seq<char>,
    endpoint: Option<Seq<char>>,
    has_secret: bool,
    name: Seq<char>,
) -> Option<Seq<char>> {
    if trim_of(model).len() == 0 {
        Some(empty_model_message())
    } else if kind.spec_is_hosted() && !has_secret {
        Some(missing_secret_message(name))
    } else if kind == LlmProvider::Custom && (endpoint is None || endpoint->0.len() == 0) {
        Some(custom_endpoint_message())
    } else {
        None
    }
}

/// Checks the fields that the provider kind needs, before any request.
pub fn validate_llm_config(llm_config: &LlmConfig, provider_name: &str) -> (r: Result<(), Y2mdError>)
    ensures
        match validation_error(*llm_config, provider_name@) {
            None => r is Ok,
            Some(m) => r matches Err(Y2mdError::LlmConfig(e)) && e@ == m,
        },
{
    let model = trim(llm_config.model.as_str());
    if model.as_str().unicode_len() == 0 {
        return Err(Y2mdError::LlmConfig("LLM model name cannot be empty".to_owned()));
    }
    if llm_config.provider.is_hosted() && llm_config.api_key.is_none() {
        let m = concat3(provider_name, " provider requires an API key. Set one with: y2md llm set-key ", provider_name);
        return Err(Y2mdError::LlmConfig(m));
    }
    if llm_config.provider == LlmProvider::Custom {
        let missing = match &llm_config.endpoint {
            None => true,
            Some(e) => e.as_str().unicode_len() == 0,
        };
        if missing {
            return Err(Y2mdError::LlmConfig("Custom provider requires an endpoint URL".to_owned()));
        }
    }
    Ok(())
}

/// A validated provider request: the kind, the name it was resolved under,
/// the model, the endpoint, the secret (if any) and the prompt.
#[derive(Clone, Debug, PartialEq, Eq)]
pub struct ProviderRequest {
    pub kind: LlmProvider,
    pub name: String,
    pub model: String,
    pub endpoint: String,
    pub secret: Option<String>,
    pub prompt: String,
}

impl ProviderRequest {
    pub open spec fn wf(&self) -> bool {
        self.kind.spec_is_hosted() ==> self.secret is Some
    }
}

/// The request built from a configuration, named `name`, for a transcript.
pub open spec fn request_matches(q: ProviderRequest, c: LlmConfig, name: Seq<char>, transcript: Seq<char>) -> bool {
    &&& q.kind == c.provider
    &&& q.name@ == name
    &&& q.model == c.model
    &&& q.endpoint@ == (match c.endpoint {
        Some(e) => e@,
        None => default_endpoint(c.provider),
    })
    &&& q.secret == c.api_key
    &&& q.prompt@ == prompt_for(c.provider, transcript)
}

/// Validates a configuration and builds its request; a configuration that
/// fails validation builds nothing.
pub fn prepare_request(llm_config: &LlmConfig, provider_name: &str, transcript: &str) -> (r: Result<
    ProviderRequest,
    Y2mdError,
>)
    ensures
        match validation_error(*llm_config, provider_name@) {
            None => r matches Ok(q) && request_matches(q, *llm_config, provider_name@, transcript@) && q.wf(),
            Some(m) => r matches Err(Y2mdError::LlmConfig(e)) && e@ == m,
        },
{
    match validate_llm_config(llm_config, provider_name) {
        Err(e) => return Err(e),
        Ok(()) => {},
    }
    let endpoint = match &llm_config.endpoint {
        Some(e) => e.clone(),
        None => match llm_config.provider {
            LlmProvider::Ollama => "http://localhost:11434".to_owned(),
            LlmProvider::Anthropic => "https://api.anthropic.com/v1".to_owned(),
            _ => "https://api.openai.com/v1".to_owned(),
        },
    };
    let prompt = concat(
        "Please format the following transcript into well-structured markdown. \n        Keep the original content but improve readability by:\n        - Organizing into logical paragraphs\n        - Fixing any grammar or punctuation issues\n        - Removing filler words if appropriate\n        - Maintaining the original meaning and tone\n        \n        Transcript:\n\n",
        transcript,
    );
    let prompt = if llm_config.provider == LlmProvider::Ollama {
        concat(prompt.as_str(), "\n        \n        Formatted markdown:")
    } else {
        prompt
    };
    Ok(ProviderRequest {
        kind: llm_config.provider,
        name: provider_name.to_owned(),
        model: llm_config.model.clone(),
        endpoint,
        secret: llm_config.api_key.clone(),
        prompt,
    })
}

pub open spec fn generation_path(kind: LlmProvider) -> Seq<char> {
    match kind {
        LlmProvider::Ollama => "/api/generate"@,
        LlmProvider::Anthropic => "/messages"@,
        _ => "/chat/completions"@,
    }
}

/// The JSON body of a generation request.
pub open spec fn generation_body(kind: LlmProvider, model: Seq<char>, prompt: Seq<char>) -> Seq<char> {
    match kind {
        LlmProvider::Ollama => "{\"model\":"@ + json_string_literal(model) + ",\"prompt\":"@ + json_string_literal(
            prompt,
        ) + ",\"stream\":false}"@,
        LlmProvider::Anthropic => "{\"model\":"@ + json_string_literal(model)
            + ",\"max_tokens\":4096,\"messages\":[{\"role\":\"user\",\"content\":"@ + json_string_literal(prompt)
            + "}]}"@,
        _ => "{\"model\":"@ + json_string_literal(model)
            + ",\"messages\":[{\"role\":\"system\",\"content\":"@ + json_string_literal(system_message())
            + "},{\"role\":\"user\",\"content\":"@ + json_string_literal(prompt) + "}]}"@,
    }
}

pub open spec fn header_is(h: Header, name: Seq<char>, value: Seq<char>) -> bool {
    h.name@ == name && h.value@ == value
}

/// The headers of a generation request: none for the local kind; the
/// version and the key for the second hosted kind; a bearer authorization
/// for the others, left out when there is no secret.
pub open spec fn generation_headers(kind: LlmProvider, secret: Option<String>, hs: Seq<Header>) -> bool {
    match kind {
        LlmProvider::Ollama => hs.len() == 0,
        LlmProvider::Anthropic => match secret {
            Some(k) => hs.len() == 2 && header_is(hs[0], "anthropic-version"@, "2023-06-01"@) && header_is(
                hs[1],
                "x-api-key"@,
                k@,
            ),
            None => hs.len() == 1 && header_is(hs[0], "anthropic-version"@, "2023-06-01"@),
        },
        _ => match secret {
            Some(k) => hs.len() == 1 && header_is(hs[0], "Authorization"@, "Bearer "@ + k@),
            None => hs.len() == 0,
        },
    }
}

/// `h` is the generation request of `q`.
pub open spec fn is_generation_request(h: HttpRequest, q: ProviderRequest) -> bool {
    &&& h.method == HttpMethod::Post
    &&& h.url@ == q.endpoint@ + generation_path(q.kind)
    &&& generation_headers(q.kind, q.secret, h.headers@)
    &&& h.body is Some && h.body->0@ == generation_body(q.kind, q.model@, q.prompt@)
    &&& h.timeout_secs == Some(LLM_TIMEOUT_SECS)
}

/// `h` is the liveness probe of the local service at `q`'s endpoint.
pub open spec fn is_probe_request(h: HttpRequest, q: ProviderRequest) -> bool {
    &&& h.method == HttpMethod::Get
    &&& h.url@ == q.endpoint@ + "/api/tags"@
    &&& h.headers@.len() == 0
    &&& h.body is None
    &&& h.timeout_secs is None
}

/// The liveness probe of the local service.
pub fn probe_request(q: &ProviderRequest) -> (r: HttpRequest)
    ensures
        is_probe_request(r, *q),
{
    HttpRequest {
        method: HttpMethod::Get,
        url: concat(q.endpoint.as_str(), "/api/tags"),
        headers: Vec::new(),
        body: None,
        timeout_secs: None,
    }
}

/// The generation request in the provider's wire format.
pub fn generation_request(q: &ProviderRequest) -> (r: HttpRequest)
    ensures
        is_generation_request(r, *q),
{
    let model = json_quote(q.model.as_str());
    let prompt = json_quote(q.prompt.as_str());
    let mut headers: Vec<Header> = Vec::new();
    let (path, body) = match q.kind {
        LlmProvider::Ollama => {
            let a = concat3("{\"model\":", model.as_str(), ",\"prompt\":");
            ("/api/generate", concat3(a.as_str(), prompt.as_str(), ",\"stream\":false}"))
        },
        LlmProvider::Anthropic => {
            headers.push(header("anthropic-version", "2023-06-01"));
            match &q.secret {
                Some(k) => headers.push(header("x-api-key", k.as_str())),
                None => {},
            }
            let a = concat3(
                "{\"model\":",
                model.as_str(),
                ",\"max_tokens\":4096,\"messages\":[{\"role\":\"user\",\"content\":",
            );
            ("/messages", concat3(a.as_str(), prompt.as_str(), "}]}"))
        },
        _ => {
            match &q.secret {
                Some(k) => {
                    let v = concat("Bearer ", k.as_str());
                    headers.push(header("Authorization", v.as_str()));
                },
                None => {},
            }
            let system = json_quote(
                "You are a helpful assistant that formats transcripts into well-structured markdown.",
            );
            let a = concat3("{\"model\":", model.as_str(), ",\"messages\":[{\"role\":\"system\",\"content\":");
            let b = concat3(a.as_str(), system.as_str(), "},{\"role\":\"user\",\"content\":");
            ("/chat/completions", concat3(b.as_str(), prompt.as_str(), "}]}"))
        },
    };
    HttpRequest {
        method: HttpMethod::Post,
        url: concat(q.endpoint.as_str(), path),
        headers,
        body: Some(body),
        timeout_secs: Some(LLM_TIMEOUT_SECS),
    }
}

/// Where a provider's JSON answer carries the generated text, as a JSON
/// Pointer: `response` for the local kind, `content[0].text` for the second
/// hosted kind, `choices[0].message.content` for the others.
pub open spec fn reply_pointer(kind: LlmProvider) -> Seq<char> {
    match kind {
        LlmProvider::Ollama => "/response"@,
        LlmProvider::Anthropic => "/content/0/text"@,
        _ => "/choices/0/message/content"@,
    }
}

/// The generated text of a provider's answer.
pub open spec fn reply_text_of(kind: LlmProvider, body: Seq<char>) -> Option<Seq<char>> {
    json_text_at_of(body, reply_pointer(kind))
}

/// The generated text that a provider's JSON answer carries, by kind.
pub fn extract_reply_text(kind: LlmProvider, body: &str) -> (r: Option<String>)
    ensures
        opt_view(r) == reply_text_of(kind, body@),
{
    match kind {
        LlmProvider::Ollama => json_text_at(body, "/response"),
        LlmProvider::Anthropic => json_text_at(body, "/content/0/text"),
        _ => json_text_at(body, "/choices/0/message/content"),
    }
}

/// What a successful answer's text gives: none is a malformed answer; text
/// that is empty once trimmed is an empty answer; else the trimmed text.
pub open spec fn reply_result(kind: LlmProvider, text: Option<Seq<char>>, r: Result<String, Y2mdError>) -> bool {
    match text {
        None => r matches Err(Y2mdError::MalformedResponse(m)) && m@ == "Invalid response format from "@
            + provider_label(kind),
        Some(t) => if trim_of(t).len() == 0 {
            r matches Err(Y2mdError::EmptyResponse(m)) && m@ == provider_label(kind) + " returned empty response"@
        } else {
            r matches Ok(s) && s@ == trim_of(t)
        },
    }
}

/// Reads the text extracted from a successful answer.
pub fn interpret_reply(kind: LlmProvider, text: Option<String>) -> (r: Result<String, Y2mdError>)
    ensures
        reply_result(kind, opt_view(text), r),
{
    let name = label(kind);
    match text {
        None => Err(Y2mdError::MalformedResponse(concat("Invalid response format from ", name.as_str()))),
        Some(t) => {
            let trimmed = trim(t.as_str());
            if trimmed.as_str().unicode_len() == 0 {
                Err(Y2mdError::EmptyResponse(concat(name.as_str(), " returned empty response")))
            } else {
                Ok(trimmed)
            }
        },
    }
}

/// The error when the local service does not list the model.
pub open spec fn model_missing_message(model: Seq<char>, names: Seq<Seq<char>>) -> Seq<char> {
    "Model '"@ + model + "' not found in Ollama. Available models: "@ + joined(names, ", "@)
}

pub open spec fn bad_model_list_message() -> Seq<char> {
    "Invalid response format from Ollama models endpoint"@
}

pub open spec fn timeout_message() -> Seq<char> {
    "LLM request timed out after 2 minutes"@
}

/// The stage a dispatch is in.
#[derive(Clone, Copy, Debug, PartialEq, Eq, Structural)]
pub enum DispatchPhase {
    /// Waiting for the outcome of the local service's liveness probe.
    Probing,
    /// Waiting for the outcome of the generation request.
    Generating,
    Finished,
}

/// What the caller of a dispatch does next.
#[derive(Debug, PartialEq, Eq)]
pub enum DispatchStep {
    /// Send this request and report its outcome to `advance`.
    Send(HttpRequest),
    /// The dispatch is over.
    Done(Result<String, Y2mdError>),
}

/// One call of the provider dispatcher, as a state machine: it resolves and
/// validates the provider, asks for the requests to be sent, and reads their
/// outcomes.
#[derive(Clone, Debug, PartialEq, Eq)]
pub struct Dispatch {
    pub request: ProviderRequest,
    pub phase: DispatchPhase,
}

/// The entry named `name`, as (name, kind, model, endpoint).
pub open spec fn entry_named(s: Seq<ProviderConfig>, name: Seq<char>) -> Option<
    (Seq<char>, LlmProvider, Seq<char>, Option<Seq<char>>),
> {
    if has_name(s, name) {
        let i = choose|i: int| 0 <= i < s.len() && (#[trigger] s[i]).name@ == name;
        Some((s[i].name@, s[i].provider_type, s[i].model@, opt_view(s[i].endpoint)))
    } else {
        None
    }
}

/// The provider that a dispatch uses: the named override, else the active
/// registry entry, else the single-provider settings under the kind's name.
pub open spec fn selection(c: AppConfig, provider_override: Option<Seq<char>>) -> Option<
    (Seq<char>, LlmProvider, Seq<char>, Option<Seq<char>>),
> {
    match provider_override {
        Some(n) => entry_named(c.providers@, n),
        None => match c.active_provider {
            Some(a) => entry_named(c.providers@, a@),
            None => Some((c.llm.provider.spec_name(), c.llm.provider, c.llm.model@, opt_view(c.llm.endpoint))),
        },
    }
}

/// The name that a dispatch resolves its provider under.
pub open spec fn selected_name(c: AppConfig, provider_override: Option<Seq<char>>) -> Seq<char> {
    match selection(c, provider_override) {
        Some(sel) => sel.0,
        None => Seq::empty(),
    }
}

/// The selection takes its secret from the configuration itself.
pub open spec fn uses_config_key(c: AppConfig, provider_override: Option<Seq<char>>) -> bool {
    provider_override is None && c.active_provider is None && c.llm.api_key is Some
}

/// The secret of `name` is settled by the contracts at `now`.
pub open spec fn resolvable(creds: CredentialManager, name: Seq<char>, now: u64) -> bool {
    resolved_secret(creds, name, now) is Some
}

/// The secret that a dispatch uses where it is known: the configured key of
/// the single-provider settings, none for the local kind, else the secret
/// that the credentials resolve at `now`.
pub open spec fn known_secret(
    c: AppConfig,
    provider_override: Option<Seq<char>>,
    creds: CredentialManager,
    now: u64,
) -> Option<Seq<char>> {
    if uses_config_key(c, provider_override) {
        opt_view(c.llm.api_key)
    } else if selection(c, provider_override) matches Some(sel) && sel.1 == LlmProvider::Ollama {
        None
    } else {
        resolved_secret(creds, selected_name(c, provider_override), now)->0
    }
}

/// No secret resolves for `name` at `now`: the contracts settle the secret,
/// and it is none.
pub open spec fn no_secret(creds: CredentialManager, name: Seq<char>, now: u64) -> bool {
    resolved_secret(creds, name, now) == Some(None::<Seq<char>>)
}

proof fn lemma_entry_named(s: Seq<ProviderConfig>, i: int, name: Seq<char>)
    requires
        crate::config::names_unique(s),
        0 <= i < s.len(),
        s[i].name@ == name,
    ensures
        entry_named(s, name) == Some((s[i].name@, s[i].provider_type, s[i].model@, opt_view(s[i].endpoint))),
{
    let j = choose|j: int| 0 <= j < s.len() && (#[trigger] s[j]).name@ == name;
    if j != i {
        assert(s[i].name@ != s[j].name@);
    }
}

impl Dispatch {
    /// The first step of a validated request: the probe for the local kind,
    /// the generation request for the others.
    pub fn begin(request: ProviderRequest) -> (r: (Dispatch, DispatchStep))
        ensures
            r.0.request == request,
            request.kind == LlmProvider::Ollama ==> r.0.phase == DispatchPhase::Probing && (r.1 matches DispatchStep::Send(
                h,
            ) && is_probe_request(h, request)),
            request.kind != LlmProvider::Ollama ==> r.0.phase == DispatchPhase::Generating && (r.1 matches DispatchStep::Send(
                h,
            ) && is_generation_request(h, request)),
    {
        if request.kind == LlmProvider::Ollama {
            let h = probe_request(&request);
            (Dispatch { request, phase: DispatchPhase::Probing }, DispatchStep::Send(h))
        } else {
            let h = generation_request(&request);
            (Dispatch { request, phase: DispatchPhase::Generating }, DispatchStep::Send(h))
        }
    }

    /// Starts formatting `transcript` at time `now`: resolves the provider
    /// and its secret, validates them and asks for the first request. Every
    /// failure up to here ends the dispatch before any request.
    pub fn start(
        config: &AppConfig,
        creds: &mut CredentialManager,
        transcript: &str,
        provider_override: Option<&str>,
        now: u64,
    ) -> (r: (Dispatch, DispatchStep))
        requires
            config.wf(),
            old(creds).wf(),
        ensures
            *final(creds) == *old(creds),
            r.1 matches DispatchStep::Done(res) ==> res is Err && r.0.phase == DispatchPhase::Finished,
            r.1 matches DispatchStep::Send(h) ==> {
                &&& r.0.request.wf()
                &&& selection(*config, opt_view_str(provider_override)) matches Some(sel)
                &&& r.0.request.name@ == sel.0
                &&& r.0.request.kind == sel.1
                &&& r.0.request.model@ == sel.2
                &&& r.0.request.endpoint@ == (match sel.3 {
                    Some(e) => e,
                    None => default_endpoint(sel.1),
                })
                &&& r.0.request.prompt@ == prompt_for(sel.1, transcript@)
                &&& (r.0.request.kind == LlmProvider::Ollama ==> r.0.phase == DispatchPhase::Probing
                    && is_probe_request(h, r.0.request))
                &&& (r.0.request.kind != LlmProvider::Ollama ==> r.0.phase == DispatchPhase::Generating
                    && is_generation_request(h, r.0.request))
            },
            selection(*config, opt_view_str(provider_override)) is None ==> r.1 matches DispatchStep::Done(
                Err(Y2mdError::Config(_)),
            ),
            match selection(*config, opt_view_str(provider_override)) {
                Some(sel) => resolvable(*old(creds), sel.0, now) ==> match validation_error_of(
                sel.1,
                sel.2,
                sel.3,
                known_secret(*config, opt_view_str(provider_override), *old(creds), now) is Some,
                sel.0,
            ) {
                None => r.1 is Send && opt_view(r.0.request.secret) == known_secret(
                    *config,
                    opt_view_str(provider_override),
                    *old(creds),
                    now,
                ),
                    Some(m) => r.1 matches DispatchStep::Done(Err(Y2mdError::LlmConfig(e))) && e@ == m,
                },
                None => true,
            },
            (selection(*config, opt_view_str(provider_override)) matches Some(sel) && trim_of(sel.2).len() > 0
                && sel.1.spec_is_hosted() && no_secret(*old(creds), sel.0, now) && !uses_config_key(
                *config,
                opt_view_str(provider_override),
            )) ==> (r.1 matches DispatchStep::Done(Err(Y2mdError::LlmConfig(m))) && m@
                == missing_secret_message(selected_name(*config, opt_view_str(provider_override)))),
    {
        let placeholder = ProviderRequest {
            kind: config.llm.provider,
            name: String::new(),
            model: String::new(),
            endpoint: String::new(),
            secret: None,
            prompt: String::new(),
        };
        let (name, kind, model, endpoint, configured_key) = match provider_override {
            Some(n) => match config.get_provider(n) {
                Ok(p) => {
                    proof {
                        let i = choose|i: int| 0 <= i < config.providers@.len() && config.providers@[i] == *p;
                        lemma_entry_named(config.providers@, i, n@);
                    }
                    (p.name.clone(), p.provider_type, p.model.clone(), p.endpoint.clone(), None)
                },
                Err(e) => return (Dispatch { request: placeholder, phase: DispatchPhase::Finished }, DispatchStep::Done(Err(e))),
            },
            None => match &config.active_provider {
                Some(_) => match config.get_active_provider() {
                    Ok(p) => {
                        proof {
                            let a = config.active_provider->0;
                            let i = choose|i: int| 0 <= i < config.providers@.len() && config.providers@[i] == *p;
                            lemma_entry_named(config.providers@, i, a@);
                        }
                        (p.name.clone(), p.provider_type, p.model.clone(), p.endpoint.clone(), None)
                    },
                    Err(e) => return (Dispatch { request: placeholder, phase: DispatchPhase::Finished }, DispatchStep::Done(Err(e))),
                },
                None => (
                    config.llm.provider.name(),
                    config.llm.provider,
                    config.llm.model.clone(),
                    config.llm.endpoint.clone(),
                    config.llm.api_key.clone(),
                ),
            },
        };
        let secret = match configured_key {
            Some(k) => Some(k),
            None => {
                if kind == LlmProvider::Ollama {
                    None
                } else {
                    let resolved = creds.get_valid_token_at(name.as_str(), &kind, now);
                    proof {
                        if resolved_secret(*old(creds), name@, now) is Some {
                            lemma_resolved_secret(*old(creds), name@, kind, now, resolved);
                        }
                    }
                    match resolved {
                        Ok(s) => s,
                        Err(e) => return (Dispatch { request: placeholder, phase: DispatchPhase::Finished }, DispatchStep::Done(Err(e))),
                    }
                }
            },
        };
        let resolved = LlmConfig { provider: kind, model, endpoint, api_key: secret };
        match prepare_request(&resolved, name.as_str(), transcript) {
            Ok(q) => Self::begin(q),
            Err(e) => (Dispatch { request: placeholder, phase: DispatchPhase::Finished }, DispatchStep::Done(Err(e))),
        }
    }

    /// Takes the outcome of the request last asked for. A failed probe ends
    /// the dispatch with the service unreachable, before any generation
    /// request; a successful probe whose model list lacks the model ends it
    /// with a configuration error; a timeout and other transport failures end it with errors of
    /// their own; a non-success status keeps the body verbatim.
    pub fn advance(&mut self, outcome: HttpOutcome) -> (r: DispatchStep)
        requires
            old(self).phase != DispatchPhase::Finished,
        ensures
            final(self).request == old(self).request,
            old(self).phase == DispatchPhase::Probing ==> match outcome {
                HttpOutcome::Reply { status, body } => if !is_success_status(status) {
                    final(self).phase == DispatchPhase::Generating && (r matches DispatchStep::Send(h)
                        && is_generation_request(h, old(self).request))
                } else {
                    match json_len_at_of(body@, "/models"@) {
                        None => final(self).phase == DispatchPhase::Finished && (r matches DispatchStep::Done(
                            Err(Y2mdError::LlmConfig(m)),
                        ) && m@ == bad_model_list_message()),
                        Some(n) => if any_contains(names_prefix(body@, n as nat), old(self).request.model@) {
                            final(self).phase == DispatchPhase::Generating && (r matches DispatchStep::Send(h)
                                && is_generation_request(h, old(self).request))
                        } else {
                            final(self).phase == DispatchPhase::Finished && (r matches DispatchStep::Done(
                                Err(Y2mdError::LlmConfig(m)),
                            ) && m@ == model_missing_message(
                                old(self).request.model@,
                                names_prefix(body@, n as nat),
                            ))
                        },
                    }
                },
                _ => final(self).phase == DispatchPhase::Finished && (r matches DispatchStep::Done(
                    Err(Y2mdError::ServiceUnreachable(e)),
                ) && e@ == old(self).request.endpoint@),
            },
            old(self).phase == DispatchPhase::Generating ==> final(self).phase == DispatchPhase::Finished && match outcome {
                HttpOutcome::TimedOut => r matches DispatchStep::Done(Err(Y2mdError::Timeout(m))) && m@
                    == timeout_message(),
                HttpOutcome::Failed(m) => r == DispatchStep::Done(Err(Y2mdError::Network(m))),
                HttpOutcome::Reply { status, body } => if is_success_status(status) {
                    r matches DispatchStep::Done(res) && reply_result(
                        old(self).request.kind,
                        reply_text_of(old(self).request.kind, body@),
                        res,
                    )
                } else {
                    r == DispatchStep::Done(Err(Y2mdError::ProviderStatus { status, body }))
                },
            },
    {
        match self.phase {
            DispatchPhase::Probing => match outcome {
                HttpOutcome::Reply { status, body } => {
                    if status_is_success(status) {
                        match model_names(body.as_str()) {
                            None => {
                                self.phase = DispatchPhase::Finished;
                                return DispatchStep::Done(
                                    Err(
                                        Y2mdError::LlmConfig(
                                            "Invalid response format from Ollama models endpoint".to_owned(),
                                        ),
                                    ),
                                );
                            },
                            Some(names) => {
                                if !names_contain(&names, self.request.model.as_str()) {
                                    self.phase = DispatchPhase::Finished;
                                    let list = join_names(&names, ", ");
                                    let head = concat3(
                                        "Model '",
                                        self.request.model.as_str(),
                                        "' not found in Ollama. Available models: ",
                                    );
                                    let m = concat(head.as_str(), list.as_str());
                                    return DispatchStep::Done(Err(Y2mdError::LlmConfig(m)));
                                }
                            },
                        }
                    }
                    self.phase = DispatchPhase::Generating;
                    DispatchStep::Send(generation_request(&self.request))
                },
                _ => {
                    self.phase = DispatchPhase::Finished;
                    DispatchStep::Done(Err(Y2mdError::ServiceUnreachable(self.request.endpoint.clone())))
                },
            },
            _ => {
                self.phase = DispatchPhase::Finished;
                match outcome {
                    HttpOutcome::TimedOut => DispatchStep::Done(
                        Err(Y2mdError::Timeout("LLM request timed out after 2 minutes".to_owned())),
                    ),
                    HttpOutcome::Failed(m) => DispatchStep::Done(Err(Y2mdError::Network(m))),
                    HttpOutcome::Reply { status, body } => {
                        if status_is_success(status) {
                            let text = extract_reply_text(self.request.kind, body.as_str());
                            let res = interpret_reply(self.request.kind, text);
                            DispatchStep::Done(res)
                        } else {
                            DispatchStep::Done(Err(Y2mdError::ProviderStatus { status, body }))
                        }
                    },
                }
            },
        }
    }
}

/// The view of an optional string slice.
pub open spec fn opt_view_str(o: Option<&str>) -> Option<Seq<char>> {
    match o {
        Some(s) => Some(s@),
        None => None,
    }
}

} // verus!
