use y2md::dispatch::{interpret_reply, prepare_request};
use y2md::{
    validate_llm_config, AppConfig, CredentialManager, Dispatch, DispatchPhase, DispatchStep, EnvVar, HttpMethod,
    HttpOutcome, LlmConfig, LlmProvider, ProviderConfig, SecretStore, Y2mdError,
};

const NOW: u64 = 1_000_000;

fn creds() -> CredentialManager {
    CredentialManager::with_store(SecretStore::in_memory(), Vec::new())
}

fn work_config() -> AppConfig {
    let mut config = AppConfig::default();
    config
        .add_provider(ProviderConfig {
            name: "work".to_string(),
            provider_type: LlmProvider::OpenAI,
            model: "m1".to_string(),
            endpoint: None,
        })
        .unwrap();
    config.set_active_provider("work").unwrap();
    config
}

#[test]
fn end_to_end_hosted_provider() {
    let config = work_config();
    let mut cm = creds();
    cm.set_api_key("work", "sk-work").unwrap();
    let (mut d, step) = Dispatch::start(&config, &mut cm, "hello", None, NOW);
    let request = match step {
        DispatchStep::Send(h) => h,
        other => panic!("unexpected {:?}", other),
    };
    assert_eq!(d.phase, DispatchPhase::Generating);
    assert_eq!(request.method, HttpMethod::Post);
    assert_eq!(request.url, "https://api.openai.com/v1/chat/completions");
    assert_eq!(request.headers.len(), 1);
    assert_eq!(request.headers[0].name, "Authorization");
    assert_eq!(request.headers[0].value, "Bearer sk-work");
    assert_eq!(request.timeout_secs, Some(120));
    let body = request.body.unwrap();
    assert!(body.starts_with("{\"model\":\"m1\",\"messages\":[{\"role\":\"system\""));
    assert!(body.contains("Transcript:\\n\\nhello\"}]}"));
    let reply = "{\"choices\":[{\"message\":{\"role\":\"assistant\",\"content\":\"  # Hello\\n\\nWorld \\n\"}}]}";
    let done = d.advance(HttpOutcome::Reply { status: 200, body: reply.to_string() });
    assert_eq!(done, DispatchStep::Done(Ok("# Hello\n\nWorld".to_string())));
    assert_eq!(d.phase, DispatchPhase::Finished);
}

#[test]
fn hosted_provider_without_secret_fails_before_any_request() {
    let config = work_config();
    let mut cm = creds();
    let (d, step) = Dispatch::start(&config, &mut cm, "hello", None, NOW);
    assert_eq!(
        step,
        DispatchStep::Done(Err(Y2mdError::LlmConfig(
            "work provider requires an API key. Set one with: y2md llm set-key work".to_string()
        )))
    );
    assert_eq!(d.phase, DispatchPhase::Finished);
}

#[test]
fn local_probe_failure_stops_before_generation() {
    let config = AppConfig::default();
    let mut cm = creds();
    let (mut d, step) = Dispatch::start(&config, &mut cm, "hello", None, NOW);
    match step {
        DispatchStep::Send(h) => {
            assert_eq!(h.method, HttpMethod::Get);
            assert_eq!(h.url, "http://localhost:11434/api/tags");
        }
        other => panic!("unexpected {:?}", other),
    }
    assert_eq!(d.phase, DispatchPhase::Probing);
    let done = d.advance(HttpOutcome::Failed("connection refused".to_string()));
    assert_eq!(done, DispatchStep::Done(Err(Y2mdError::ServiceUnreachable("http://localhost:11434".to_string()))));
    assert_eq!(d.phase, DispatchPhase::Finished);
}

#[test]
fn local_provider_generates_after_probe() {
    let config = AppConfig::default();
    let mut cm = creds();
    let (mut d, _) = Dispatch::start(&config, &mut cm, "hi", None, NOW);
    let tags = "{\"models\":[{\"name\":\"llama3:8b\"},{\"name\":\"mistral-nemo:12b-instruct-2407-q5_0\"}]}";
    let step = d.advance(HttpOutcome::Reply { status: 200, body: tags.to_string() });
    match step {
        DispatchStep::Send(h) => {
            assert_eq!(h.url, "http://localhost:11434/api/generate");
            assert!(h.headers.is_empty());
            let body = h.body.unwrap();
            assert!(body.ends_with(",\"stream\":false}"));
            assert!(body.contains("Transcript:\\n\\nhi\\n        \\n        Formatted markdown:"));
        }
        other => panic!("unexpected {:?}", other),
    }
    let done = d.advance(HttpOutcome::Reply { status: 200, body: "{\"response\":\" text \"}".to_string() });
    assert_eq!(done, DispatchStep::Done(Ok("text".to_string())));
}

#[test]
fn transport_and_status_failures() {
    let config = work_config();
    let mut cm = creds();
    cm.set_api_key("work", "k").unwrap();
    let (mut d, _) = Dispatch::start(&config, &mut cm, "x", None, NOW);
    assert_eq!(
        d.clone().advance(HttpOutcome::TimedOut),
        DispatchStep::Done(Err(Y2mdError::Timeout("LLM request timed out after 2 minutes".to_string())))
    );
    assert_eq!(
        d.clone().advance(HttpOutcome::Failed("dns".to_string())),
        DispatchStep::Done(Err(Y2mdError::Network("dns".to_string())))
    );
    assert_eq!(
        d.clone().advance(HttpOutcome::Reply { status: 429, body: "slow down please".to_string() }),
        DispatchStep::Done(Err(Y2mdError::ProviderStatus { status: 429, body: "slow down please".to_string() }))
    );
    assert_eq!(
        d.clone().advance(HttpOutcome::Reply { status: 200, body: "{\"choices\":[]}".to_string() }),
        DispatchStep::Done(Err(Y2mdError::MalformedResponse("Invalid response format from OpenAI".to_string())))
    );
    assert_eq!(
        d.advance(HttpOutcome::Reply {
            status: 200,
            body: "{\"choices\":[{\"message\":{\"content\":\"   \"}}]}".to_string()
        }),
        DispatchStep::Done(Err(Y2mdError::EmptyResponse("OpenAI returned empty response".to_string())))
    );
}

#[test]
fn anthropic_wire_format() {
    let mut config = AppConfig::default();
    config
        .add_provider(ProviderConfig {
            name: "hosted".to_string(),
            provider_type: LlmProvider::Anthropic,
            model: "m2".to_string(),
            endpoint: Some("https://proxy.example/v1".to_string()),
        })
        .unwrap();
    let mut cm = CredentialManager::with_store(
        SecretStore::in_memory(),
        vec![EnvVar { name: "Y2MD_HOSTED_API_KEY".to_string(), value: "env-key".to_string() }],
    );
    let (mut d, step) = Dispatch::start(&config, &mut cm, "t", Some("hosted"), NOW);
    match step {
        DispatchStep::Send(h) => {
            assert_eq!(h.url, "https://proxy.example/v1/messages");
            assert_eq!(h.headers.len(), 2);
            assert_eq!(h.headers[0].name, "anthropic-version");
            assert_eq!(h.headers[0].value, "2023-06-01");
            assert_eq!(h.headers[1].name, "x-api-key");
            assert_eq!(h.headers[1].value, "env-key");
            assert!(h.body.unwrap().starts_with("{\"model\":\"m2\",\"max_tokens\":4096,"));
        }
        other => panic!("unexpected {:?}", other),
    }
    let done = d.advance(HttpOutcome::Reply {
        status: 200,
        body: "{\"content\":[{\"type\":\"text\",\"text\":\"ok\"}]}".to_string(),
    });
    assert_eq!(done, DispatchStep::Done(Ok("ok".to_string())));
}

#[test]
fn unknown_override_is_a_configuration_error() {
    let config = work_config();
    let mut cm = creds();
    let (_, step) = Dispatch::start(&config, &mut cm, "x", Some("nope"), NOW);
    assert_eq!(step, DispatchStep::Done(Err(Y2mdError::Config("Provider 'nope' not found".to_string()))));
}

#[test]
fn custom_provider_without_secret_omits_header() {
    let mut config = AppConfig::default();
    config.llm = LlmConfig {
        provider: LlmProvider::Custom,
        model: "local-model".to_string(),
        endpoint: Some("http://box:8080/v1".to_string()),
        api_key: None,
    };
    let mut cm = creds();
    let (_, step) = Dispatch::start(&config, &mut cm, "x", None, NOW);
    match step {
        DispatchStep::Send(h) => {
            assert_eq!(h.url, "http://box:8080/v1/chat/completions");
            assert!(h.headers.is_empty());
        }
        other => panic!("unexpected {:?}", other),
    }
}

#[test]
fn validation_rules() {
    let mut c = LlmConfig {
        provider: LlmProvider::OpenAI,
        model: "  ".to_string(),
        endpoint: None,
        api_key: Some("k".to_string()),
    };
    assert_eq!(
        validate_llm_config(&c, "openai"),
        Err(Y2mdError::LlmConfig("LLM model name cannot be empty".to_string()))
    );
    c.model = "gpt".to_string();
    assert_eq!(validate_llm_config(&c, "openai"), Ok(()));
    c.api_key = None;
    assert_eq!(
        validate_llm_config(&c, "openai"),
        Err(Y2mdError::LlmConfig("openai provider requires an API key. Set one with: y2md llm set-key openai".to_string()))
    );
    c.provider = LlmProvider::Custom;
    c.endpoint = Some(String::new());
    assert_eq!(
        validate_llm_config(&c, "custom"),
        Err(Y2mdError::LlmConfig("Custom provider requires an endpoint URL".to_string()))
    );
    c.provider = LlmProvider::LMStudio;
    let q = prepare_request(&c, "lmstudio", "abc").unwrap();
    assert_eq!(q.endpoint, "");
    assert!(q.prompt.ends_with("Transcript:\n\nabc"));
}

#[test]
fn reply_interpretation() {
    assert_eq!(interpret_reply(LlmProvider::Ollama, Some("\t x \n".to_string())), Ok("x".to_string()));
    assert_eq!(
        interpret_reply(LlmProvider::Ollama, Some(" ".to_string())),
        Err(Y2mdError::EmptyResponse("Ollama returned empty response".to_string()))
    );
    assert_eq!(
        interpret_reply(LlmProvider::Anthropic, None),
        Err(Y2mdError::MalformedResponse("Invalid response format from Anthropic".to_string()))
    );
}

#[test]
fn local_model_missing_stops_before_generation() {
    let config = AppConfig::default();
    let mut cm = creds();
    let (mut d, _) = Dispatch::start(&config, &mut cm, "hi", None, NOW);
    let tags = "{\"models\":[{\"name\":\"llama3:8b\"},{\"name\":\"phi3\"}]}";
    let done = d.clone().advance(HttpOutcome::Reply { status: 200, body: tags.to_string() });
    assert_eq!(
        done,
        DispatchStep::Done(Err(Y2mdError::LlmConfig(
            "Model 'mistral-nemo:12b-instruct-2407-q5_0' not found in Ollama. Available models: llama3:8b, phi3"
                .to_string()
        )))
    );
    assert_eq!(
        d.clone().advance(HttpOutcome::Reply { status: 200, body: "{}".to_string() }),
        DispatchStep::Done(Err(Y2mdError::LlmConfig(
            "Invalid response format from Ollama models endpoint".to_string()
        )))
    );
    match d.advance(HttpOutcome::Reply { status: 500, body: String::new() }) {
        DispatchStep::Send(h) => assert_eq!(h.url, "http://localhost:11434/api/generate"),
        other => panic!("unexpected {:?}", other),
    }
}
