use y2md::{CredentialManager, EnvVar, LlmProvider, OAuthToken, SecretStore, Y2mdError};

fn manager(env: Vec<(&str, &str)>) -> CredentialManager {
    let environment = env
        .into_iter()
        .map(|(n, v)| EnvVar { name: n.to_string(), value: v.to_string() })
        .collect();
    CredentialManager::with_store(SecretStore::in_memory(), environment)
}

#[test]
fn environment_wins_over_store_and_leaves_it_alone() {
    let mut cm = manager(vec![("Y2MD_OPENAI_API_KEY", "from-env")]);
    cm.set_api_key("openai", "stored").unwrap();
    let store_before = cm.store.clone();
    assert_eq!(cm.get_api_key("openai").unwrap(), Some("from-env".to_string()));
    assert_eq!(cm.store, store_before);
    assert!(cm.has_api_key("openai"));
}

#[test]
fn environment_name_is_upper_cased() {
    assert_eq!(CredentialManager::api_key_env_name("work"), "Y2MD_WORK_API_KEY");
    assert_eq!(CredentialManager::api_key_env_name("Deep-Seek"), "Y2MD_DEEP-SEEK_API_KEY");
    let cm = manager(vec![("Y2MD_WORK_API_KEY", "k"), ("Y2MD_WORK_API_KEY", "second")]);
    assert_eq!(cm.get_api_key("work").unwrap(), Some("k".to_string()));
}

#[test]
fn set_then_get_round_trip() {
    let mut cm = manager(vec![("OTHER", "x")]);
    cm.set_api_key("anthropic", "sk-ant").unwrap();
    assert_eq!(cm.get_api_key("anthropic").unwrap(), Some("sk-ant".to_string()));
    cm.set_api_key("anthropic", "sk-new").unwrap();
    assert_eq!(cm.get_api_key("anthropic").unwrap(), Some("sk-new".to_string()));
    assert_eq!(cm.get_api_key("openai").unwrap(), None);
}

#[test]
fn delete_absent_key_is_ok() {
    let mut cm = manager(vec![]);
    assert_eq!(cm.delete_api_key("openai"), Ok(()));
    assert_eq!(cm.get_api_key("openai").unwrap(), None);
    cm.set_api_key("openai", "k").unwrap();
    cm.delete_api_key("openai").unwrap();
    assert_eq!(cm.get_api_key("openai").unwrap(), None);
    assert!(!cm.has_api_key("openai"));
}

fn token(expires_at: Option<u64>, refresh: Option<&str>) -> OAuthToken {
    OAuthToken {
        access_token: "acc\"ess".to_string(),
        refresh_token: refresh.map(|s| s.to_string()),
        expires_at,
        token_type: "Bearer".to_string(),
    }
}

#[test]
fn oauth_token_round_trip_beside_api_key() {
    let mut cm = manager(vec![]);
    cm.set_api_key("openai", "key").unwrap();
    let t = token(Some(1234567890), Some("ref"));
    cm.set_oauth_token("openai", &t).unwrap();
    assert_eq!(cm.get_oauth_token("openai").unwrap(), Some(t.clone()));
    assert_eq!(cm.get_api_key("openai").unwrap(), Some("key".to_string()));
    assert!(cm.has_oauth_token("openai"));
    let bare = token(None, None);
    cm.set_oauth_token("openai", &bare).unwrap();
    assert_eq!(cm.get_oauth_token("openai").unwrap(), Some(bare));
    cm.delete_oauth_token("openai").unwrap();
    assert_eq!(cm.get_oauth_token("openai").unwrap(), None);
    assert_eq!(cm.delete_oauth_token("openai"), Ok(()));
}

#[test]
fn corrupt_token_is_an_error() {
    let mut cm = manager(vec![]);
    cm.store.set("y2md", "openai_oauth_token", "not json").unwrap();
    assert_eq!(
        cm.get_oauth_token("openai"),
        Err(Y2mdError::SecretStore("Failed to parse OAuth token".to_string()))
    );
    assert!(!cm.has_oauth_token("openai"));
}

#[test]
fn token_encoding_is_json() {
    let t = token(Some(42), None);
    assert_eq!(
        y2md::credentials::encode_token(&t),
        "{\"access_token\":\"acc\\\"ess\",\"refresh_token\":null,\"expires_at\":42,\"token_type\":\"Bearer\"}"
    );
}

#[test]
fn valid_token_precedence() {
    let now = 1_000_000;
    let mut cm = manager(vec![]);
    cm.set_api_key("openai", "api").unwrap();
    assert_eq!(cm.get_valid_token_at("openai", &LlmProvider::OpenAI, now).unwrap(), Some("api".to_string()));

    cm.set_oauth_token("openai", &token(Some(now + 4000), Some("r"))).unwrap();
    assert_eq!(
        cm.get_valid_token_at("openai", &LlmProvider::OpenAI, now).unwrap(),
        Some("acc\"ess".to_string())
    );

    cm.set_oauth_token("openai", &token(Some(now - 1), None)).unwrap();
    assert_eq!(cm.get_valid_token_at("openai", &LlmProvider::OpenAI, now).unwrap(), Some("api".to_string()));

    cm.set_oauth_token("openai", &token(Some(now + 100), Some("r"))).unwrap();
    assert_eq!(
        cm.get_valid_token_at("openai", &LlmProvider::OpenAI, now),
        Err(Y2mdError::Config("OpenAI OAuth refresh not yet implemented".to_string()))
    );
    assert_eq!(
        cm.get_valid_token_at("openai", &LlmProvider::Custom, now),
        Err(Y2mdError::Config("OAuth not supported for provider type: custom".to_string()))
    );

    cm.set_oauth_token("openai", &token(Some(now + 100), None)).unwrap();
    assert_eq!(
        cm.get_valid_token_at("openai", &LlmProvider::OpenAI, now).unwrap(),
        Some("acc\"ess".to_string())
    );
}

#[test]
fn llm_config_for_registry_entry() {
    let now = 1_000_000;
    let mut cm = manager(vec![]);
    let config = y2md::AppConfig::default();
    let entry = y2md::ProviderConfig {
        name: "work".to_string(),
        provider_type: LlmProvider::Anthropic,
        model: "m1".to_string(),
        endpoint: Some("https://proxy".to_string()),
    };
    let c = config.get_llm_config_for_provider_at(&entry, &cm, now).unwrap();
    assert_eq!(c.api_key, None);
    assert_eq!(c.model, "m1");
    assert_eq!(c.endpoint, Some("https://proxy".to_string()));
    cm.set_api_key("work", "k").unwrap();
    assert_eq!(config.get_llm_config_for_provider_at(&entry, &cm, now).unwrap().api_key, Some("k".to_string()));
    cm.set_oauth_token("work", &token(Some(now - 5), Some("r"))).unwrap();
    assert_eq!(
        config.get_llm_config_for_provider_at(&entry, &cm, now),
        Err(Y2mdError::Config(
            "OAuth token expired for provider 'work'. Please login again: y2md auth login work".to_string()
        ))
    );
}

#[test]
fn token_decision_without_store() {
    let now = 5_000;
    let mut cm = manager(vec![("Y2MD_P_API_KEY", "env")]);
    assert_eq!(
        cm.valid_token_from("p", &LlmProvider::OpenAI, Some(token(Some(now + 301), Some("r"))), now).unwrap(),
        Some("acc\"ess".to_string())
    );
    assert_eq!(
        cm.valid_token_from("p", &LlmProvider::Anthropic, Some(token(Some(now + 300), Some("r"))), now),
        Err(Y2mdError::Config("Anthropic OAuth refresh not yet implemented".to_string()))
    );
    assert_eq!(
        cm.valid_token_from("p", &LlmProvider::OpenAI, Some(token(Some(now), None)), now).unwrap(),
        Some("env".to_string())
    );
    assert_eq!(cm.valid_token_from("p", &LlmProvider::OpenAI, None, now).unwrap(), Some("env".to_string()));
}

#[test]
fn json_escaping_matches_serde() {
    let text = "q\"b\\s/\u{1}\u{8}\t\n\u{c}\r\u{1f}\u{7f}é\u{2028}";
    let t = OAuthToken {
        access_token: text.to_string(),
        refresh_token: None,
        expires_at: None,
        token_type: "Bearer".to_string(),
    };
    let expected = format!(
        "{{\"access_token\":{},\"refresh_token\":null,\"expires_at\":null,\"token_type\":\"Bearer\"}}",
        serde_json::to_string(text).unwrap()
    );
    assert_eq!(y2md::credentials::encode_token(&t), expected);
    let mut cm = manager(vec![]);
    cm.set_oauth_token("p", &t).unwrap();
    assert_eq!(cm.get_oauth_token("p").unwrap(), Some(t));
}
