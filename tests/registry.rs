use y2md::{AppConfig, LlmProvider, ProviderConfig, Y2mdError};

fn entry(name: &str) -> ProviderConfig {
    ProviderConfig {
        name: name.to_string(),
        provider_type: LlmProvider::OpenAI,
        model: "m1".to_string(),
        endpoint: None,
    }
}

#[test]
fn add_duplicate_fails_and_changes_nothing() {
    let mut config = AppConfig::default();
    config.add_provider(entry("work")).unwrap();
    let before = config.clone();
    let mut other = entry("work");
    other.model = "m2".to_string();
    let r = config.add_provider(other);
    assert_eq!(r, Err(Y2mdError::Config("Provider 'work' already exists".to_string())));
    assert_eq!(config, before);
}

#[test]
fn removing_active_provider_clears_pointer() {
    let mut config = AppConfig::default();
    config.add_provider(entry("work")).unwrap();
    config.add_provider(entry("home")).unwrap();
    config.set_active_provider("work").unwrap();
    config.remove_provider("work").unwrap();
    assert_eq!(config.active_provider, None);
    assert_eq!(config.providers.len(), 1);
    assert_eq!(config.providers[0].name, "home");
}

#[test]
fn removing_other_provider_keeps_pointer() {
    let mut config = AppConfig::default();
    config.add_provider(entry("work")).unwrap();
    config.add_provider(entry("home")).unwrap();
    config.set_active_provider("work").unwrap();
    config.remove_provider("home").unwrap();
    assert_eq!(config.active_provider, Some("work".to_string()));
}

#[test]
fn lookups_and_errors() {
    let mut config = AppConfig::default();
    assert_eq!(
        config.get_active_provider().unwrap_err(),
        Y2mdError::Config("No active provider set".to_string())
    );
    assert_eq!(
        config.remove_provider("x"),
        Err(Y2mdError::Config("Provider 'x' not found".to_string()))
    );
    assert_eq!(
        config.set_active_provider("x"),
        Err(Y2mdError::Config("Provider 'x' not found".to_string()))
    );
    assert_eq!(config.active_provider, None);
    config.add_provider(entry("a")).unwrap();
    config.add_provider(entry("b")).unwrap();
    assert_eq!(config.get_provider("b").unwrap().name, "b");
    assert!(config.get_provider("c").is_err());
    config.set_active_provider("a").unwrap();
    assert_eq!(config.get_active_provider().unwrap().name, "a");
    let names: Vec<&str> = config.list_providers().iter().map(|p| p.name.as_str()).collect();
    assert_eq!(names, vec!["a", "b"]);
}

#[test]
fn defaults() {
    let config = AppConfig::default();
    assert_eq!(config.llm.provider, LlmProvider::Ollama);
    assert_eq!(config.llm.model, "mistral-nemo:12b-instruct-2407-q5_0");
    assert_eq!(config.default_language, "en");
    assert_eq!(config.paragraph_length, 4);
    assert!(config.prefer_captions);
    assert!(config.providers.is_empty());
    assert_eq!(LlmProvider::default(), LlmProvider::Ollama);
    assert_eq!(LlmProvider::Anthropic.name(), "anthropic");
}
