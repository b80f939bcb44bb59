use y2md::ollama::{find_model, is_pull_done};
use y2md::{HttpMethod, HttpOutcome, ModelCache, OllamaManager, Y2mdError};

#[test]
fn cache_lifetime() {
    let mut cache = ModelCache::new();
    assert_eq!(cache.cached_at(100), None);
    cache.update(vec!["llama3:8b".to_string()], 100);
    assert_eq!(cache.cached_at(129).map(|v| v.len()), Some(1));
    assert_eq!(cache.cached_at(130), None);
    assert!(cache.cached_at(50).is_some());
    cache.invalidate();
    assert_eq!(cache.cached_at(100), None);
}

#[test]
fn reading_the_model_list() {
    let mut m = OllamaManager::new(None);
    assert_eq!(m.endpoint, "http://localhost:11434");
    let q = m.tags_request();
    assert_eq!(q.method, HttpMethod::Get);
    assert_eq!(q.url, "http://localhost:11434/api/tags");
    let body = "{\"models\":[{\"name\":\"llama3:8b\"},{\"size\":1},{\"name\":\"mistral-nemo:12b\"}]}";
    let names = m
        .get_local_models(HttpOutcome::Reply { status: 200, body: body.to_string() }, 500)
        .unwrap();
    assert_eq!(names, vec!["llama3:8b".to_string(), "mistral-nemo:12b".to_string()]);
    assert_eq!(m.cache.cached_at(510), Some(&names));
    assert_eq!(
        m.get_local_models(HttpOutcome::Reply { status: 500, body: String::new() }, 600),
        Err(Y2mdError::LlmConfig("Ollama service not available".to_string()))
    );
    assert!(OllamaManager::is_available(&HttpOutcome::Reply { status: 404, body: String::new() }));
    assert!(!OllamaManager::is_available(&HttpOutcome::Failed("refused".to_string())));
}

#[test]
fn model_lookup() {
    let models = vec!["llama3:8b".to_string(), "mistral-nemo:12b".to_string()];
    assert_eq!(find_model(&models, "mistral"), Some(1));
    assert!(OllamaManager::is_model_available(&models, "llama3"));
    assert!(!OllamaManager::is_model_available(&models, "phi"));
    let info = OllamaManager::get_model_info(&models, "nemo");
    assert_eq!(info.name, "mistral-nemo:12b");
    assert!(info.available);
    let info = OllamaManager::get_model_info(&models, "phi");
    assert_eq!(info.name, "phi");
    assert!(!info.available);
}

#[test]
fn download_requests_and_progress() {
    let m = OllamaManager::new(Some("http://box:1".to_string()));
    let q = m.pull_request("phi");
    assert_eq!(q.url, "http://box:1/api/pull");
    assert_eq!(q.body.unwrap(), "{\"name\":\"phi\",\"stream\":true}");
    let d = m.delete_request("phi");
    assert_eq!(d.method, HttpMethod::Delete);
    assert_eq!(d.body.unwrap(), "{\"name\":\"phi\"}");
    assert!(is_pull_done("success"));
    assert!(is_pull_done("download complete"));
    assert!(!is_pull_done("pulling manifest"));
    let (statuses, done) = OllamaManager::pull_progress("{\"status\":\"pulling\"}\n\nnot json\n{\"status\":\"success\"}\n");
    assert_eq!(statuses, vec!["pulling".to_string(), "success".to_string()]);
    assert!(done);
    let (_, done) = OllamaManager::pull_progress("{\"status\":\"pulling\"}");
    assert!(!done);
}

#[test]
fn removal_and_download_outcomes() {
    let mut m = OllamaManager::new(None);
    m.cache.update(vec!["a".to_string()], 10);
    assert_eq!(
        m.remove_model(HttpOutcome::Reply { status: 404, body: String::new() }),
        Err(Y2mdError::LlmConfig("Failed to remove model: 404".to_string()))
    );
    assert_eq!(m.cache.last_updated, Some(10));
    assert_eq!(m.remove_model(HttpOutcome::Reply { status: 200, body: String::new() }), Ok(()));
    assert_eq!(m.cache.last_updated, None);
    assert_eq!(
        m.download_model(HttpOutcome::Reply { status: 500, body: "boom".to_string() }),
        Err(Y2mdError::LlmConfig("Failed to download model: 500 - boom".to_string()))
    );
    let (statuses, done) = m
        .download_model(HttpOutcome::Reply { status: 200, body: "{\"status\":\"success\"}".to_string() })
        .unwrap();
    assert_eq!(statuses, vec!["success".to_string()]);
    assert!(done);
}
