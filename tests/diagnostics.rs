use y2md::diagnostics::{check_ffmpeg, check_whisper_models, check_ytdlp, get_installation_help};
use y2md::{
    check_api_key, check_disk_space, CredentialManager, Diagnostic, DiagnosticReport, DiagnosticStatus, LlmProvider,
    ModelInfo, SecretStore,
};

#[test]
fn report_flags() {
    let mut report = DiagnosticReport::new();
    assert!(!report.has_errors());
    assert!(!report.has_warnings());
    report.system.push(Diagnostic::warning("a".to_string(), "b".to_string(), None));
    assert!(report.has_warnings());
    assert!(!report.has_errors());
    report.llm_providers.push(Diagnostic::error("c".to_string(), "d".to_string(), Some("fix".to_string())));
    assert!(report.has_errors());
    let s = Diagnostic::success("n".to_string(), "m".to_string());
    assert_eq!(s.status, DiagnosticStatus::Success);
    assert_eq!(s.fix_command, None);
    assert_eq!(Diagnostic::info("n".to_string(), "m".to_string()).status, DiagnosticStatus::Info);
}

#[test]
fn api_key_check() {
    let mut cm = CredentialManager::with_store(SecretStore::in_memory(), Vec::new());
    let d = check_api_key("OpenAI", &LlmProvider::OpenAI, &cm);
    assert_eq!(d.name, "OpenAI API Key");
    assert_eq!(d.status, DiagnosticStatus::Info);
    assert_eq!(d.message, "not set");
    cm.set_api_key("openai", "k").unwrap();
    let d = check_api_key("OpenAI", &LlmProvider::OpenAI, &cm);
    assert_eq!(d.status, DiagnosticStatus::Success);
    assert_eq!(d.message, "configured");
}

#[test]
fn disk_space() {
    let d = check_disk_space(None);
    assert_eq!(d.status, DiagnosticStatus::Info);
    assert_eq!(d.message, "could not determine");
    let d = check_disk_space(Some(536870912));
    assert_eq!(d.status, DiagnosticStatus::Warning);
    assert_eq!(d.message, "0.5 GB available");
    assert_eq!(d.fix_command, Some("Low disk space - transcriptions may fail".to_string()));
    let d = check_disk_space(Some(5 * 1073741824 + 536870912));
    assert_eq!(d.status, DiagnosticStatus::Success);
    assert_eq!(d.message, format!("{:.0} GB available", 5.5f64));
    let d = check_disk_space(Some(1073741824 * 3 / 2 + 1));
    assert_eq!(d.message, "2 GB available");
}

#[test]
fn human_sizes() {
    let m = |size: Option<u64>| ModelInfo { name: "x".to_string(), size, available: true }.size_human();
    assert_eq!(m(None), None);
    assert_eq!(m(Some(512)), Some("512 bytes".to_string()));
    assert_eq!(m(Some(1536)), Some("1.5 KB".to_string()));
    assert_eq!(m(Some(7 * 1073741824)), Some("7.0 GB".to_string()));
    for bytes in [1024u64, 1100, 1075, 2048 + 51, 1048576 * 3 + 104858, 1073741824 + 53687091, 4_500_000_000] {
        let expected = if bytes >= 1073741824 {
            format!("{:.1} GB", bytes as f64 / 1073741824.0)
        } else if bytes >= 1048576 {
            format!("{:.1} MB", bytes as f64 / 1048576.0)
        } else {
            format!("{:.1} KB", bytes as f64 / 1024.0)
        };
        assert_eq!(m(Some(bytes)), Some(expected));
    }
}

#[test]
fn tool_checks() {
    let d = check_ytdlp(Some("2024.08.06\n"), "linux");
    assert_eq!(d.status, DiagnosticStatus::Success);
    assert_eq!(d.message, "v2024.08.06 (installed)");
    let d = check_ytdlp(None, "linux");
    assert_eq!(d.status, DiagnosticStatus::Error);
    assert_eq!(d.fix_command, Some(get_installation_help("yt-dlp", "linux")));
    assert!(get_installation_help("yt-dlp", "linux").starts_with("Ubuntu/Debian:  sudo apt install yt-dlp\n"));
    assert!(get_installation_help("ffmpeg", "windows").starts_with("More info:      https://ffmpeg.org"));
    assert_eq!(get_installation_help("curl", "linux"), "Please install manually");
    let d = check_ffmpeg(Some("ffmpeg version 6.1.1 Copyright\nbuilt with gcc"), "macos");
    assert_eq!(d.message, "v6.1.1 (installed)");
    let d = check_ffmpeg(Some("ffmpeg"), "macos");
    assert_eq!(d.message, "vunknown (installed)");
    assert_eq!(check_whisper_models(true, true).message, "base.en, base (installed)");
    assert_eq!(check_whisper_models(false, true).message, "base (installed)");
    let d = check_whisper_models(false, false);
    assert_eq!(d.status, DiagnosticStatus::Warning);
    assert_eq!(d.fix_command, Some("Run ./download_model.sh to download Whisper models".to_string()));
}

#[test]
fn suggestions_in_order() {
    let mut report = DiagnosticReport::new();
    report.system.push(Diagnostic::warning("s".to_string(), "m".to_string(), Some("third".to_string())));
    report.dependencies.push(Diagnostic::error("a".to_string(), "m".to_string(), Some("first".to_string())));
    report.dependencies.push(Diagnostic::success("b".to_string(), "m".to_string()));
    report.configuration.push(Diagnostic::error("c".to_string(), "m".to_string(), Some("second".to_string())));
    assert_eq!(report.suggestions(), vec!["first".to_string(), "second".to_string(), "third".to_string()]);
    assert!(DiagnosticReport::new().suggestions().is_empty());
}
