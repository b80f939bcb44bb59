//! The enrichment core of a transcript tool: credential storage and
//! resolution, the OAuth token lifecycle and the device-code grant, the
//! named provider registry, and the dispatcher that validates a provider and
//! speaks its wire format. Network calls are left to the caller: the
//! device-code grant and the dispatcher are state machines that ask for
//! requests to be sent and read their outcomes.
use vstd::prelude::*;

pub mod error;
pub mod strings;
pub mod config;
pub mod http;
pub mod json;
pub mod oauth;
pub mod secret_store;
pub mod credentials;
pub mod dispatch;
pub mod formatting;
pub mod models;
pub mod diagnostics;
pub mod ollama;
pub mod video;
pub mod markdown;

pub use config::{AppConfig, LlmConfig, LlmProvider, ProviderConfig};
pub use credentials::{CredentialManager, EnvVar};
pub use diagnostics::{check_api_key, check_disk_space, Diagnostic, DiagnosticReport, DiagnosticStatus};
pub use dispatch::{validate_llm_config, Dispatch, DispatchPhase, DispatchStep, ProviderRequest};
pub use error::{AuthFailure, Y2mdError};
pub use formatting::{
    capitalize_first_letter, clean_transcript, escape_markdown, format_duration, format_paragraphs, srt_to_plain_text,
    format_transcript, should_add_punctuation,
};
pub use http::{Header, HttpMethod, HttpOutcome, HttpRequest};
pub use markdown::format_markdown;
pub use models::{ModelInfo, VideoMetadata};
pub use ollama::{ModelCache, OllamaManager};
pub use oauth::{DeviceAuthorization, DevicePoll, OAuthManager, OAuthToken, PollOutcome, PollStep, TokenGrant};
pub use secret_store::{SecretStore, StoredSecret};
pub use video::{extract_video_id, validate_youtube_url};

verus! {

} // verus!
