use vstd::prelude::*;

verus! {

/// Why a device-code authorization ended without a token.
#[derive(Clone, Debug, PartialEq, Eq)]
pub enum AuthFailure {
    /// The device code expired before the user approved it; the flow must restart.
    Expired,
    /// The user (or the provider) refused the authorization.
    Denied,
    /// The attempt budget ran out while the authorization was still pending.
    Timeout,
    /// The token endpoint answered with an error code that the flow does not know.
    Unknown(String),
}

/// Every failure that the library reports.
#[derive(Clone, Debug, PartialEq, Eq)]
pub enum Y2mdError {
    InvalidUrl(String),
    VideoIdExtraction,
    /// A transport failure other than a timeout, with its cause.
    Network(String),
    /// A request that ran past its time limit.
    Timeout(String),
    Io(String),
    /// Missing or invalid settings, an unknown provider name, an unsupported grant.
    Config(String),
    /// The secure storage could not be read or written, or holds a corrupt record.
    SecretStore(String),
    Whisper(String),
    /// A provider configuration that fails validation before any request is made.
    LlmConfig(String),
    /// The local model service did not answer its liveness probe.
    ServiceUnreachable(String),
    /// A provider answered with a non-success status; the body is kept verbatim.
    ProviderStatus { status: u16, body: String },
    /// A provider answered without the field that carries the generated text.
    MalformedResponse(String),
    /// A provider answered with text that is empty once trimmed.
    EmptyResponse(String),
    /// A device-code authorization that ended without a token.
    Authorization(AuthFailure),
    ConfigParse(String),
}

} // verus!
