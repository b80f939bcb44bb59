use vstd::prelude::*;

use crate::config::{AppConfig, LlmConfig, LlmProvider, ProviderConfig};
use crate::error::Y2mdError;
use crate::json::{json_quote, json_string_literal, json_text_at, json_text_at_of, json_u64_at, json_u64_at_of};
use crate::oauth::{unix_now, OAuthToken, REFRESH_THRESHOLD_SECS};
use crate::secret_store::{opt_view, store_fault, SecretStore};
use crate::strings::{concat, concat3, decimal, to_decimal, to_upper, upper_of};

verus! {

/// One variable of the process environment.
#[derive(Clone, Debug, PartialEq, Eq)]
pub struct EnvVar {
    pub name: String,
    pub value: String,
}

/// The value of the first variable of `env` named `name`.
pub open spec fn env_value(env: Seq<EnvVar>, name: Seq<char>) -> Option<Seq<char>>
    decreases env.len(),
{
    if env.len() == 0 {
        None
    } else if env[0].name@ == name {
        Some(env[0].value@)
    } else {
        env_value(env.drop_first(), name)
    }
}

/// The environment variable that overrides the stored key of a provider.
pub open spec fn api_key_var(provider: Seq<char>) -> Seq<char> {
    "Y2MD_"@ + upper_of(provider) + "_API_KEY"@
}

/// The account under which a provider's OAuth token is stored.
pub open spec fn token_account(provider: Seq<char>) -> Seq<char> {
    provider + "_oauth_token"@
}

/// The JSON text under which a token is stored.
pub open spec fn token_json(t: OAuthToken) -> Seq<char> {
    "{\"access_token\":"@ + json_string_literal(t.access_token@) + ",\"refresh_token\":"@ + match t.refresh_token {
        Some(r) => json_string_literal(r@),
        None => "null"@,
    } + ",\"expires_at\":"@ + match t.expires_at {
        Some(e) => decimal(e as nat),
        None => "null"@,
    } + ",\"token_type\":"@ + json_string_literal(t.token_type@) + "}"@
}

/// The token made of the fields read back from a stored record, which needs
/// an access token and a token type.
pub open spec fn token_from_record(
    access_token: Option<String>,
    refresh_token: Option<String>,
    expires_at: Option<u64>,
    token_type: Option<String>,
) -> Option<OAuthToken> {
    match (access_token, token_type) {
        (Some(a), Some(t)) => Some(OAuthToken { access_token: a, refresh_token, expires_at, token_type: t }),
        _ => None,
    }
}

pub fn token_from_fields(
    access_token: Option<String>,
    refresh_token: Option<String>,
    expires_at: Option<u64>,
    token_type: Option<String>,
) -> (r: Option<OAuthToken>)
    ensures
        r == token_from_record(access_token, refresh_token, expires_at, token_type),
{
    match (access_token, token_type) {
        (Some(a), Some(t)) => Some(OAuthToken { access_token: a, refresh_token, expires_at, token_type: t }),
        _ => None,
    }
}

/// Encodes a token as the JSON text under which it is stored.
pub fn encode_token(t: &OAuthToken) -> (r: String)
    ensures
        r@ == token_json(*t),
{
    let access = json_quote(t.access_token.as_str());
    let refresh = match &t.refresh_token {
        Some(x) => json_quote(x.as_str()),
        None => "null".to_owned(),
    };
    let expires = match t.expires_at {
        Some(e) => to_decimal(e),
        None => "null".to_owned(),
    };
    let kind = json_quote(t.token_type.as_str());
    let a = concat3("{\"access_token\":", access.as_str(), ",\"refresh_token\":");
    let b = concat3(a.as_str(), refresh.as_str(), ",\"expires_at\":");
    let c = concat3(b.as_str(), expires.as_str(), ",\"token_type\":");
    concat3(c.as_str(), kind.as_str(), "}")
}

/// The access token of a stored record.
pub open spec fn record_access(s: Seq<char>) -> Option<Seq<char>> {
    json_text_at_of(s, "/access_token"@)
}

/// The refresh token of a stored record.
pub open spec fn record_refresh(s: Seq<char>) -> Option<Seq<char>> {
    json_text_at_of(s, "/refresh_token"@)
}

/// The expiry of a stored record.
pub open spec fn record_expiry(s: Seq<char>) -> Option<u64> {
    json_u64_at_of(s, "/expires_at"@)
}

/// The token type of a stored record.
pub open spec fn record_type(s: Seq<char>) -> Option<Seq<char>> {
    json_text_at_of(s, "/token_type"@)
}

/// A stored record decodes: it has an access token and a token type.
pub open spec fn decodable(s: Seq<char>) -> bool {
    record_access(s) is Some && record_type(s) is Some
}

/// `t` is the token that the stored record `s` decodes to.
pub open spec fn decodes_to(s: Seq<char>, t: OAuthToken) -> bool {
    &&& record_access(s) == Some(t.access_token@)
    &&& record_refresh(s) == opt_view(t.refresh_token)
    &&& record_expiry(s) == t.expires_at
    &&& record_type(s) == Some(t.token_type@)
}

pub open spec fn decode_result(s: Seq<char>, r: Result<OAuthToken, Y2mdError>) -> bool {
    if decodable(s) {
        r matches Ok(t) && decodes_to(s, t)
    } else {
        r matches Err(Y2mdError::SecretStore(m)) && m@ == "Failed to parse OAuth token"@
    }
}

/// Decodes a stored token; a record that is not one is a storage error.
pub fn decode_token(text: &str) -> (r: Result<OAuthToken, Y2mdError>)
    ensures
        decode_result(text@, r),
{
    let parsed = token_from_fields(
        json_text_at(text, "/access_token"),
        json_text_at(text, "/refresh_token"),
        json_u64_at(text, "/expires_at"),
        json_text_at(text, "/token_type"),
    );
    match parsed {
        Some(t) => Ok(t),
        None => Err(Y2mdError::SecretStore("Failed to parse OAuth token".to_owned())),
    }
}

pub open spec fn refresh_message(kind: LlmProvider) -> Seq<char> {
    match kind {
        LlmProvider::OpenAI => "OpenAI OAuth refresh not yet implemented"@,
        LlmProvider::Anthropic => "Anthropic OAuth refresh not yet implemented"@,
        _ => "OAuth not supported for provider type: "@ + kind.spec_name(),
    }
}

pub open spec fn login_again_message(name: Seq<char>) -> Seq<char> {
    "OAuth token expired for provider '"@ + name + "'. Please login again: y2md auth login "@ + name
}

/// A token with this expiry has expired at `now`.
pub open spec fn expired_by(expires_at: Option<u64>, now: u64) -> bool {
    match expires_at {
        Some(e) => now >= e,
        None => false,
    }
}

/// A token with this expiry is due for a refresh at `now`.
pub open spec fn refresh_due_by(expires_at: Option<u64>, now: u64) -> bool {
    match expires_at {
        Some(e) => now + REFRESH_THRESHOLD_SECS >= e,
        None => false,
    }
}

/// What the secret of `name` resolves to at `now`, given a token with this
/// expiry, refresh token (or not) and access token: a due refresh that can
/// be tried fails, as no kind supports the exchange; an unexpired token gives
/// its access token; otherwise the API key is used.
pub open spec fn token_secret_result(
    cm: CredentialManager,
    name: Seq<char>,
    kind: LlmProvider,
    expires_at: Option<u64>,
    has_refresh: bool,
    access: Seq<char>,
    now: u64,
    r: Result<Option<String>, Y2mdError>,
) -> bool {
    if refresh_due_by(expires_at, now) && has_refresh {
        r matches Err(Y2mdError::Config(m)) && m@ == refresh_message(kind)
    } else if !expired_by(expires_at, now) {
        r matches Ok(Some(k)) && k@ == access
    } else {
        cm.api_key_result(name, r)
    }
}

/// What `get_valid_token_at` returns for `name` at `now`: with an in-memory
/// store, the resolution of the stored token record (a record that does not
/// decode is a storage error), else of the API key; errors are storage or
/// configuration errors.
pub open spec fn valid_token_result(
    cm: CredentialManager,
    name: Seq<char>,
    kind: LlmProvider,
    now: u64,
    r: Result<Option<String>, Y2mdError>,
) -> bool {
    &&& cm.store is Memory ==> match cm.store.stored(cm.service_name@, token_account(name)) {
        None => cm.api_key_result(name, r),
        Some(s) => if decodable(s) {
            token_secret_result(
                cm,
                name,
                kind,
                record_expiry(s),
                record_refresh(s) is Some,
                record_access(s)->0,
                now,
                r,
            )
        } else {
            r matches Err(Y2mdError::SecretStore(m)) && m@ == "Failed to parse OAuth token"@
        },
    }
    &&& r is Err ==> (r matches Err(Y2mdError::SecretStore(_)) || r matches Err(Y2mdError::Config(_)))
}

/// The secret that `get_valid_token_at` resolves for `name` at `now`, where
/// the contracts settle it: the store is in memory and holds no token record
/// that fails to decode or asks for a refresh. Then it is the unexpired
/// token's access token, else the API key (or none).
pub open spec fn resolved_secret(
    cm: CredentialManager,
    name: Seq<char>,
    now: u64,
) -> Option<Option<Seq<char>>> {
    if !(cm.store is Memory) {
        None
    } else {
        match cm.store.stored(cm.service_name@, token_account(name)) {
            None => Some(cm.api_key_of(name)),
            Some(s) => if !decodable(s) || (refresh_due_by(record_expiry(s), now) && record_refresh(s) is Some) {
                None
            } else if !expired_by(record_expiry(s), now) {
                Some(record_access(s))
            } else {
                Some(cm.api_key_of(name))
            },
        }
    }
}

/// Where the secret is settled, `get_valid_token_at` returns it.
pub proof fn lemma_resolved_secret(
    cm: CredentialManager,
    name: Seq<char>,
    kind: LlmProvider,
    now: u64,
    r: Result<Option<String>, Y2mdError>,
)
    requires
        valid_token_result(cm, name, kind, now, r),
        resolved_secret(cm, name, now) is Some,
    ensures
        r matches Ok(o) && opt_view(o) == resolved_secret(cm, name, now)->0,
{
}

/// What `get_llm_config_for_provider_at` returns for entry `p` at `now`.
pub open spec fn llm_config_result(
    cm: CredentialManager,
    p: ProviderConfig,
    now: u64,
    r: Result<LlmConfig, Y2mdError>,
) -> bool {
    &&& r matches Ok(c) ==> c.provider == p.provider_type && c.model == p.model && c.endpoint == p.endpoint
    &&& cm.store is Memory ==> match cm.store.stored(cm.service_name@, token_account(p.name@)) {
        None => key_fallback(cm, p.name@, r),
        Some(s) => if !decodable(s) {
            r matches Err(Y2mdError::SecretStore(_))
        } else if !expired_by(record_expiry(s), now) {
            r matches Ok(c) && c.api_key is Some && c.api_key->0@ == record_access(s)->0
        } else if record_refresh(s) is Some {
            r matches Err(Y2mdError::Config(m)) && m@ == login_again_message(p.name@)
        } else {
            key_fallback(cm, p.name@, r)
        },
    }
}

/// The configuration takes the API key that `get_api_key` resolves.
pub open spec fn key_fallback(cm: CredentialManager, name: Seq<char>, r: Result<LlmConfig, Y2mdError>) -> bool {
    match r {
        Ok(c) => opt_view(c.api_key) == cm.api_key_of(name),
        Err(e) => cm.api_key_result(name, Err(e)),
    }
}

/// Resolves and stores the secrets of providers: API keys, which an
/// environment variable overrides, and OAuth tokens.
#[derive(Clone, Debug, PartialEq, Eq)]
pub struct CredentialManager {
    /// The service under which every secret of the application is stored.
    pub service_name: String,
    pub store: SecretStore,
    /// The process environment, as the caller read it.
    pub environment: Vec<EnvVar>,
}

impl CredentialManager {
    pub open spec fn wf(&self) -> bool {
        self.store.wf()
    }

    /// The key that `get_api_key` resolves for `provider`: the environment's
    /// value, else what the store holds.
    pub open spec fn api_key_of(&self, provider: Seq<char>) -> Option<Seq<char>> {
        match env_value(self.environment@, api_key_var(provider)) {
            Some(v) => Some(v),
            None => self.store.stored(self.service_name@, provider),
        }
    }

    /// The result of `get_api_key` is the resolved key where it is known:
    /// always with an environment override, and always with an in-memory store.
    pub open spec fn api_key_result(&self, provider: Seq<char>, r: Result<Option<String>, Y2mdError>) -> bool {
        &&& (env_value(self.environment@, api_key_var(provider)) is Some || self.store is Memory) ==> (
        r matches Ok(o) && opt_view(o) == self.api_key_of(provider))
        &&& store_fault(r)
    }

    /// The platform's credential store and no environment.
    pub fn new() -> (r: Self)
        ensures
            r.service_name@ == "y2md"@,
            r.store is Keychain,
            r.environment@.len() == 0,
            r.wf(),
    {
        CredentialManager {
            service_name: "y2md".to_owned(),
            store: SecretStore::Keychain,
            environment: Vec::new(),
        }
    }

    /// A manager over the given store and environment.
    pub fn with_store(store: SecretStore, environment: Vec<EnvVar>) -> (r: Self)
        requires
            store.wf(),
        ensures
            r.service_name@ == "y2md"@,
            r.store == store,
            r.environment == environment,
            r.wf(),
    {
        CredentialManager { service_name: "y2md".to_owned(), store, environment }
    }

    /// The name of the environment variable that overrides a provider's key.
    pub fn api_key_env_name(provider_name: &str) -> (r: String)
        ensures
            r@ == api_key_var(provider_name@),
    {
        let upper = to_upper(provider_name);
        concat3("Y2MD_", upper.as_str(), "_API_KEY")
    }

    fn env_lookup(&self, name: &str) -> (r: Option<String>)
        ensures
            opt_view(r) == env_value(self.environment@, name@),
    {
        let key = name.to_owned();
        let ghost env = self.environment@;
        let mut i: usize = 0;
        assert(env.subrange(0, env.len() as int) =~= env);
        while i < self.environment.len()
            invariant
                0 <= i <= env.len(),
                env == self.environment@,
                key@ == name@,
                env_value(env, name@) == env_value(env.subrange(i as int, env.len() as int), name@),
            decreases env.len() - i,
        {
            let ghost rest = env.subrange(i as int, env.len() as int);
            assert(rest[0] == env[i as int]);
            assert(rest.drop_first() =~= env.subrange(i + 1, env.len() as int));
            if self.environment[i].name == key {
                return Some(self.environment[i].value.clone());
            }
            i = i + 1;
        }
        assert(env.subrange(i as int, env.len() as int).len() == 0);
        None
    }

    /// The API key of a provider: the environment variable's value when it is
    /// set, whatever the store holds; else the stored key, or none.
    pub fn get_api_key(&self, provider_name: &str) -> (r: Result<Option<String>, Y2mdError>)
        requires
            self.wf(),
        ensures
            self.api_key_result(provider_name@, r),
    {
        let var = Self::api_key_env_name(provider_name);
        match self.env_lookup(var.as_str()) {
            Some(v) => Ok(Some(v)),
            None => self.store.get(self.service_name.as_str(), provider_name),
        }
    }

    /// Stores a provider's API key; the environment is left alone.
    pub fn set_api_key(&mut self, provider_name: &str, api_key: &str) -> (r: Result<(), Y2mdError>)
        requires
            old(self).wf(),
        ensures
            final(self).wf(),
            final(self).service_name == old(self).service_name,
            final(self).environment == old(self).environment,
            old(self).store is Memory ==> {
                &&& r is Ok
                &&& final(self).store is Memory
                &&& final(self).store.stored(old(self).service_name@, provider_name@) == Some(api_key@)
                &&& forall|s: Seq<char>, a: Seq<char>|
                    !(s == old(self).service_name@ && a == provider_name@) ==> #[trigger] final(self).store.stored(s, a)
                        == old(self).store.stored(s, a)
            },
            old(self).store is Keychain ==> final(self).store is Keychain,
            r is Err ==> r matches Err(Y2mdError::SecretStore(_)),
    {
        self.store.set(self.service_name.as_str(), provider_name, api_key)
    }

    /// Removes a provider's stored API key; an absent key is no error.
    pub fn delete_api_key(&mut self, provider_name: &str) -> (r: Result<(), Y2mdError>)
        requires
            old(self).wf(),
        ensures
            final(self).wf(),
            final(self).service_name == old(self).service_name,
            final(self).environment == old(self).environment,
            old(self).store is Memory ==> {
                &&& r is Ok
                &&& final(self).store is Memory
                &&& final(self).store.stored(old(self).service_name@, provider_name@) is None
                &&& forall|s: Seq<char>, a: Seq<char>|
                    !(s == old(self).service_name@ && a == provider_name@) ==> #[trigger] final(self).store.stored(s, a)
                        == old(self).store.stored(s, a)
            },
            old(self).store is Keychain ==> final(self).store is Keychain,
            r is Err ==> r matches Err(Y2mdError::SecretStore(_)),
    {
        self.store.delete(self.service_name.as_str(), provider_name)
    }

    /// Whether a key resolves for the provider; a storage fault counts as none.
    pub fn has_api_key(&self, provider_name: &str) -> (r: bool)
        requires
            self.wf(),
        ensures
            (env_value(self.environment@, api_key_var(provider_name@)) is Some || self.store is Memory)
                ==> r == self.api_key_of(provider_name@) is Some,
    {
        match self.get_api_key(provider_name) {
            Ok(Some(_)) => true,
            _ => false,
        }
    }

    /// The stored OAuth token of a provider, or none; a record that does not
    /// decode is an error, not an absence.
    pub fn get_oauth_token(&self, provider_name: &str) -> (r: Result<Option<OAuthToken>, Y2mdError>)
        requires
            self.wf(),
        ensures
            self.store is Memory ==> match self.store.stored(self.service_name@, token_account(provider_name@)) {
                None => r == Ok::<Option<OAuthToken>, Y2mdError>(None),
                Some(s) => if decodable(s) {
                    r matches Ok(Some(t)) && decodes_to(s, t)
                } else {
                    r matches Err(Y2mdError::SecretStore(m)) && m@ == "Failed to parse OAuth token"@
                },
            },
            r is Err ==> r matches Err(Y2mdError::SecretStore(_)),
    {
        let account = concat(provider_name, "_oauth_token");
        match self.store.get(self.service_name.as_str(), account.as_str()) {
            Err(e) => Err(e),
            Ok(None) => Ok(None),
            Ok(Some(text)) => match decode_token(text.as_str()) {
                Ok(t) => Ok(Some(t)),
                Err(e) => Err(e),
            },
        }
    }

    /// Stores a provider's OAuth token, beside (not over) its API key.
    pub fn set_oauth_token(&mut self, provider_name: &str, token: &OAuthToken) -> (r: Result<(), Y2mdError>)
        requires
            old(self).wf(),
        ensures
            final(self).wf(),
            final(self).service_name == old(self).service_name,
            final(self).environment == old(self).environment,
            old(self).store is Memory ==> {
                &&& r is Ok
                &&& final(self).store is Memory
                &&& final(self).store.stored(old(self).service_name@, token_account(provider_name@)) == Some(
                    token_json(*token),
                )
                &&& forall|s: Seq<char>, a: Seq<char>|
                    !(s == old(self).service_name@ && a == token_account(provider_name@)) ==> #[trigger] final(self).store.stored(s, a)
                        == old(self).store.stored(s, a)
            },
            old(self).store is Keychain ==> final(self).store is Keychain,
            r is Err ==> r matches Err(Y2mdError::SecretStore(_)),
    {
        let account = concat(provider_name, "_oauth_token");
        let text = encode_token(token);
        self.store.set(self.service_name.as_str(), account.as_str(), text.as_str())
    }

    /// Removes a provider's stored OAuth token; an absent token is no error.
    pub fn delete_oauth_token(&mut self, provider_name: &str) -> (r: Result<(), Y2mdError>)
        requires
            old(self).wf(),
        ensures
            final(self).wf(),
            final(self).service_name == old(self).service_name,
            final(self).environment == old(self).environment,
            old(self).store is Memory ==> {
                &&& r is Ok
                &&& final(self).store is Memory
                &&& final(self).store.stored(old(self).service_name@, token_account(provider_name@)) is None
                &&& forall|s: Seq<char>, a: Seq<char>|
                    !(s == old(self).service_name@ && a == token_account(provider_name@)) ==> #[trigger] final(self).store.stored(s, a)
                        == old(self).store.stored(s, a)
            },
            old(self).store is Keychain ==> final(self).store is Keychain,
            r is Err ==> r matches Err(Y2mdError::SecretStore(_)),
    {
        let account = concat(provider_name, "_oauth_token");
        self.store.delete(self.service_name.as_str(), account.as_str())
    }

    /// Whether a token is stored and decodes.
    pub fn has_oauth_token(&self, provider_name: &str) -> (r: bool)
        requires
            self.wf(),
        ensures
            self.store is Memory && self.store.stored(self.service_name@, token_account(provider_name@)) is None
                ==> !r,
    {
        match self.get_oauth_token(provider_name) {
            Ok(Some(_)) => true,
            _ => false,
        }
    }

    /// Exchanges a refresh token for a new token. No provider kind supports
    /// the exchange yet, so this always fails with a configuration error.
    pub fn refresh_oauth_token(&self, provider_name: &str, provider_type: &LlmProvider, token: &OAuthToken) -> (r:
        Result<OAuthToken, Y2mdError>)
        ensures
            token.refresh_token is None ==> (r matches Err(Y2mdError::Config(m)) && m@
                == "No refresh token available"@),
            token.refresh_token is Some ==> (r matches Err(Y2mdError::Config(m)) && m@ == refresh_message(
                *provider_type,
            )),
    {
        if token.refresh_token.is_none() {
            return Err(Y2mdError::Config("No refresh token available".to_owned()));
        }
        match provider_type {
            LlmProvider::OpenAI => Err(Y2mdError::Config("OpenAI OAuth refresh not yet implemented".to_owned())),
            LlmProvider::Anthropic => Err(
                Y2mdError::Config("Anthropic OAuth refresh not yet implemented".to_owned()),
            ),
            _ => {
                let name = provider_type.name();
                Err(Y2mdError::Config(concat("OAuth not supported for provider type: ", name.as_str())))
            },
        }
    }

    /// The secret to use for a provider at time `now`, given the OAuth token
    /// read for it: a token that is due for a refresh and has a refresh
    /// token is refreshed (and the new token stored) first; a token that has
    /// not expired gives its access token; otherwise the API key is used.
    pub fn valid_token_from(
        &mut self,
        provider_name: &str,
        provider_type: &LlmProvider,
        token: Option<OAuthToken>,
        now: u64,
    ) -> (r: Result<Option<String>, Y2mdError>)
        requires
            old(self).wf(),
        ensures
            *final(self) == *old(self),
            token matches Some(t) ==> token_secret_result(
                *old(self),
                provider_name@,
                *provider_type,
                t.expires_at,
                t.refresh_token is Some,
                t.access_token@,
                now,
                r,
            ),
            match token {
                None => old(self).api_key_result(provider_name@, r),
                Some(t) => if t.refresh_due_at(now) && t.refresh_token is Some {
                    r matches Err(Y2mdError::Config(m)) && m@ == refresh_message(*provider_type)
                } else if !t.expired_at(now) {
                    r == Ok::<Option<String>, Y2mdError>(Some(t.access_token))
                } else {
                    old(self).api_key_result(provider_name@, r)
                },
            },
    {
        match token {
            None => {},
            Some(token) => {
                let mut token = token;
                if token.needs_refresh_at(now) && token.refresh_token.is_some() {
                    match self.refresh_oauth_token(provider_name, provider_type, &token) {
                        Err(e) => return Err(e),
                        Ok(t) => {
                            token = t;
                        },
                    }
                    match self.set_oauth_token(provider_name, &token) {
                        Err(e) => return Err(e),
                        Ok(()) => {},
                    }
                }
                if !token.is_expired_at(now) {
                    return Ok(Some(token.access_token));
                }
            },
        }
        self.get_api_key(provider_name)
    }

    /// The secret to use for a provider at time `now`: its stored OAuth
    /// token, read and resolved as `valid_token_from` says, else its API key.
    pub fn get_valid_token_at(&mut self, provider_name: &str, provider_type: &LlmProvider, now: u64) -> (r:
        Result<Option<String>, Y2mdError>)
        requires
            old(self).wf(),
        ensures
            *final(self) == *old(self),
            valid_token_result(*old(self), provider_name@, *provider_type, now, r),
    {
        match self.get_oauth_token(provider_name) {
            Err(e) => Err(e),
            Ok(token) => self.valid_token_from(provider_name, provider_type, token, now),
        }
    }

    /// `get_valid_token_at` by the system clock.
    pub fn get_valid_token(&mut self, provider_name: &str, provider_type: &LlmProvider) -> (r: Result<
        Option<String>,
        Y2mdError,
    >)
        requires
            old(self).wf(),
        ensures
            *final(self) == *old(self),
            exists|now: u64| #[trigger] valid_token_result(*old(self), provider_name@, *provider_type, now, r),
    {
        let now = unix_now();
        let r = self.get_valid_token_at(provider_name, provider_type, now);
        assert(valid_token_result(*old(self), provider_name@, *provider_type, now, r));
        r
    }
}

/// With the environment variable of a provider set, the resolved key is its
/// value, whatever the store holds.
pub proof fn lemma_environment_wins(cm: CredentialManager, provider: Seq<char>, v: Seq<char>)
    requires
        env_value(cm.environment@, api_key_var(provider)) == Some(v),
    ensures
        cm.api_key_of(provider) == Some(v),
        forall|r: Result<Option<String>, Y2mdError>|
            cm.api_key_result(provider, r) ==> (r matches Ok(Some(k)) && k@ == v),
{
}

/// Storing a key and then reading it, with the environment variable unset,
/// gives exactly the stored key.
pub proof fn lemma_api_key_round_trip(
    before: CredentialManager,
    after: CredentialManager,
    provider: Seq<char>,
    key: Seq<char>,
)
    requires
        after.service_name == before.service_name,
        after.environment == before.environment,
        after.store.stored(before.service_name@, provider) == Some(key),
        env_value(before.environment@, api_key_var(provider)) is None,
    ensures
        after.api_key_of(provider) == Some(key),
{
}

/// Deleting a key (present or not) and then reading it, with the environment
/// variable unset, gives none.
pub proof fn lemma_api_key_deleted(
    before: CredentialManager,
    after: CredentialManager,
    provider: Seq<char>,
)
    requires
        after.service_name == before.service_name,
        after.environment == before.environment,
        after.store.stored(before.service_name@, provider) is None,
        env_value(before.environment@, api_key_var(provider)) is None,
    ensures
        after.api_key_of(provider) is None,
{
}

pub open spec fn missing_secret_message(name: Seq<char>) -> Seq<char> {
    name + " provider requires an API key. Set one with: y2md llm set-key "@ + name
}

impl AppConfig {
    /// The single-provider settings of a registry entry, with its secret
    /// resolved at time `now`: an unexpired OAuth token, else the API key.
    /// An expired token that has a refresh token asks for a new login.
    pub fn get_llm_config_for_provider_at(
        &self,
        provider: &ProviderConfig,
        cred_manager: &CredentialManager,
        now: u64,
    ) -> (r: Result<LlmConfig, Y2mdError>)
        requires
            cred_manager.wf(),
        ensures
            llm_config_result(*cred_manager, *provider, now, r),
    {
        let mut api_key: Option<String> = None;
        match cred_manager.get_oauth_token(provider.name.as_str()) {
            Err(e) => return Err(e),
            Ok(None) => {},
            Ok(Some(token)) => {
                if !token.is_expired_at(now) {
                    api_key = Some(token.access_token);
                } else if token.refresh_token.is_some() {
                    let msg = concat3(
                        "OAuth token expired for provider '",
                        provider.name.as_str(),
                        "'. Please login again: y2md auth login ",
                    );
                    let m = concat(msg.as_str(), provider.name.as_str());
                    assert(m@ =~= login_again_message(provider.name@));
                    return Err(Y2mdError::Config(m));
                }
            },
        }
        if api_key.is_none() {
            match cred_manager.get_api_key(provider.name.as_str()) {
                Err(e) => return Err(e),
                Ok(k) => {
                    api_key = k;
                },
            }
        }
        Ok(LlmConfig {
            provider: provider.provider_type,
            model: provider.model.clone(),
            endpoint: provider.endpoint.clone(),
            api_key,
        })
    }

    /// `get_llm_config_for_provider_at` by the system clock.
    pub fn get_llm_config_for_provider(&self, provider: &ProviderConfig, cred_manager: &CredentialManager) -> (r:
        Result<LlmConfig, Y2mdError>)
        requires
            cred_manager.wf(),
        ensures
            exists|now: u64| #[trigger] llm_config_result(*cred_manager, *provider, now, r),
    {
        let now = unix_now();
        let r = self.get_llm_config_for_provider_at(provider, cred_manager, now);
        assert(llm_config_result(*cred_manager, *provider, now, r));
        r
    }
}

} // verus!
