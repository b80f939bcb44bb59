use vstd::prelude::*;

use crate::error::Y2mdError;
use crate::strings::concat3;

verus! {

/// The kinds of language-model backend.
#[derive(Clone, Copy, Debug, PartialEq, Eq, Structural)]
pub enum LlmProvider {
    /// A locally hosted model server.
    Ollama,
    /// The first hosted provider, reached with a chat-completions request.
    OpenAI,
    /// The second hosted provider, reached with a messages request.
    Anthropic,
    /// A local server that speaks the chat-completions protocol.
    LMStudio,
    /// A user-supplied endpoint that speaks the chat-completions protocol.
    Custom,
}

impl LlmProvider {
    /// The provider's lower-case name.
    pub open spec fn spec_name(self) -> Seq<char> {
        match self {
            LlmProvider::Ollama => "ollama"@,
            LlmProvider::OpenAI => "openai"@,
            LlmProvider::Anthropic => "anthropic"@,
            LlmProvider::LMStudio => "lmstudio"@,
            LlmProvider::Custom => "custom"@,
        }
    }

    /// The provider's lower-case name, as a string.
    pub fn name(&self) -> (r: String)
        ensures
            r@ == self.spec_name(),
    {
        match self {
            LlmProvider::Ollama => "ollama".to_owned(),
            LlmProvider::OpenAI => "openai".to_owned(),
            LlmProvider::Anthropic => "anthropic".to_owned(),
            LlmProvider::LMStudio => "lmstudio".to_owned(),
            LlmProvider::Custom => "custom".to_owned(),
        }
    }

    /// True of the hosted kinds, which cannot be used without a secret.
    pub open spec fn spec_is_hosted(self) -> bool {
        self is OpenAI || self is Anthropic
    }

    pub fn is_hosted(&self) -> (r: bool)
        ensures
            r == self.spec_is_hosted(),
    {
        match self {
            LlmProvider::OpenAI | LlmProvider::Anthropic => true,
            _ => false,
        }
    }
}

impl Default for LlmProvider {
    fn default() -> (r: Self)
        ensures
            r == LlmProvider::Ollama,
    {
        LlmProvider::Ollama
    }
}

/// The single-provider settings.
#[derive(Clone, Debug, PartialEq, Eq)]
pub struct LlmConfig {
    pub provider: LlmProvider,
    pub model: String,
    pub endpoint: Option<String>,
    pub api_key: Option<String>,
}

/// The model that the local provider uses when nothing else is configured.
pub open spec fn default_model() -> Seq<char> {
    "mistral-nemo:12b-instruct-2407-q5_0"@
}

impl Default for LlmConfig {
    fn default() -> (r: Self)
        ensures
            r.provider == LlmProvider::Ollama,
            r.model@ == default_model(),
            r.endpoint is None,
            r.api_key is None,
    {
        LlmConfig {
            provider: LlmProvider::Ollama,
            model: "mistral-nemo:12b-instruct-2407-q5_0".to_owned(),
            endpoint: None,
            api_key: None,
        }
    }
}

/// A named entry of the provider registry.
#[derive(Clone, Debug, PartialEq, Eq)]
pub struct ProviderConfig {
    pub name: String,
    pub provider_type: LlmProvider,
    pub model: String,
    pub endpoint: Option<String>,
}

/// The application configuration: single-provider settings, the named
/// provider registry with its active pointer, and output preferences.
#[derive(Clone, Debug, PartialEq, Eq)]
pub struct AppConfig {
    pub llm: LlmConfig,
    pub active_provider: Option<String>,
    pub providers: Vec<ProviderConfig>,
    pub prefer_captions: bool,
    pub default_language: String,
    pub output_dir: Option<String>,
    pub timestamps: bool,
    pub compact: bool,
    pub paragraph_length: usize,
}

/// Some entry of `s` has the name `name`.
pub open spec fn has_name(s: Seq<ProviderConfig>, name: Seq<char>) -> bool {
    exists|i: int| 0 <= i < s.len() && (#[trigger] s[i]).name@ == name
}

/// No two entries of `s` share a name.
pub open spec fn names_unique(s: Seq<ProviderConfig>) -> bool {
    forall|i: int, j: int|
        0 <= i < s.len() && 0 <= j < s.len() && i != j ==> (#[trigger] s[i]).name@ != (#[trigger] s[j]).name@
}

pub open spec fn already_exists_message(name: Seq<char>) -> Seq<char> {
    "Provider '"@ + name + "' already exists"@
}

pub open spec fn not_found_message(name: Seq<char>) -> Seq<char> {
    "Provider '"@ + name + "' not found"@
}

pub open spec fn no_active_message() -> Seq<char> {
    "No active provider set"@
}

impl AppConfig {
    /// Names are unique, and the active pointer, if set, names an entry.
    pub open spec fn wf(&self) -> bool {
        &&& names_unique(self.providers@)
        &&& (self.active_provider matches Some(a) ==> has_name(self.providers@, a@))
    }

    /// The two configurations agree on everything but the registry.
    pub open spec fn same_settings(&self, other: &AppConfig) -> bool {
        &&& self.llm == other.llm
        &&& self.prefer_captions == other.prefer_captions
        &&& self.default_language == other.default_language
        &&& self.output_dir == other.output_dir
        &&& self.timestamps == other.timestamps
        &&& self.compact == other.compact
        &&& self.paragraph_length == other.paragraph_length
    }

    /// The position of the entry named `name`, if any.
    pub fn find_provider(&self, name: &str) -> (r: Option<usize>)
        ensures
            match r {
                Some(i) => i < self.providers@.len() && self.providers@[i as int].name@ == name@,
                None => !has_name(self.providers@, name@),
            },
    {
        let key = name.to_owned();
        let mut i: usize = 0;
        while i < self.providers.len()
            invariant
                0 <= i <= self.providers@.len(),
                key@ == name@,
                forall|j: int| 0 <= j < i ==> (#[trigger] self.providers@[j]).name@ != name@,
            decreases self.providers@.len() - i,
        {
            if self.providers[i].name == key {
                return Some(i);
            }
            i = i + 1;
        }
        None
    }

    /// Adds an entry; fails, changing nothing, when its name is taken.
    pub fn add_provider(&mut self, provider: ProviderConfig) -> (r: Result<(), Y2mdError>)
        ensures
            has_name(old(self).providers@, provider.name@) ==> {
                &&& r matches Err(Y2mdError::Config(m)) && m@ == already_exists_message(provider.name@)
                &&& *final(self) == *old(self)
            },
            !has_name(old(self).providers@, provider.name@) ==> {
                &&& r is Ok
                &&& final(self).providers@ == old(self).providers@.push(provider)
                &&& final(self).active_provider == old(self).active_provider
                &&& final(self).same_settings(old(self))
            },
            old(self).wf() ==> final(self).wf(),
    {
        if self.find_provider(provider.name.as_str()).is_some() {
            let msg = concat3("Provider '", provider.name.as_str(), "' already exists");
            return Err(Y2mdError::Config(msg));
        }
        let ghost before = self.providers@;
        self.providers.push(provider);
        proof {
            let s = self.providers@;
            assert forall|i: int| 0 <= i < before.len() implies #[trigger] s[i] == before[i] by {}
            if self.active_provider is Some {
                let a = self.active_provider->0;
                if old(self).wf() {
                    let k = choose|k: int| 0 <= k < before.len() && (#[trigger] before[k]).name@ == a@;
                    assert(s[k] == before[k]);
                }
            }
        }
        Ok(())
    }

    /// Removes the entry named `name`, clearing the active pointer if it
    /// named that entry; fails, changing nothing, when there is none.
    pub fn remove_provider(&mut self, name: &str) -> (r: Result<(), Y2mdError>)
        ensures
            !has_name(old(self).providers@, name@) ==> {
                &&& r matches Err(Y2mdError::Config(m)) && m@ == not_found_message(name@)
                &&& *final(self) == *old(self)
            },
            has_name(old(self).providers@, name@) ==> {
                &&& r is Ok
                &&& exists|i: int|
                    0 <= i < old(self).providers@.len()
                        && (#[trigger] old(self).providers@[i]).name@ == name@
                        && final(self).providers@ == old(self).providers@.remove(i)
                &&& match old(self).active_provider {
                    Some(a) => if a@ == name@ {
                        final(self).active_provider is None
                    } else {
                        final(self).active_provider == old(self).active_provider
                    },
                    None => final(self).active_provider is None,
                }
                &&& final(self).same_settings(old(self))
            },
            old(self).wf() ==> final(self).wf(),
    {
        let found = self.find_provider(name);
        match found {
            None => {
                let msg = concat3("Provider '", name, "' not found");
                Err(Y2mdError::Config(msg))
            },
            Some(i) => {
                let key = name.to_owned();
                let clear = match &self.active_provider {
                    Some(a) => *a == key,
                    None => false,
                };
                if clear {
                    self.active_provider = None;
                }
                let ghost before = self.providers@;
                self.providers.remove(i);
                proof {
                    let s = self.providers@;
                    assert(s == before.remove(i as int));
                    assert(old(self).providers@[i as int].name@ == name@);
                    if old(self).wf() {
                        assert forall|x: int, y: int|
                            0 <= x < s.len() && 0 <= y < s.len() && x != y
                            implies (#[trigger] s[x]).name@ != (#[trigger] s[y]).name@ by {
                            let bx = if x < i { x } else { x + 1 };
                            let by_ = if y < i { y } else { y + 1 };
                            assert(s[x] == before[bx]);
                            assert(s[y] == before[by_]);
                        }
                        if self.active_provider is Some {
                            let a = self.active_provider->0;
                            let k = choose|k: int| 0 <= k < before.len() && (#[trigger] before[k]).name@ == a@;
                            assert(a@ != name@);
                            assert(k != i);
                            let sk = if k < i { k } else { k - 1 };
                            assert(s[sk] == before[k]);
                        }
                    }
                }
                Ok(())
            },
        }
    }

    /// The entry named `name`.
    pub fn get_provider(&self, name: &str) -> (r: Result<&ProviderConfig, Y2mdError>)
        ensures
            !has_name(self.providers@, name@) ==> (r matches Err(Y2mdError::Config(m)) && m@
                == not_found_message(name@)),
            has_name(self.providers@, name@) ==> (r matches Ok(p) && p.name@ == name@ && exists|i: int|
                0 <= i < self.providers@.len() && self.providers@[i] == *p),
    {
        match self.find_provider(name) {
            Some(i) => Ok(&self.providers[i]),
            None => Err(Y2mdError::Config(concat3("Provider '", name, "' not found"))),
        }
    }

    /// The entry that the active pointer names.
    pub fn get_active_provider(&self) -> (r: Result<&ProviderConfig, Y2mdError>)
        ensures
            self.active_provider is None ==> (r matches Err(Y2mdError::Config(m)) && m@
                == no_active_message()),
            self.active_provider matches Some(a) ==> {
                &&& !has_name(self.providers@, a@) ==> (r matches Err(Y2mdError::Config(m)) && m@
                    == not_found_message(a@))
                &&& has_name(self.providers@, a@) ==> (r matches Ok(p) && p.name@ == a@ && exists|i: int|
                    0 <= i < self.providers@.len() && self.providers@[i] == *p)
            },
    {
        match &self.active_provider {
            Some(active_name) => self.get_provider(active_name.as_str()),
            None => Err(Y2mdError::Config("No active provider set".to_owned())),
        }
    }

    /// Points the active pointer at the entry named `name`; fails, changing
    /// nothing, when there is none.
    pub fn set_active_provider(&mut self, name: &str) -> (r: Result<(), Y2mdError>)
        ensures
            !has_name(old(self).providers@, name@) ==> {
                &&& r matches Err(Y2mdError::Config(m)) && m@ == not_found_message(name@)
                &&& *final(self) == *old(self)
            },
            has_name(old(self).providers@, name@) ==> {
                &&& r is Ok
                &&& final(self).active_provider matches Some(a) && a@ == name@
                &&& final(self).providers == old(self).providers
                &&& final(self).same_settings(old(self))
            },
            old(self).wf() ==> final(self).wf(),
    {
        if self.find_provider(name).is_none() {
            return Err(Y2mdError::Config(concat3("Provider '", name, "' not found")));
        }
        self.active_provider = Some(name.to_owned());
        Ok(())
    }

    /// All entries, in the registry's order.
    pub fn list_providers(&self) -> (r: Vec<&ProviderConfig>)
        ensures
            r@.len() == self.providers@.len(),
            forall|i: int| 0 <= i < r@.len() ==> *r@[i] == self.providers@[i],
    {
        let mut r: Vec<&ProviderConfig> = Vec::new();
        let mut i: usize = 0;
        while i < self.providers.len()
            invariant
                0 <= i <= self.providers@.len(),
                r@.len() == i,
                forall|j: int| 0 <= j < i ==> *r@[j] == self.providers@[j],
            decreases self.providers@.len() - i,
        {
            r.push(&self.providers[i]);
            i = i + 1;
        }
        r
    }
}

impl Default for AppConfig {
    fn default() -> (r: Self)
        ensures
            r.llm.provider == LlmProvider::Ollama,
            r.llm.model@ == default_model(),
            r.llm.endpoint is None,
            r.llm.api_key is None,
            r.active_provider is None,
            r.providers@.len() == 0,
            r.prefer_captions,
            r.default_language@ == "en"@,
            r.output_dir is None,
            !r.timestamps,
            !r.compact,
            r.paragraph_length == 4,
            r.wf(),
    {
        AppConfig {
            llm: LlmConfig::default(),
            active_provider: None,
            providers: Vec::new(),
            prefer_captions: true,
            default_language: "en".to_owned(),
            output_dir: None,
            timestamps: false,
            compact: false,
            paragraph_length: 4,
        }
    }
}

} // verus!
