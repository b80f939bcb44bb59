use vstd::prelude::*;

use crate::error::Y2mdError;
use crate::formatting::{contains_seq, contains_str};
use crate::http::{is_success_status, status_is_success, HttpMethod, HttpOutcome, HttpRequest};
use crate::json::{json_len_at, json_len_at_of, json_quote, json_string_literal, json_text_at, json_text_at_of};
use crate::models::ModelInfo;
use crate::strings::{concat, concat3, decimal, to_decimal};

verus! {

/// How long, in seconds, a list of local models stays fresh.
pub const MODEL_CACHE_TTL_SECS: u64 = 30;

/// The last list of local models, and when (seconds since the epoch) it was read.
#[derive(Clone, Debug, PartialEq, Eq)]
pub struct ModelCache {
    pub local_models: Vec<String>,
    pub last_updated: Option<u64>,
}

/// Copies a list of strings, element by element.
pub fn copy_strings(v: &Vec<String>) -> (r: Vec<String>)
    ensures
        r@ == v@,
{
    let mut r: Vec<String> = Vec::new();
    let mut i: usize = 0;
    while i < v.len()
        invariant
            0 <= i <= v@.len(),
            r@ == v@.subrange(0, i as int),
        decreases v@.len() - i,
    {
        r.push(v[i].clone());
        assert(r@ =~= v@.subrange(0, i + 1));
        i = i + 1;
    }
    assert(r@ =~= v@);
    r
}

impl ModelCache {
    /// At time `now` the list is fresh: read less than the time to live ago
    /// (or stamped in the future, by a clock that went back).
    pub open spec fn fresh_at(&self, now: u64) -> bool {
        match self.last_updated {
            Some(t) => now < t + MODEL_CACHE_TTL_SECS,
            None => false,
        }
    }

    pub fn new() -> (r: Self)
        ensures
            r.local_models@.len() == 0,
            r.last_updated is None,
    {
        ModelCache { local_models: Vec::new(), last_updated: None }
    }

    /// The cached list, where it is fresh at time `now`.
    pub fn cached_at(&self, now: u64) -> (r: Option<&Vec<String>>)
        ensures
            self.fresh_at(now) ==> r == Some(&self.local_models),
            !self.fresh_at(now) ==> r is None,
    {
        match self.last_updated {
            Some(t) => {
                if (now as u128) < (t as u128) + (MODEL_CACHE_TTL_SECS as u128) {
                    Some(&self.local_models)
                } else {
                    None
                }
            },
            None => None,
        }
    }

    /// Records a list read at time `now`.
    pub fn update(&mut self, models: Vec<String>, now: u64)
        ensures
            final(self).local_models == models,
            final(self).last_updated == Some(now),
    {
        self.local_models = models;
        self.last_updated = Some(now);
    }

    /// Marks the list stale, after a model was installed or removed.
    pub fn invalidate(&mut self)
        ensures
            final(self).local_models == old(self).local_models,
            final(self).last_updated is None,
    {
        self.last_updated = None;
    }
}

/// Some name of `models` contains `name`.
pub open spec fn some_contains(models: Seq<String>, name: Seq<char>) -> bool {
    exists|i: int| 0 <= i < models.len() && contains_seq((#[trigger] models[i])@, name)
}

/// The position of the first name of `models` that contains `name`.
pub fn find_model(models: &Vec<String>, name: &str) -> (r: Option<usize>)
    ensures
        match r {
            Some(i) => i < models@.len() && contains_seq(models@[i as int]@, name@) && forall|j: int|
                0 <= j < i ==> !contains_seq((#[trigger] models@[j])@, name@),
            None => !some_contains(models@, name@),
        },
{
    let mut i: usize = 0;
    while i < models.len()
        invariant
            0 <= i <= models@.len(),
            forall|j: int| 0 <= j < i ==> !contains_seq((#[trigger] models@[j])@, name@),
        decreases models@.len() - i,
    {
        if contains_str(models[i].as_str(), name) {
            return Some(i);
        }
        i = i + 1;
    }
    None
}

/// A status line of a model download that reports it finished.
pub open spec fn pull_done(status: Seq<char>) -> bool {
    status == "success"@ || contains_seq(status, "complete"@) || contains_seq(status, "done"@)
}

pub fn is_pull_done(status: &str) -> (r: bool)
    ensures
        r == pull_done(status@),
{
    let success = "success".to_owned();
    let s = status.to_owned();
    s == success || contains_str(status, "complete") || contains_str(status, "done")
}

/// The name of the `i`-th model in an answer to the tags request.
pub open spec fn model_name_at(body: Seq<char>, i: nat) -> Option<Seq<char>> {
    json_text_at_of(body, "/models/"@ + decimal(i) + "/name"@)
}

/// The names of the first `n` models that have one, in order.
pub open spec fn names_prefix(body: Seq<char>, n: nat) -> Seq<Seq<char>>
    decreases n,
{
    if n == 0 {
        Seq::empty()
    } else {
        let p = names_prefix(body, (n - 1) as nat);
        match model_name_at(body, (n - 1) as nat) {
            Some(x) => p.push(x),
            None => p,
        }
    }
}

pub open spec fn names_view(v: Seq<String>) -> Seq<Seq<char>> {
    v.map_values(|s: String| s@)
}

/// The names that the local server lists in its answer to the tags request,
/// in order; entries without a name are left out; none without a list.
pub fn model_names(body: &str) -> (r: Option<Vec<String>>)
    ensures
        match json_len_at_of(body@, "/models"@) {
            None => r is None,
            Some(n) => r matches Some(v) && names_view(v@) == names_prefix(body@, n as nat),
        },
{
    let n = match json_len_at(body, "/models") {
        Some(n) => n,
        None => return None,
    };
    let mut names: Vec<String> = Vec::new();
    let mut i: usize = 0;
    while i < n
        invariant
            0 <= i <= n,
            names_view(names@) == names_prefix(body@, i as nat),
        decreases n - i,
    {
        let index = to_decimal(i as u64);
        let pointer = concat3("/models/", index.as_str(), "/name");
        let ghost before = names@;
        match json_text_at(body, pointer.as_str()) {
            Some(name) => {
                names.push(name);
                assert(names_view(names@) =~= names_view(before).push(names@[before.len() as int]@));
            },
            None => {},
        }
        i = i + 1;
    }
    Some(names)
}

/// Some name of `v` contains `name`.
pub open spec fn any_contains(v: Seq<Seq<char>>, name: Seq<char>) -> bool {
    exists|i: int| 0 <= i < v.len() && contains_seq(#[trigger] v[i], name)
}

/// The strings of `v` joined by `sep`.
pub open spec fn joined(v: Seq<Seq<char>>, sep: Seq<char>) -> Seq<char>
    decreases v.len(),
{
    if v.len() == 0 {
        Seq::empty()
    } else if v.len() == 1 {
        v[0]
    } else {
        joined(v.drop_last(), sep) + sep + v.last()
    }
}

/// Whether some name of `models` contains `name`.
pub fn names_contain(models: &Vec<String>, name: &str) -> (r: bool)
    ensures
        r == any_contains(names_view(models@), name@),
{
    let ghost v = names_view(models@);
    let mut i: usize = 0;
    while i < models.len()
        invariant
            0 <= i <= models@.len(),
            v == names_view(models@),
            forall|j: int| 0 <= j < i ==> !contains_seq(#[trigger] v[j], name@),
        decreases models@.len() - i,
    {
        assert(v[i as int] == models@[i as int]@);
        if contains_str(models[i].as_str(), name) {
            return true;
        }
        i = i + 1;
    }
    false
}

/// The names of `models` joined by `sep`.
pub fn join_names(models: &Vec<String>, sep: &str) -> (r: String)
    ensures
        r@ == joined(names_view(models@), sep@),
{
    let ghost v = names_view(models@);
    let mut r = String::new();
    let mut i: usize = 0;
    while i < models.len()
        invariant
            0 <= i <= models@.len(),
            v == names_view(models@),
            r@ == joined(v.subrange(0, i as int), sep@),
        decreases models@.len() - i,
    {
        let ghost next = v.subrange(0, i + 1);
        assert(next.drop_last() =~= v.subrange(0, i as int));
        assert(next.last() == models@[i as int]@);
        if i > 0 {
            r.append(sep);
        }
        r.append(models[i].as_str());
        i = i + 1;
    }
    assert(v.subrange(0, models@.len() as int) =~= v);
    r
}

pub open spec fn pull_body(model: Seq<char>) -> Seq<char> {
    "{\"name\":"@ + json_string_literal(model) + ",\"stream\":true}"@
}

pub open spec fn delete_body(model: Seq<char>) -> Seq<char> {
    "{\"name\":"@ + json_string_literal(model) + "}"@
}

/// The local model server: its endpoint and its cached list of models.
#[derive(Clone, Debug, PartialEq, Eq)]
pub struct OllamaManager {
    pub endpoint: String,
    pub cache: ModelCache,
}

impl OllamaManager {
    pub fn new(endpoint: Option<String>) -> (r: Self)
        ensures
            match endpoint {
                Some(e) => r.endpoint == e,
                None => r.endpoint@ == "http://localhost:11434"@,
            },
            r.cache.last_updated is None,
            r.cache.local_models@.len() == 0,
    {
        let endpoint = match endpoint {
            Some(e) => e,
            None => "http://localhost:11434".to_owned(),
        };
        OllamaManager { endpoint, cache: ModelCache::new() }
    }

    /// The request that lists the local models, which also probes the server.
    pub fn tags_request(&self) -> (r: HttpRequest)
        ensures
            r.method == HttpMethod::Get,
            r.url@ == self.endpoint@ + "/api/tags"@,
            r.headers@.len() == 0,
            r.body is None,
    {
        HttpRequest {
            method: HttpMethod::Get,
            url: concat(self.endpoint.as_str(), "/api/tags"),
            headers: Vec::new(),
            body: None,
            timeout_secs: None,
        }
    }

    /// The server is available when the tags request got any answer.
    pub fn is_available(outcome: &HttpOutcome) -> (r: bool)
        ensures
            r == (*outcome is Reply),
    {
        match outcome {
            HttpOutcome::Reply { .. } => true,
            _ => false,
        }
    }

    /// Whether a local model's name contains `model_name`.
    pub fn is_model_available(models: &Vec<String>, model_name: &str) -> (r: bool)
        ensures
            r == some_contains(models@, model_name@),
    {
        find_model(models, model_name).is_some()
    }

    /// What is known of a model: the first local model whose name contains
    /// `model_name`, else the name as given, not available. Sizes are unknown.
    pub fn get_model_info(models: &Vec<String>, model_name: &str) -> (r: ModelInfo)
        ensures
            r.size is None,
            r.available == some_contains(models@, model_name@),
            r.available ==> exists|i: int| 0 <= i < models@.len() && r.name == models@[i] && contains_seq(
                models@[i]@,
                model_name@,
            ),
            !r.available ==> r.name@ == model_name@,
    {
        match find_model(models, model_name) {
            Some(i) => ModelInfo { name: models[i].clone(), size: None, available: true },
            None => ModelInfo { name: model_name.to_owned(), size: None, available: false },
        }
    }

    /// Reads the answer to the tags request at time `now`, and caches the
    /// list it gives.
    pub fn get_local_models(&mut self, outcome: HttpOutcome, now: u64) -> (r: Result<Vec<String>, Y2mdError>)
        ensures
            final(self).endpoint == old(self).endpoint,
            match outcome {
                HttpOutcome::Reply { status, .. } => !is_success_status(status) ==> (r matches Err(
                    Y2mdError::LlmConfig(m),
                ) && m@ == "Ollama service not available"@ && *final(self) == *old(self)),
                _ => r matches Err(Y2mdError::LlmConfig(_)) && *final(self) == *old(self),
            },
            r matches Ok(names) ==> final(self).cache.local_models@ == names@ && final(self).cache.last_updated
                == Some(now),
            r is Err ==> *final(self) == *old(self),
    {
        match outcome {
            HttpOutcome::Reply { status, body } => {
                if !status_is_success(status) {
                    return Err(Y2mdError::LlmConfig("Ollama service not available".to_owned()));
                }
                match model_names(body.as_str()) {
                    Some(names) => {
                        let kept = copy_strings(&names);
                        self.cache.update(kept, now);
                        Ok(names)
                    },
                    None => Err(Y2mdError::LlmConfig("Invalid response format from Ollama".to_owned())),
                }
            },
            HttpOutcome::TimedOut => Err(Y2mdError::LlmConfig("Failed to connect to Ollama: timed out".to_owned())),
            HttpOutcome::Failed(m) => Err(Y2mdError::LlmConfig(concat("Failed to connect to Ollama: ", m.as_str()))),
        }
    }

    /// The request that downloads a model.
    pub fn pull_request(&self, model_name: &str) -> (r: HttpRequest)
        ensures
            r.method == HttpMethod::Post,
            r.url@ == self.endpoint@ + "/api/pull"@,
            r.body is Some && r.body->0@ == pull_body(model_name@),
    {
        let q = json_quote(model_name);
        let body = concat(concat("{\"name\":", q.as_str()).as_str(), ",\"stream\":true}");
        HttpRequest {
            method: HttpMethod::Post,
            url: concat(self.endpoint.as_str(), "/api/pull"),
            headers: Vec::new(),
            body: Some(body),
            timeout_secs: None,
        }
    }

    /// The request that removes a model.
    pub fn delete_request(&self, model_name: &str) -> (r: HttpRequest)
        ensures
            r.method == HttpMethod::Delete,
            r.url@ == self.endpoint@ + "/api/delete"@,
            r.body is Some && r.body->0@ == delete_body(model_name@),
    {
        let q = json_quote(model_name);
        let body = concat(concat("{\"name\":", q.as_str()).as_str(), "}");
        HttpRequest {
            method: HttpMethod::Delete,
            url: concat(self.endpoint.as_str(), "/api/delete"),
            headers: Vec::new(),
            body: Some(body),
            timeout_secs: None,
        }
    }

    /// Reads the answer to the delete request; a removal marks the cached
    /// list stale.
    pub fn remove_model(&mut self, outcome: HttpOutcome) -> (r: Result<(), Y2mdError>)
        ensures
            final(self).endpoint == old(self).endpoint,
            final(self).cache.local_models == old(self).cache.local_models,
            r is Ok <==> (outcome matches HttpOutcome::Reply { status, .. } && is_success_status(status)),
            r is Ok ==> final(self).cache.last_updated is None,
            r is Err ==> *final(self) == *old(self) && r matches Err(Y2mdError::LlmConfig(_)),
    {
        match outcome {
            HttpOutcome::Reply { status, .. } => {
                if status_is_success(status) {
                    self.cache.invalidate();
                    Ok(())
                } else {
                    let code = to_decimal(status as u64);
                    Err(Y2mdError::LlmConfig(concat("Failed to remove model: ", code.as_str())))
                }
            },
            HttpOutcome::TimedOut => Err(Y2mdError::LlmConfig("Failed to remove model: timed out".to_owned())),
            HttpOutcome::Failed(m) => Err(Y2mdError::LlmConfig(concat("Failed to remove model: ", m.as_str()))),
        }
    }

    /// Reads the answer to the download request: the statuses it streamed
    /// and whether one reported the download finished. A download marks the
    /// cached list stale; a failed status keeps the body verbatim.
    pub fn download_model(&mut self, outcome: HttpOutcome) -> (r: Result<(Vec<String>, bool), Y2mdError>)
        ensures
            final(self).endpoint == old(self).endpoint,
            final(self).cache.local_models == old(self).cache.local_models,
            r is Ok <==> (outcome matches HttpOutcome::Reply { status, .. } && is_success_status(status)),
            r is Ok ==> final(self).cache.last_updated is None,
            r matches Ok(p) ==> p.1 == exists|i: int| 0 <= i < p.0@.len() && pull_done((#[trigger] p.0@[i])@),
            r is Err ==> *final(self) == *old(self) && r matches Err(Y2mdError::LlmConfig(_)),
    {
        match outcome {
            HttpOutcome::Reply { status, body } => {
                if status_is_success(status) {
                    let progress = Self::pull_progress(body.as_str());
                    self.cache.invalidate();
                    Ok(progress)
                } else {
                    let code = to_decimal(status as u64);
                    let head = concat3("Failed to download model: ", code.as_str(), " - ");
                    Err(Y2mdError::LlmConfig(concat(head.as_str(), body.as_str())))
                }
            },
            HttpOutcome::TimedOut => Err(
                Y2mdError::LlmConfig("Failed to start model download: timed out".to_owned()),
            ),
            HttpOutcome::Failed(m) => Err(
                Y2mdError::LlmConfig(concat("Failed to start model download: ", m.as_str())),
            ),
        }
    }

    /// The statuses that the download stream reports, line by line, and
    /// whether one of them reports the download finished.
    pub fn pull_progress(body: &str) -> (r: (Vec<String>, bool))
        ensures
            r.1 == exists|i: int| 0 <= i < r.0@.len() && pull_done((#[trigger] r.0@[i])@),
    {
        let lines = crate::formatting::lines(body);
        let mut statuses: Vec<String> = Vec::new();
        let mut done = false;
        let mut i: usize = 0;
        while i < lines.len()
            invariant
                0 <= i <= lines@.len(),
                done == exists|k: int| 0 <= k < statuses@.len() && pull_done((#[trigger] statuses@[k])@),
            decreases lines@.len() - i,
        {
            match json_text_at(lines[i].as_str(), "/status") {
                Some(s) => {
                    let d = is_pull_done(s.as_str());
                    let ghost before = statuses@;
                    let ghost was_done = done;
                    statuses.push(s);
                    done = done || d;
                    proof {
                        let after = statuses@;
                        let n = before.len() as int;
                        assert(after[n]@ == s@);
                        if was_done {
                            let k = choose|k: int| 0 <= k < before.len() && pull_done((#[trigger] before[k])@);
                            assert(after[k] == before[k]);
                        }
                        if exists|k: int| 0 <= k < after.len() && pull_done((#[trigger] after[k])@) {
                            let k = choose|k: int| 0 <= k < after.len() && pull_done((#[trigger] after[k])@);
                            if k < n {
                                assert(after[k] == before[k]);
                            }
                        }
                    }
                },
                None => {},
            }
            i = i + 1;
        }
        let r = (statuses, done);
        assert(r.0@ == statuses@);
        r
    }
}

} // verus!
