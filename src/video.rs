use vstd::prelude::*;

use crate::error::Y2mdError;
use crate::formatting::{contains_seq, contains_str, find_str, occurs_at};
use crate::strings::{concat, trim, trim_of};

verus! {

#[verifier::external_type_specification]
#[verifier::external_body]
pub struct ExUrl(url::Url);

/// The decoded name/value pairs that `form_urlencoded::parse` reads from a query.
pub uninterp spec fn query_pairs_of(query: Seq<char>) -> Seq<(Seq<char>, Seq<char>)>;

/// Relies on url::Url::parse: the parsed URL, or none when the text is not one.
#[verifier::external_body]
fn parse_url(s: &str) -> (r: Option<url::Url>) {
    url::Url::parse(s).ok()
}

/// Relies on url::Url::query: the query of a URL, without its `?`.
#[verifier::external_body]
fn url_query(u: &url::Url) -> (r: Option<String>) {
    u.query().map(String::from)
}

/// Relies on url::Url::path_segments: the segments of a URL's path.
#[verifier::external_body]
fn url_path_segments(u: &url::Url) -> (r: Option<Vec<String>>) {
    u.path_segments().map(|s| s.map(String::from).collect())
}

/// Relies on form_urlencoded::parse: the decoded pairs of a query, in order,
/// which depend on its text alone.
#[verifier::external_body]
fn query_pairs(query: &str) -> (r: Vec<(String, String)>)
    ensures
        r@.len() == query_pairs_of(query@).len(),
        forall|i: int|
            0 <= i < r@.len() ==> (#[trigger] r@[i]).0@ == query_pairs_of(query@)[i].0 && r@[i].1@
                == query_pairs_of(query@)[i].1,
{
    url::form_urlencoded::parse(query.as_bytes()).map(|(k, v)| (k.into_owned(), v.into_owned())).collect()
}

/// The first position at which `needle` occurs in `hay`.
pub open spec fn first_occurrence(hay: Seq<char>, needle: Seq<char>) -> int {
    choose|i: int| occurs_at(hay, needle, i) && forall|k: int| 0 <= k < i ==> !occurs_at(hay, needle, k)
}

/// What follows the first occurrence of `needle` in `hay`.
pub open spec fn after_first(hay: Seq<char>, needle: Seq<char>) -> Seq<char> {
    hay.subrange(first_occurrence(hay, needle) + needle.len(), hay.len() as int)
}

/// What precedes the first occurrence of `needle` in `hay`, or all of it.
pub open spec fn before_first(hay: Seq<char>, needle: Seq<char>) -> Seq<char> {
    if contains_seq(hay, needle) {
        hay.subrange(0, first_occurrence(hay, needle))
    } else {
        hay
    }
}

proof fn lemma_first_occurrence(hay: Seq<char>, needle: Seq<char>, i: int)
    requires
        occurs_at(hay, needle, i),
        forall|k: int| 0 <= k < i ==> !occurs_at(hay, needle, k),
    ensures
        first_occurrence(hay, needle) == i,
{
    let j = first_occurrence(hay, needle);
    assert(occurs_at(hay, needle, j) && forall|k: int| 0 <= k < j ==> !occurs_at(hay, needle, k));
    if j < i {
        assert(!occurs_at(hay, needle, j));
    }
    if i < j {
        assert(!occurs_at(hay, needle, i));
    }
}

fn cut_before(s: &str, needle: &str) -> (r: String)
    ensures
        r@ == before_first(s@, needle@),
{
    match find_str(s, needle) {
        Some(i) => {
            proof {
                lemma_first_occurrence(s@, needle@, i as int);
            }
            s.substring_char(0, i).to_owned()
        },
        None => s.to_owned(),
    }
}

/// The video id of a short link: what follows the marker, up to the next
/// marker and the query.
pub open spec fn short_link_id(t: Seq<char>) -> Seq<char> {
    before_first(before_first(after_first(t, "youtu.be/"@), "youtu.be/"@), "?"@)
}

/// A character of a bare video id: an ASCII letter or digit, `_` or `-`.
pub open spec fn is_id_char(c: char) -> bool {
    let v = c as u32;
    (97 <= v <= 122) || (65 <= v <= 90) || (48 <= v <= 57) || c == '_' || c == '-'
}

/// Eleven id characters.
pub open spec fn is_bare_id(t: Seq<char>) -> bool {
    t.len() == 11 && forall|i: int| 0 <= i < 11 ==> is_id_char(#[trigger] t[i])
}

fn bare_id(t: &str) -> (r: bool)
    ensures
        r == is_bare_id(t@),
{
    if t.unicode_len() != 11 {
        return false;
    }
    let mut i: usize = 0;
    while i < 11
        invariant
            t@.len() == 11,
            0 <= i <= 11,
            forall|k: int| 0 <= k < i ==> is_id_char(#[trigger] t@[k]),
        decreases 11 - i,
    {
        let c = t.get_char(i);
        let v = c as u32;
        if !((97 <= v && v <= 122) || (65 <= v && v <= 90) || (48 <= v && v <= 57) || c == '_' || c == '-') {
            return false;
        }
        i = i + 1;
    }
    true
}

/// The value of the last pair named `key`, as a map built from the pairs
/// in order keeps it.
pub open spec fn last_value_of(pairs: Seq<(Seq<char>, Seq<char>)>, key: Seq<char>) -> Option<Seq<char>>
    decreases pairs.len(),
{
    if pairs.len() == 0 {
        None
    } else if pairs.last().0 == key {
        Some(pairs.last().1)
    } else {
        last_value_of(pairs.drop_last(), key)
    }
}

pub open spec fn pairs_view(v: Seq<(String, String)>) -> Seq<(Seq<char>, Seq<char>)> {
    v.map_values(|p: (String, String)| (p.0@, p.1@))
}

pub open spec fn segments_view(v: Seq<String>) -> Seq<Seq<char>> {
    v.map_values(|s: String| s@)
}

/// The video id in a watch address: its last `v` parameter, else the id of
/// a `/shorts/<id>` path.
pub open spec fn watch_id(pairs: Option<Seq<(Seq<char>, Seq<char>)>>, segments: Option<Seq<Seq<char>>>) -> Option<
    Seq<char>,
> {
    match pairs {
        Some(p) if last_value_of(p, "v"@) is Some => last_value_of(p, "v"@),
        _ => match segments {
            Some(s) if s.len() == 2 && s[0] == "shorts"@ => Some(s[1]),
            _ => None,
        },
    }
}

fn last_value(pairs: &Vec<(String, String)>, key: &str) -> (r: Option<String>)
    ensures
        match r {
            Some(v) => last_value_of(pairs_view(pairs@), key@) == Some(v@),
            None => last_value_of(pairs_view(pairs@), key@) is None,
        },
{
    let k = key.to_owned();
    let ghost all = pairs_view(pairs@);
    let mut found: Option<String> = None;
    let mut i: usize = 0;
    while i < pairs.len()
        invariant
            0 <= i <= pairs@.len(),
            all == pairs_view(pairs@),
            k@ == key@,
            match found {
                Some(v) => last_value_of(all.subrange(0, i as int), key@) == Some(v@),
                None => last_value_of(all.subrange(0, i as int), key@) is None,
            },
        decreases pairs@.len() - i,
    {
        let ghost before = all.subrange(0, i as int);
        let ghost now = all.subrange(0, i + 1);
        assert(now.drop_last() =~= before);
        assert(now.last() == all[i as int]);
        if pairs[i].0 == k {
            found = Some(pairs[i].1.clone());
        }
        i = i + 1;
    }
    assert(all.subrange(0, pairs@.len() as int) =~= all);
    found
}

/// The video id that the parts of a watch address give.
pub fn id_from_url_parts(pairs: &Option<Vec<(String, String)>>, segments: &Option<Vec<String>>) -> (r: Option<
    String,
>)
    ensures
        match r {
            Some(v) => watch_id(
                match pairs {
                    Some(p) => Some(pairs_view(p@)),
                    None => None,
                },
                match segments {
                    Some(s) => Some(segments_view(s@)),
                    None => None,
                },
            ) == Some(v@),
            None => watch_id(
                match pairs {
                    Some(p) => Some(pairs_view(p@)),
                    None => None,
                },
                match segments {
                    Some(s) => Some(segments_view(s@)),
                    None => None,
                },
            ) is None,
        },
{
    match pairs {
        Some(p) => match last_value(p, "v") {
            Some(v) => return Some(v),
            None => {},
        },
        None => {},
    }
    match segments {
        Some(s) => {
            if s.len() == 2 && s[0] == "shorts".to_owned() {
                Some(s[1].clone())
            } else {
                None
            }
        },
        None => None,
    }
}

/// Extracts the video id from a short link, a watch or shorts address, or a
/// bare id. A watch address that does not parse is an invalid URL.
pub fn extract_video_id(url: &str) -> (r: Result<String, Y2mdError>)
    ensures
        contains_seq(trim_of(url@), "youtu.be/"@) ==> (r matches Ok(id) && id@ == short_link_id(trim_of(url@))),
        (!contains_seq(trim_of(url@), "youtu.be/"@) && !contains_seq(trim_of(url@), "youtube.com"@)) ==> (
        if is_bare_id(trim_of(url@)) {
            r matches Ok(id) && id@ == trim_of(url@)
        } else {
            r == Err::<String, Y2mdError>(Y2mdError::VideoIdExtraction)
        }),
        r matches Err(Y2mdError::InvalidUrl(m)) ==> m@ == trim_of(url@),
        r matches Err(e) ==> (e is InvalidUrl || e is VideoIdExtraction),
{
    let t = trim(url);
    let ts = t.as_str();
    match find_str(ts, "youtu.be/") {
        Some(i) => {
            proof {
                lemma_first_occurrence(t@, "youtu.be/"@, i as int);
                reveal_strlit("youtu.be/");
            }
            let n = ts.unicode_len();
            assert("youtu.be/"@.len() == 9);
            assert(i + 9 <= n);
            let rest = ts.substring_char(i + 9, n);
            let piece = cut_before(rest, "youtu.be/");
            return Ok(cut_before(piece.as_str(), "?"));
        },
        None => {},
    }
    if contains_str(ts, "youtube.com") {
        let parsed = match parse_url(ts) {
            Some(u) => u,
            None => return Err(Y2mdError::InvalidUrl(t.clone())),
        };
        let pairs = match url_query(&parsed) {
            Some(q) => Some(query_pairs(q.as_str())),
            None => None,
        };
        let segments = url_path_segments(&parsed);
        match id_from_url_parts(&pairs, &segments) {
            Some(id) => return Ok(id),
            None => {},
        }
    }
    if bare_id(ts) {
        return Ok(t);
    }
    Err(Y2mdError::VideoIdExtraction)
}

/// Extracts the video id and checks that it has eleven characters.
pub fn validate_youtube_url(url: &str) -> (r: Result<String, Y2mdError>)
    ensures
        r matches Ok(id) ==> id@.len() == 11,
        contains_seq(trim_of(url@), "youtu.be/"@) ==> (if short_link_id(trim_of(url@)).len() == 11 {
            r matches Ok(id) && id@ == short_link_id(trim_of(url@))
        } else {
            r matches Err(Y2mdError::InvalidUrl(m)) && m@ == "Invalid video ID length: "@ + short_link_id(
                trim_of(url@),
            )
        }),
        (!contains_seq(trim_of(url@), "youtu.be/"@) && !contains_seq(trim_of(url@), "youtube.com"@)) ==> (
        if is_bare_id(trim_of(url@)) {
            r matches Ok(id) && id@ == trim_of(url@)
        } else {
            r == Err::<String, Y2mdError>(Y2mdError::VideoIdExtraction)
        }),
{
    let id = match extract_video_id(url) {
        Ok(id) => id,
        Err(e) => return Err(e),
    };
    if id.as_str().unicode_len() != 11 {
        return Err(Y2mdError::InvalidUrl(concat("Invalid video ID length: ", id.as_str())));
    }
    Ok(id)
}

/// The speech-recognition model file and language for a language code:
/// the English model for English and for codes without a model of their
/// own, the multilingual one for the others.
pub open spec fn model_choice(language: Seq<char>) -> (Seq<char>, Seq<char>) {
    if language == "en"@ {
        ("ggml-base.en.bin"@, "en"@)
    } else if language == "es"@ || language == "fr"@ || language == "de"@ || language == "it"@ || language
        == "pt"@ || language == "ru"@ || language == "ja"@ || language == "zh"@ || language == "ko"@
        || language == "ar"@ || language == "hi"@ {
        ("ggml-base.bin"@, language)
    } else {
        ("ggml-base.en.bin"@, "en"@)
    }
}

/// The path of the model in `model_dir` and the language to transcribe in,
/// for a language code (English when none is given).
pub fn determine_model_and_language(language: Option<&str>, model_dir: &str) -> (r: (String, String))
    ensures
        ({
            let code = match language {
                Some(l) => l@,
                None => "en"@,
            };
            r.0@ == model_dir@ + model_choice(code).0 && r.1@ == model_choice(code).1
        }),
{
    let code = match language {
        Some(l) => l.to_owned(),
        None => "en".to_owned(),
    };
    if code == "en".to_owned() {
        return (concat(model_dir, "ggml-base.en.bin"), "en".to_owned());
    }
    let multilingual = code == "es".to_owned() || code == "fr".to_owned() || code == "de".to_owned() || code
        == "it".to_owned() || code == "pt".to_owned() || code == "ru".to_owned() || code == "ja".to_owned()
        || code == "zh".to_owned() || code == "ko".to_owned() || code == "ar".to_owned() || code
        == "hi".to_owned();
    if multilingual {
        (concat(model_dir, "ggml-base.bin"), code)
    } else {
        (concat(model_dir, "ggml-base.en.bin"), "en".to_owned())
    }
}

} // verus!
