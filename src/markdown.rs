use vstd::prelude::*;

use crate::formatting::{escape_markdown, escaped, format_transcript, formatted};
use crate::models::VideoMetadata;
use crate::strings::concat3;

verus! {

/// A front-matter line `key: "value"`.
pub open spec fn field_line(key: Seq<char>, value: Seq<char>) -> Seq<char> {
    key + ": \""@ + value + "\"\n"@
}

/// The front matter of a transcript document.
pub open spec fn front_matter(m: VideoMetadata, source: Seq<char>, extracted_at: Seq<char>) -> Seq<char> {
    "---\n"@ + field_line("title"@, escaped(m.title@)) + match m.channel {
        Some(c) => field_line("channel"@, escaped(c@)),
        None => Seq::empty(),
    } + field_line("url"@, m.url@) + field_line("video_id"@, m.video_id@) + match m.duration {
        Some(d) => field_line("duration"@, d@),
        None => Seq::empty(),
    } + field_line("source"@, source) + field_line("language"@, "en"@) + field_line(
        "extracted_at"@,
        extracted_at,
    ) + "---\n\n"@
}

/// A transcript document: front matter, the title as a heading, an
/// optional timestamp mark, and the body.
pub open spec fn document(
    m: VideoMetadata,
    body: Seq<char>,
    source: Seq<char>,
    include_timestamps: bool,
    extracted_at: Seq<char>,
) -> Seq<char> {
    front_matter(m, source, extracted_at) + "# "@ + escaped(m.title@) + "\n\n"@ + (if include_timestamps {
        "[00:00:00] "@
    } else {
        Seq::empty()
    }) + body
}

fn push_field(doc: &mut String, key: &str, value: &str)
    ensures
        final(doc)@ == old(doc)@ + field_line(key@, value@),
{
    let line = concat3(key, ": \"", value);
    doc.append(line.as_str());
    doc.append("\"\n");
    assert(final(doc)@ =~= old(doc)@ + field_line(key@, value@));
}

/// Assembles a transcript document from its parts.
pub fn markdown_document(
    metadata: &VideoMetadata,
    body: &str,
    source: &str,
    include_timestamps: bool,
    extracted_at: &str,
) -> (r: String)
    ensures
        r@ == document(*metadata, body@, source@, include_timestamps, extracted_at@),
{
    let title = escape_markdown(metadata.title.as_str());
    let mut doc = "---\n".to_owned();
    push_field(&mut doc, "title", title.as_str());
    match &metadata.channel {
        Some(c) => {
            let channel = escape_markdown(c.as_str());
            push_field(&mut doc, "channel", channel.as_str());
        },
        None => {},
    }
    push_field(&mut doc, "url", metadata.url.as_str());
    push_field(&mut doc, "video_id", metadata.video_id.as_str());
    match &metadata.duration {
        Some(d) => push_field(&mut doc, "duration", d.as_str()),
        None => {},
    }
    push_field(&mut doc, "source", source);
    push_field(&mut doc, "language", "en");
    push_field(&mut doc, "extracted_at", extracted_at);
    doc.append("---\n\n");
    let heading = concat3("# ", title.as_str(), "\n\n");
    doc.append(heading.as_str());
    if include_timestamps {
        doc.append("[00:00:00] ");
    }
    doc.append(body);
    proof {
        let m = *metadata;
        assert(doc@ =~= document(m, body@, source@, include_timestamps, extracted_at@));
    }
    doc
}

/// Formats a transcript as a Markdown document, extracted at the time
/// `extracted_at`: with the text that a language model made of it where
/// there is one, else with the transcript formatted for reading.
pub fn format_markdown(
    metadata: &VideoMetadata,
    transcript: &str,
    source: &str,
    include_timestamps: bool,
    compact: bool,
    paragraph_length: usize,
    extracted_at: &str,
    llm_formatted: Option<&str>,
) -> (r: String)
    ensures
        r@ == document(
            *metadata,
            match llm_formatted {
                Some(t) => t@,
                None => formatted(transcript@, compact, paragraph_length as nat),
            },
            source@,
            include_timestamps,
            extracted_at@,
        ),
{
    match llm_formatted {
        Some(t) => markdown_document(metadata, t, source, include_timestamps, extracted_at),
        None => {
            let body = format_transcript(transcript, compact, paragraph_length);
            markdown_document(metadata, body.as_str(), source, include_timestamps, extracted_at)
        },
    }
}

} // verus!
