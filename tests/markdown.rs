use y2md::{format_markdown, VideoMetadata};

fn metadata(channel: Option<&str>, duration: Option<&str>) -> VideoMetadata {
    VideoMetadata {
        title: "Rust [Tips] #1".to_string(),
        channel: channel.map(|s| s.to_string()),
        duration: duration.map(|s| s.to_string()),
        video_id: "dQw4w9WgXcQ".to_string(),
        url: "https://www.youtube.com/watch?v=dQw4w9WgXcQ".to_string(),
    }
}

#[test]
fn document_with_every_field() {
    let doc = format_markdown(
        &metadata(Some("my_channel"), Some("03:25")),
        "hello world",
        "captions",
        true,
        false,
        4,
        "2024-01-01T00:00:00+00:00",
        None,
    );
    let expected = "---\n\
title: \"Rust \\[Tips\\] \\#1\"\n\
channel: \"my\\_channel\"\n\
url: \"https://www.youtube.com/watch?v=dQw4w9WgXcQ\"\n\
video_id: \"dQw4w9WgXcQ\"\n\
duration: \"03:25\"\n\
source: \"captions\"\n\
language: \"en\"\n\
extracted_at: \"2024-01-01T00:00:00+00:00\"\n\
---\n\n\
# Rust \\[Tips\\] \\#1\n\n\
[00:00:00] Hello world.";
    assert_eq!(doc, expected);
}

#[test]
fn document_with_model_text() {
    let doc = format_markdown(&metadata(None, None), "ignored", "whisper", false, true, 4, "t", Some("## Done"));
    assert!(doc.starts_with("---\ntitle: \"Rust \\[Tips\\] \\#1\"\nurl: "));
    assert!(!doc.contains("channel:"));
    assert!(!doc.contains("duration:"));
    assert!(doc.ends_with("# Rust \\[Tips\\] \\#1\n\n## Done"));
}
