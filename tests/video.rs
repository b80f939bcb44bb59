use y2md::video::determine_model_and_language;
use y2md::{extract_video_id, validate_youtube_url, Y2mdError};

#[test]
fn test_extract_video_id_youtube_com() {
    let url = "https://www.youtube.com/watch?v=dQw4w9WgXcQ";
    assert_eq!(extract_video_id(url).unwrap(), "dQw4w9WgXcQ");
}

#[test]
fn test_extract_video_id_youtu_be() {
    let url = "https://youtu.be/dQw4w9WgXcQ";
    assert_eq!(extract_video_id(url).unwrap(), "dQw4w9WgXcQ");
}

#[test]
fn test_extract_video_id_shorts() {
    let url = "https://www.youtube.com/shorts/abc123def45";
    assert_eq!(extract_video_id(url).unwrap(), "abc123def45");
}

#[test]
fn test_extract_video_id_with_params() {
    let url = "https://www.youtube.com/watch?v=dQw4w9WgXcQ&t=42";
    assert_eq!(extract_video_id(url).unwrap(), "dQw4w9WgXcQ");
}

#[test]
fn test_extract_video_id_direct() {
    let url = "dQw4w9WgXcQ";
    assert_eq!(extract_video_id(url).unwrap(), "dQw4w9WgXcQ");
}

#[test]
fn test_validate_youtube_url() {
    let url = "https://www.youtube.com/watch?v=dQw4w9WgXcQ";
    assert_eq!(validate_youtube_url(url).unwrap(), "dQw4w9WgXcQ");
}

#[test]
fn test_invalid_url() {
    let url = "https://example.com";
    assert!(extract_video_id(url).is_err());
}

#[test]
fn more_addresses() {
    assert_eq!(extract_video_id("  https://youtu.be/abcdefghijk?si=x  ").unwrap(), "abcdefghijk");
    assert_eq!(extract_video_id("https://www.youtube.com/watch?v=a&v=bbbbbbbbbbb").unwrap(), "bbbbbbbbbbb");
    assert_eq!(extract_video_id("https://www.youtube.com/watch?x=1"), Err(Y2mdError::VideoIdExtraction));
    assert_eq!(
        extract_video_id("youtube.com/watch?v=x"),
        Err(Y2mdError::InvalidUrl("youtube.com/watch?v=x".to_string()))
    );
    assert_eq!(extract_video_id("dQw4w9WgXc!"), Err(Y2mdError::VideoIdExtraction));
    assert_eq!(
        validate_youtube_url("https://youtu.be/short"),
        Err(Y2mdError::InvalidUrl("Invalid video ID length: short".to_string()))
    );
}

#[test]
fn model_choice() {
    assert_eq!(
        determine_model_and_language(None, "/m/"),
        ("/m/ggml-base.en.bin".to_string(), "en".to_string())
    );
    assert_eq!(
        determine_model_and_language(Some("fr"), "/m/"),
        ("/m/ggml-base.bin".to_string(), "fr".to_string())
    );
    assert_eq!(
        determine_model_and_language(Some("xx"), "/m/"),
        ("/m/ggml-base.en.bin".to_string(), "en".to_string())
    );
}
