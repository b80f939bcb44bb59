use y2md::formatting::{format_captions, lines, words};
use y2md::{
    capitalize_first_letter, clean_transcript, escape_markdown, format_duration, format_paragraphs,
    format_transcript, should_add_punctuation,
};

#[test]
fn test_capitalize_first_letter() {
    assert_eq!(capitalize_first_letter("hello"), "Hello");
    assert_eq!(capitalize_first_letter("world"), "World");
    assert_eq!(capitalize_first_letter(""), "");
}

#[test]
fn test_format_transcript_compact() {
    let transcript = "this is a test sentence. this is another sentence.";
    let formatted = format_transcript(transcript, true, 8);
    assert!(formatted.contains("This is a test sentence."));
    assert!(formatted.contains("This is another sentence."));
}

#[test]
fn test_format_transcript_enhanced() {
    let transcript = "this is a test sentence. this is another sentence.";
    let formatted = format_transcript(transcript, false, 4);
    assert!(formatted.contains("This is a test sentence."));
    assert!(formatted.contains("This is another sentence."));
}

#[test]
fn test_clean_transcript() {
    let transcript = "hello world how are you";
    let cleaned = clean_transcript(transcript);
    assert_eq!(cleaned, "Hello world how are you.");
}

#[test]
fn test_format_paragraphs() {
    let text = "first. second. third. fourth. fifth.";
    let formatted = format_paragraphs(text, 2);
    assert!(formatted.contains("First. Second."));
    assert!(formatted.contains("Third. Fourth."));
    assert!(formatted.contains("Fifth."));
}

#[test]
fn test_formatting_pipeline() {
    let raw_transcript = "hello world this is a test sentence how are you doing today i hope you are doing well this is another test sentence to demonstrate the formatting capabilities of our system";

    let compact = format_transcript(raw_transcript, true, 8);
    assert!(compact.contains("Hello world this is a test sentence"));
    assert!(compact.contains("how are you doing today"));

    let enhanced = format_transcript(raw_transcript, false, 4);
    assert!(enhanced.contains("Hello world this is a test sentence"));
    assert!(enhanced.contains("how are you doing today"));

    assert_ne!(compact, enhanced);
}

#[test]
fn test_paragraph_length_customization() {
    let transcript = "first sentence. second sentence. third sentence. fourth sentence. fifth sentence. sixth sentence. seventh sentence. eighth sentence. ninth sentence. tenth sentence. eleventh sentence. twelfth sentence.";

    let compact_short = format_transcript(transcript, true, 2);
    let compact_long = format_transcript(transcript, true, 5);
    println!("Compact short (2): '{}'", compact_short);
    println!("Compact long (5): '{}'", compact_long);
    println!("Compact short paragraphs: {}", compact_short.matches("\n\n").count() + 1);
    println!("Compact long paragraphs: {}", compact_long.matches("\n\n").count() + 1);
    assert_ne!(compact_short, compact_long);

    let enhanced_short = format_transcript(transcript, false, 2);
    let enhanced_long = format_transcript(transcript, false, 5);
    println!("Enhanced short (2): '{}'", enhanced_short);
    println!("Enhanced long (5): '{}'", enhanced_long);
    println!("Enhanced short paragraphs: {}", enhanced_short.matches("\n\n").count() + 1);
    println!("Enhanced long paragraphs: {}", enhanced_long.matches("\n\n").count() + 1);
    assert_ne!(enhanced_short, enhanced_long);
}

#[test]
fn paragraphs_are_grouped_exactly() {
    assert_eq!(format_paragraphs("first. second. third. fourth. fifth.", 2), "First. Second.\n\nThird. Fourth.\n\nFifth.");
    assert_eq!(format_paragraphs("  a!  b? c", 5), "A. B. C.");
    assert_eq!(format_paragraphs("", 3), "");
    assert_eq!(format_paragraphs("one. two.", 0), "One.\n\nTwo.");
}

#[test]
fn cleaning_adds_periods_every_twelve_words() {
    let words: Vec<String> = (0..14).map(|i| format!("w{}", i)).collect();
    let cleaned = clean_transcript(&words.join("  "));
    assert_eq!(cleaned, "W0 w1 w2 w3 w4 w5 w6 w7 w8 w9 w10 w11 w12. w13.");
    assert_eq!(clean_transcript("   "), "");
    assert_eq!(clean_transcript("done!"), "Done!");
}

#[test]
fn punctuation_rules() {
    assert!(should_add_punctuation("end", 3, 4));
    assert!(should_add_punctuation("word", 12, 20));
    assert!(!should_add_punctuation("word", 0, 20));
    assert!(!should_add_punctuation("stop.", 3, 4));
    assert!(!should_add_punctuation("word", 5, 20));
}

#[test]
fn capitalization_of_non_ascii() {
    assert_eq!(capitalize_first_letter("ßtraße"), "SStraße");
    assert_eq!(capitalize_first_letter("élan"), "Élan");
}

#[test]
fn markdown_escaping() {
    assert_eq!(escape_markdown("a*b_c"), "a\\*b\\_c");
    assert_eq!(escape_markdown("[x](y) #1 + -2. !"), "\\[x\\]\\(y\\) \\#1 \\+ \\-2\\. \\!");
    assert_eq!(escape_markdown("plain"), "plain");
}

#[test]
fn durations() {
    assert_eq!(format_duration(0), "00:00");
    assert_eq!(format_duration(59), "00:59");
    assert_eq!(format_duration(61), "01:01");
    assert_eq!(format_duration(3600), "01:00:00");
    assert_eq!(format_duration(3 * 3600 + 25 * 60 + 7), "03:25:07");
    assert_eq!(format_duration(123 * 3600), "123:00:00");
}

#[test]
fn subtitles_to_text() {
    let srt = "1\n00:00:01,000 --> 00:00:02,000\nHello there\nfriend\n\n2\n00:00:03,000 --> 00:00:04,000\n  General  \n\n";
    assert_eq!(y2md::srt_to_plain_text(srt), "Hello there friend  General");
    assert_eq!(y2md::srt_to_plain_text(""), "");
    assert_eq!(y2md::srt_to_plain_text("a --> b\n\nkept"), "kept");
}

#[test]
fn captions_keep_music() {
    assert_eq!(format_captions("\u{266a} la la \u{266a}", false), "\u{266a} la la \u{266a}");
    assert_eq!(format_captions("[Music] hi", false), "[Music] hi");
    assert_eq!(format_captions("hello there", false), "Hello there.");
    assert_eq!(format_captions("[Music] hi", true), "[Music] hi.");
}

#[test]
fn lines_like_std() {
    for text in ["", "a", "a\n", "a\r\nb", "a\r\nb\r\n", "x\r", "\n\n", "one\n\ntwo\r\r\n", "\r\n"] {
        let expected: Vec<String> = text.lines().map(String::from).collect();
        assert_eq!(lines(text), expected, "{:?}", text);
    }
}

#[test]
fn sentences_split_like_std() {
    assert_eq!(format_paragraphs("a..b!?c", 10), "A. B. C.");
    assert_eq!(format_paragraphs("...", 1), "");
}

#[test]
fn words_and_trim_like_std() {
    let texts = ["", "  a  b ", "x\u{3000}y\u{a0}z\n\tq", "\u{2009}\u{85}", "one"];
    for text in texts {
        let expected: Vec<String> = text.split_whitespace().map(String::from).collect();
        assert_eq!(words(text), expected, "{:?}", text);
        let reply = y2md::dispatch::interpret_reply(y2md::LlmProvider::Ollama, Some(format!("{}!", text)));
        assert_eq!(reply, Ok(format!("{}!", text).trim().to_string()));
    }
}
