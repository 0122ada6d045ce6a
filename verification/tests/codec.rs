use ytdlp_gui::format::short_codec;
use ytdlp_gui::status::{status_tone, StatusTone};
use ytdlp_gui::text::{chars_of, decimal_text, prefix_before, same_text, text_contains};

#[test]
fn short_codec_names_known_families() {
    assert_eq!(short_codec("avc1"), "H.264");
    assert_eq!(short_codec("h264"), "H.264");
    assert_eq!(short_codec("vp9"), "VP9");
    assert_eq!(short_codec("av01"), "AV1");
    assert_eq!(short_codec("mp4a"), "AAC");
    assert_eq!(short_codec("opus"), "Opus");
    assert_eq!(short_codec("none"), "\u{2014}");
}

#[test]
fn short_codec_goes_by_the_family_before_the_dot() {
    assert_eq!(short_codec("avc1.640028"), "H.264");
    assert_eq!(short_codec("mp4a.40.2"), "AAC");
    assert_eq!(short_codec("av01.0.08M.08"), "AV1");
}

#[test]
fn short_codec_keeps_an_unknown_family() {
    assert_eq!(short_codec("vp09.00.40.08"), "vp09");
    assert_eq!(short_codec("theora"), "theora");
    assert_eq!(short_codec("unknown"), "unknown");
}

#[test]
fn short_codec_of_edge_inputs() {
    assert_eq!(short_codec(""), "");
    assert_eq!(short_codec(".avc1"), "");
    assert_eq!(short_codec("AVC1"), "AVC1");
    assert_eq!(short_codec("avc1x"), "avc1x");
}

#[test]
fn prefix_before_stops_at_the_first_stop() {
    assert_eq!(prefix_before("a.b.c", '.'), "a");
    assert_eq!(prefix_before("abc", '.'), "abc");
    assert_eq!(prefix_before(".abc", '.'), "");
    assert_eq!(prefix_before("", '.'), "");
    assert_eq!(prefix_before("h\u{e9}llo.w\u{f6}rld", '.'), "h\u{e9}llo");
    assert_eq!(prefix_before("\u{2014}\u{2014}:x", ':'), "\u{2014}\u{2014}");
}

#[test]
fn same_text_compares_characters() {
    assert!(same_text("formats", "formats"));
    assert!(!same_text("formats", "format"));
    assert!(!same_text("vcodec", "acodec"));
    assert!(same_text("", ""));
}

#[test]
fn decimal_text_writes_numerals() {
    assert_eq!(decimal_text(0), "0");
    assert_eq!(decimal_text(7), "7");
    assert_eq!(decimal_text(10), "10");
    assert_eq!(decimal_text(42), "42");
    assert_eq!(decimal_text(1090), "1090");
    assert_eq!(decimal_text(usize::MAX), usize::MAX.to_string());
}

#[test]
fn chars_of_lists_the_characters() {
    assert_eq!(chars_of("a\u{e9}\u{2014}z"), vec!['a', '\u{e9}', '\u{2014}', 'z']);
    assert_eq!(chars_of(""), Vec::<char>::new());
}

#[test]
fn text_contains_finds_a_part_anywhere() {
    assert!(text_contains("Download completed!", "completed"));
    assert!(text_contains("completed", "completed"));
    assert!(text_contains("xcompleted", "completed"));
    assert!(text_contains("aab", "ab"));
    assert!(text_contains("abc", ""));
    assert!(text_contains("", ""));
    assert!(!text_contains("", "a"));
    assert!(!text_contains("complete", "completed"));
    assert!(!text_contains("error", "Error"));
    assert!(!text_contains("ab", "abc"));
    assert!(text_contains("\u{274c} Error parsing", "Error"));
}

#[test]
fn status_tone_goes_by_the_words_of_the_line() {
    assert_eq!(status_tone("\u{274c} Error parsing response: no formats found"), StatusTone::Error);
    assert_eq!(status_tone("Error: success"), StatusTone::Error);
    assert_eq!(status_tone("\u{2705} download completed"), StatusTone::Success);
    assert_eq!(status_tone("great success"), StatusTone::Success);
    assert_eq!(status_tone("\u{274c} download failed"), StatusTone::Neutral);
    assert_eq!(status_tone("\u{2705} Found 3 formats"), StatusTone::Neutral);
    assert_eq!(status_tone("\u{23f3} Fetching formats..."), StatusTone::Neutral);
    assert_eq!(status_tone(""), StatusTone::Neutral);
}
