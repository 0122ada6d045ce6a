use ytdlp_gui::app::{Invocation, OperationKind, YtDlpApp};
use ytdlp_gui::format::FormatInfo;
use ytdlp_gui::message::{decoded_message, download_message, fetch_message, TerminalMessage};
use ytdlp_gui::response::DecodeError;
use ytdlp_gui::transcript::Transcript;

fn format(id: &str) -> FormatInfo {
    FormatInfo {
        format_id: id.to_string(),
        ext: "mp4".to_string(),
        resolution: None,
        vcodec: "avc1".to_string(),
        acodec: None,
    }
}

fn app_with_formats() -> YtDlpApp {
    let mut app = YtDlpApp::new("/usr/bin/yt-dlp".to_string(), "/home/me/videos".to_string());
    app.set_url("https://example.org/watch?v=1".to_string());
    app.process_status_message(TerminalMessage::FormatsReady(vec![format("137"), format("22")]));
    app
}

fn strings(items: &[&str]) -> Vec<String> {
    items.iter().map(|s| s.to_string()).collect()
}

#[test]
fn new_state_is_idle_and_empty() {
    let app = YtDlpApp::new("yt-dlp".to_string(), "out".to_string());
    assert_eq!(app.yt_dlp_path(), "yt-dlp");
    assert_eq!(app.download_dir(), "out");
    assert_eq!(app.url(), "");
    assert_eq!(app.status(), "");
    assert!(app.formats().is_empty());
    assert_eq!(app.selected_format(), None);
    assert!(!app.is_busy());
    assert!(!app.is_running(OperationKind::Fetch));
    assert!(!app.is_running(OperationKind::Download));
}

#[test]
fn fetch_hands_out_the_call_and_marks_the_fetch() {
    let mut app = YtDlpApp::new("yt-dlp".to_string(), "out".to_string());
    app.set_url("https://example.org/v".to_string());
    let call = app.fetch_formats();
    assert_eq!(
        call,
        Some(Invocation {
            program: "yt-dlp".to_string(),
            arguments: strings(&[
                "--no-check-certificate",
                "--skip-download",
                "--print-json",
                "https://example.org/v"
            ]),
        })
    );
    assert!(app.is_running(OperationKind::Fetch));
    assert!(!app.is_running(OperationKind::Download));
    assert!(app.is_busy());
    assert_eq!(app.status(), "\u{23f3} Fetching formats...");
}

#[test]
fn second_fetch_while_one_is_in_flight_is_dropped() {
    let mut app = YtDlpApp::new("yt-dlp".to_string(), "out".to_string());
    assert!(app.start(OperationKind::Fetch).is_some());
    app.set_status("shown".to_string());
    app.set_url("changed".to_string());
    assert_eq!(app.start(OperationKind::Fetch), None);
    assert_eq!(app.fetch_formats(), None);
    assert_eq!(app.status(), "shown");
    assert_eq!(app.url(), "changed");
    assert!(app.is_running(OperationKind::Fetch));
}

#[test]
fn download_hands_out_the_call_for_the_selected_format() {
    let mut app = app_with_formats();
    assert!(app.select_format(1));
    let call = app.download_selected_format();
    assert_eq!(
        call,
        Some(Invocation {
            program: "/usr/bin/yt-dlp".to_string(),
            arguments: strings(&[
                "--no-check-certificate",
                "-f",
                "22",
                "-o",
                "/home/me/videos/%(title)s.%(ext)s",
                "https://example.org/watch?v=1"
            ]),
        })
    );
    assert!(app.is_running(OperationKind::Download));
    assert!(!app.is_running(OperationKind::Fetch));
    assert_eq!(app.status(), "\u{23f3} Downloading...");
}

#[test]
fn download_without_a_selection_does_nothing() {
    let mut app = app_with_formats();
    let status = app.status().clone();
    assert_eq!(app.download_selected_format(), None);
    assert_eq!(app.start(OperationKind::Download), None);
    assert!(!app.is_busy());
    assert_eq!(app.status(), &status);
}

#[test]
fn download_while_one_is_in_flight_changes_nothing() {
    let mut app = app_with_formats();
    assert!(app.select_format(0));
    assert!(app.start(OperationKind::Download).is_some());
    let formats = app.formats().clone();
    let status = app.status().clone();
    assert_eq!(app.start(OperationKind::Download), None);
    assert_eq!(app.download_selected_format(), None);
    assert_eq!(app.formats(), &formats);
    assert_eq!(app.status(), &status);
    assert_eq!(app.selected_format(), Some(0));
    assert!(app.is_running(OperationKind::Download));
}

#[test]
fn fetch_and_download_are_gated_apart() {
    let mut app = app_with_formats();
    assert!(app.select_format(0));
    assert!(app.start(OperationKind::Download).is_some());
    assert!(app.start(OperationKind::Fetch).is_some());
    assert!(app.is_running(OperationKind::Fetch));
    assert!(app.is_running(OperationKind::Download));
    app.process_status_message(TerminalMessage::Succeeded("download completed".to_string()));
    assert!(app.is_running(OperationKind::Fetch));
    assert!(!app.is_running(OperationKind::Download));
}

#[test]
fn failed_download_reports_once_and_frees_the_flag() {
    let message = download_message(Ok(false));
    assert_eq!(message, TerminalMessage::Failed("download failed".to_string()));
    let mut app = app_with_formats();
    assert!(app.select_format(0));
    assert!(app.start(OperationKind::Download).is_some());
    let mut transcript = Transcript::new();
    transcript.send(message);
    app.handle_messages(&mut transcript);
    assert!(!app.is_running(OperationKind::Download));
    assert_eq!(app.status(), "\u{274c} download failed");
    assert!(transcript.poll().is_empty());
    assert!(app.start(OperationKind::Download).is_some());
}

#[test]
fn download_messages() {
    assert_eq!(
        download_message(Ok(true)),
        TerminalMessage::Succeeded("download completed".to_string())
    );
    assert_eq!(download_message(Ok(false)), TerminalMessage::Failed("download failed".to_string()));
    assert_eq!(
        download_message(Err("No such file or directory (os error 2)".to_string())),
        TerminalMessage::Failed("No such file or directory (os error 2)".to_string())
    );
}

#[test]
fn fetch_messages() {
    assert_eq!(
        fetch_message(Err("permission denied".to_string())),
        TerminalMessage::Failed("permission denied".to_string())
    );
    assert_eq!(
        fetch_message(Ok(r#"{"format_id":"137","ext":"mp4","vcodec":"avc1"}"#.to_string())),
        TerminalMessage::FormatsReady(vec![format("137")])
    );
    assert_eq!(
        fetch_message(Ok("[]".to_string())),
        TerminalMessage::Failed("Error parsing response: no formats found".to_string())
    );
    assert_eq!(
        fetch_message(Ok("7".to_string())),
        TerminalMessage::Failed(
            "Error parsing response: response has none of the known shapes".to_string()
        )
    );
    assert_eq!(
        fetch_message(Ok("".to_string())),
        TerminalMessage::Failed(
            "Error parsing response: EOF while parsing a value at line 1 column 0".to_string()
        )
    );
}

#[test]
fn decoded_messages() {
    assert_eq!(
        decoded_message(Ok(vec![format("1")])),
        TerminalMessage::FormatsReady(vec![format("1")])
    );
    assert_eq!(
        decoded_message(Err(DecodeError::Syntax("expected value".to_string()))),
        TerminalMessage::Failed("Error parsing response: expected value".to_string())
    );
}

#[test]
fn formats_ready_replaces_the_list_and_drops_the_selection() {
    let mut app = app_with_formats();
    assert_eq!(app.status(), "\u{2705} Found 2 formats");
    assert!(app.select_format(1));
    assert!(app.start(OperationKind::Fetch).is_some());
    app.process_status_message(TerminalMessage::FormatsReady(vec![format("9")]));
    assert_eq!(app.formats(), &vec![format("9")]);
    assert_eq!(app.selected_format(), None);
    assert!(!app.is_running(OperationKind::Fetch));
    assert_eq!(app.status(), "\u{2705} Found 1 formats");
}

#[test]
fn success_shows_the_text_and_frees_the_download() {
    let mut app = app_with_formats();
    assert!(app.select_format(0));
    assert!(app.start(OperationKind::Download).is_some());
    app.process_status_message(TerminalMessage::Succeeded("download completed".to_string()));
    assert_eq!(app.status(), "\u{2705} download completed");
    assert!(!app.is_busy());
    assert_eq!(app.selected_format(), Some(0));
    assert_eq!(app.formats().len(), 2);
}

#[test]
fn failure_frees_both_flags() {
    let mut app = app_with_formats();
    assert!(app.select_format(0));
    assert!(app.start(OperationKind::Download).is_some());
    assert!(app.start(OperationKind::Fetch).is_some());
    app.process_status_message(TerminalMessage::Failed("boom".to_string()));
    assert_eq!(app.status(), "\u{274c} boom");
    assert!(!app.is_running(OperationKind::Fetch));
    assert!(!app.is_running(OperationKind::Download));
    assert_eq!(app.formats().len(), 2);
    assert_eq!(app.selected_format(), Some(0));
}

#[test]
fn select_format_stays_within_the_list() {
    let mut app = app_with_formats();
    assert!(!app.select_format(2));
    assert_eq!(app.selected_format(), None);
    assert!(app.select_format(1));
    assert!(!app.select_format(usize::MAX));
    assert_eq!(app.selected_format(), Some(1));
    let mut empty = YtDlpApp::new("p".to_string(), "d".to_string());
    assert!(!empty.select_format(0));
}

#[test]
fn clear_state_keeps_paths_and_flags() {
    let mut app = app_with_formats();
    assert!(app.select_format(0));
    assert!(app.start(OperationKind::Download).is_some());
    app.clear_state();
    assert_eq!(app.url(), "");
    assert_eq!(app.status(), "");
    assert!(app.formats().is_empty());
    assert_eq!(app.selected_format(), None);
    assert_eq!(app.yt_dlp_path(), "/usr/bin/yt-dlp");
    assert_eq!(app.download_dir(), "/home/me/videos");
    assert!(app.is_running(OperationKind::Download));
}

#[test]
fn setters_replace_one_field() {
    let mut app = app_with_formats();
    app.set_yt_dlp_path("a".to_string());
    app.set_download_dir("b".to_string());
    app.set_url("c".to_string());
    app.set_status("d".to_string());
    assert_eq!(app.yt_dlp_path(), "a");
    assert_eq!(app.download_dir(), "b");
    assert_eq!(app.url(), "c");
    assert_eq!(app.status(), "d");
    assert_eq!(app.formats().len(), 2);
}

#[test]
fn poll_drains_in_the_order_of_sending() {
    let mut transcript = Transcript::new();
    assert!(transcript.poll().is_empty());
    let sent = vec![
        TerminalMessage::Failed("1".to_string()),
        TerminalMessage::FormatsReady(vec![format("2")]),
        TerminalMessage::Succeeded("3".to_string()),
        TerminalMessage::Failed("4".to_string()),
    ];
    for message in sent.iter() {
        transcript.send(message.clone());
    }
    assert_eq!(transcript.poll(), sent);
    assert!(transcript.poll().is_empty());
    transcript.send(TerminalMessage::Succeeded("5".to_string()));
    assert_eq!(transcript.poll(), vec![TerminalMessage::Succeeded("5".to_string())]);
    assert!(transcript.poll().is_empty());
}

#[test]
fn handle_messages_applies_all_in_order() {
    let mut app = YtDlpApp::new("p".to_string(), "d".to_string());
    assert!(app.start(OperationKind::Fetch).is_some());
    let mut transcript = Transcript::new();
    transcript.send(TerminalMessage::FormatsReady(vec![format("1"), format("2"), format("3")]));
    transcript.send(TerminalMessage::Succeeded("download completed".to_string()));
    app.handle_messages(&mut transcript);
    assert_eq!(app.formats().len(), 3);
    assert_eq!(app.status(), "\u{2705} download completed");
    assert!(!app.is_busy());
    assert!(transcript.poll().is_empty());
    app.handle_messages(&mut transcript);
    assert_eq!(app.status(), "\u{2705} download completed");
    assert_eq!(app.formats().len(), 3);
}
