use media_helper::progress::parse_progress;
use media_helper::stream::{line_events, LineEvent, OutputStream};

fn parsed(line: &str) -> Option<String> {
    parse_progress(line)
}

#[test]
fn parses_percentage_with_fraction() {
    assert_eq!(parsed("  45.5% of 10MiB"), Some("45.5".to_string()));
    let value: f64 = parsed("  45.5% of 10MiB").unwrap().parse().unwrap();
    assert_eq!(value, 45.5);
}

#[test]
fn line_without_percent_has_no_progress() {
    assert_eq!(parsed("no percent here"), None);
}

#[test]
fn bare_percent_has_no_progress() {
    assert_eq!(parsed("%"), None);
    assert_eq!(parsed("at %"), None);
}

#[test]
fn parses_whole_percentage_followed_by_text() {
    assert_eq!(parsed("100%done"), Some("100".to_string()));
    let value: f64 = parsed("100%done").unwrap().parse().unwrap();
    assert_eq!(value, 100.0);
}

#[test]
fn only_first_percent_counts() {
    assert_eq!(parsed("[download]  12.0% of 3.2MiB at 80% speed"), Some("12.0".to_string()));
    assert_eq!(parsed("x% then 50%"), None);
}

#[test]
fn sign_is_not_part_of_number() {
    assert_eq!(parsed("-5%"), Some("5".to_string()));
}

#[test]
fn malformed_numbers_are_rejected() {
    assert_eq!(parsed("1.2.3%"), None);
    assert_eq!(parsed(" .%"), None);
}

#[test]
fn dot_at_either_end_is_accepted() {
    assert_eq!(parsed("5.%"), Some("5.".to_string()));
    assert_eq!(parsed("x.5%"), Some(".5".to_string()));
}

#[test]
fn number_embedded_in_text_is_recovered() {
    assert_eq!(parsed("progress: 7.25% \u{2026} ok"), Some("7.25".to_string()));
}

#[test]
fn stdout_line_with_progress_gives_log_and_progress() {
    let events = line_events(OutputStream::Stdout, "[download]  50.0% of 1MiB".to_string());
    assert_eq!(events.len(), 2);
    match &events[0] {
        LineEvent::Log(l) => assert_eq!(l, "[download]  50.0% of 1MiB"),
        _ => panic!("first event is not the log line"),
    }
    match &events[1] {
        LineEvent::Progress(p) => assert_eq!(p, "50.0"),
        _ => panic!("second event is not progress"),
    }
}

#[test]
fn stdout_line_without_progress_gives_log_only() {
    let events = line_events(OutputStream::Stdout, "[info] merging".to_string());
    assert_eq!(events.len(), 1);
}

#[test]
fn stderr_line_is_never_progress() {
    let events = line_events(OutputStream::Stderr, "WARNING 10% slower".to_string());
    assert_eq!(events.len(), 1);
    match &events[0] {
        LineEvent::Log(l) => assert_eq!(l, "WARNING 10% slower"),
        _ => panic!("stderr line must be logged"),
    }
}
