use kubefront_core::age::{age_from, human_age};
use kubefront_core::dto::LogEvent;
use kubefront_core::logstream::{log_step, LogRead};
use kubefront_core::remote::{remote_log_end, sse_feed, RemoteLogEnd};
use kubefront_core::session::{log_dir_of, log_file_path};

fn pairs(events: &[LogEvent]) -> Vec<(String, String)> {
    events.iter().map(|e| (e.kind.clone(), e.line.clone())).collect()
}

fn pair(kind: &str, line: &str) -> (String, String) {
    (kind.to_string(), line.to_string())
}

#[test]
fn log_step_passes_a_line_on() {
    let (events, go_on) = log_step(LogRead::Line("starting".into()));
    assert_eq!(pairs(&events), vec![pair("line", "starting")]);
    assert!(go_on);
}

#[test]
fn log_step_skips_an_empty_line() {
    let (events, go_on) = log_step(LogRead::Line(String::new()));
    assert!(events.is_empty());
    assert!(go_on);
}

#[test]
fn log_step_reports_a_read_failure_and_stops() {
    let (events, go_on) = log_step(LogRead::ReadFailed("broken pipe".into()));
    assert_eq!(
        pairs(&events),
        vec![pair("error", "Error reading log line: broken pipe"), pair("ended", "")]
    );
    assert!(!go_on);
}

#[test]
fn log_step_reports_an_open_failure_and_stops() {
    let (events, go_on) = log_step(LogRead::OpenFailed("pod not found".into()));
    assert_eq!(
        pairs(&events),
        vec![pair("error", "Failed to open log stream: pod not found"), pair("ended", "")]
    );
    assert!(!go_on);
}

#[test]
fn log_step_ends_at_the_end_of_the_source() {
    let (events, go_on) = log_step(LogRead::Done);
    assert_eq!(pairs(&events), vec![pair("ended", "")]);
    assert!(!go_on);
}

#[test]
fn a_log_run_emits_one_ended_event_last() {
    let reads = vec![
        LogRead::Line("a".into()),
        LogRead::Line(String::new()),
        LogRead::Line("b".into()),
        LogRead::ReadFailed("eof".into()),
        LogRead::Line("never read".into()),
    ];
    let mut all: Vec<LogEvent> = vec![LogEvent::header("=== pod/web (ns: default) ===")];
    for read in reads {
        let (events, go_on) = log_step(read);
        all.extend(events);
        if !go_on {
            break;
        }
    }
    assert_eq!(
        pairs(&all),
        vec![
            pair("header", "=== pod/web (ns: default) ==="),
            pair("line", "a"),
            pair("line", "b"),
            pair("error", "Error reading log line: eof"),
            pair("ended", ""),
        ]
    );
    assert_eq!(all.iter().filter(|e| e.kind == "ended").count(), 1);
}

#[test]
fn sse_feed_splits_complete_lines_and_keeps_the_rest() {
    let mut buf: Vec<u8> = b"da".to_vec();
    let lines = sse_feed(&mut buf, b"ta: a\n\xff\nrest");
    assert_eq!(lines, vec!["data: a".to_string(), "\u{FFFD}".to_string()]);
    assert_eq!(buf, b"rest".to_vec());
    let more = sse_feed(&mut buf, b" of it\n");
    assert_eq!(more, vec!["rest of it".to_string()]);
    assert!(buf.is_empty());
}

#[test]
fn sse_feed_without_a_newline_only_buffers() {
    let mut buf: Vec<u8> = Vec::new();
    let lines = sse_feed(&mut buf, b"data: partial");
    assert!(lines.is_empty());
    assert_eq!(buf, b"data: partial".to_vec());
}

#[test]
fn remote_log_end_variants() {
    assert_eq!(
        pairs(&remote_log_end(RemoteLogEnd::Refused("pods \"x\" not found".into()))),
        vec![pair("error", "pods \"x\" not found"), pair("ended", "")]
    );
    assert_eq!(
        pairs(&remote_log_end(RemoteLogEnd::RequestFailed("connection refused".into()))),
        vec![pair("error", "failed to open log stream: connection refused"), pair("ended", "")]
    );
    assert_eq!(
        pairs(&remote_log_end(RemoteLogEnd::ChunkFailed("reset".into()))),
        vec![pair("error", "log stream error: reset"), pair("ended", "")]
    );
    assert_eq!(pairs(&remote_log_end(RemoteLogEnd::Finished)), vec![pair("ended", "")]);
}

#[test]
fn log_paths_join_the_directory() {
    let sep = std::path::MAIN_SEPARATOR;
    assert_eq!(log_dir_of("/data/KubeFront"), format!("/data/KubeFront{}logs", sep));
    assert_eq!(
        log_file_path(Some("/var/log/kf")),
        Some(format!("/var/log/kf{}kubefront.log", sep))
    );
    let dir = log_dir_of("/data/KubeFront");
    assert_eq!(
        log_file_path(Some(dir.as_str())),
        Some(format!("/data/KubeFront{sep}logs{sep}kubefront.log"))
    );
}

#[test]
fn human_age_of_a_future_timestamp() {
    assert_eq!(human_age(Some("2999-01-01T00:00:00Z")), "<1s");
}

#[test]
fn human_age_of_an_old_timestamp_counts_days() {
    let a = human_age(Some("1970-01-02T00:00:00+00:00"));
    let days: u64 = a.trim_end_matches('d').parse().unwrap();
    assert!(a.ends_with('d'));
    assert!(days > 19000);
}

#[test]
fn age_from_a_given_clock_reading() {
    assert_eq!(age_from(Some((2 * 86400 + 5, 0)), Some("1970-01-01T00:00:00Z")), "2d");
    assert_eq!(age_from(Some((7200, 0)), Some("1970-01-01T00:00:00Z")), "2h");
    assert_eq!(age_from(Some((125, 0)), Some("1970-01-01T00:00:00Z")), "2m");
    assert_eq!(age_from(Some((10, 999_999_999)), Some("1970-01-01T00:00:00Z")), "10s");
    assert_eq!(age_from(Some((0, 500_000_000)), Some("1970-01-01T00:00:00Z")), "<1s");
    assert_eq!(age_from(Some((60, 0)), Some("1970-01-01T00:02:00Z")), "<1s");
    assert_eq!(age_from(Some((3600, 0)), Some("1970-01-01T01:00:00+01:00")), "1h");
}

#[test]
fn age_from_without_a_usable_clock_shows_the_timestamp() {
    assert_eq!(age_from(None, Some("2020-05-01T10:00:00Z")), "2020-05-01T10:00:00Z");
    assert_eq!(age_from(Some((u64::MAX, 0)), Some("2020-05-01T10:00:00Z")), "2020-05-01T10:00:00Z");
    assert_eq!(age_from(Some((i64::MAX as u64, 0)), Some("2020-05-01T10:00:00Z")), "2020-05-01T10:00:00Z");
    assert_eq!(age_from(None, None), "-");
    assert_eq!(age_from(None, Some("yesterday")), "yesterday");
}
