use zigcc::config::{trace_file_name, Config};
use zigcc::launch::{exit_status, outcome_of_wait, should_trace, Outcome};
use zigcc::strings::{contains_text, has_segment_text, join};
use zigcc::tee::{Channel, ReadEvent, StreamTee, TeeAction};
use zigcc::trace::{push_decimal, TraceRecord};
use zigcc::FAILURE_EXIT_CODE;

fn record() -> TraceRecord {
    TraceRecord {
        args: vec!["zig-cc".to_string(), "-c".to_string(), "a.c".to_string()],
        command: "zig cc -c a.c".to_string(),
        cwd: "/w".to_string(),
        path: "/z:/bin".to_string(),
        exit_code: -3,
        stdin: Vec::new(),
        stdout: vec![0xff, b'o'],
        stderr: b"warn".to_vec(),
    }
}

#[test]
fn record_has_exact_layout() {
    let bytes = record().to_bytes();
    let mut expected: Vec<u8> = b"---\nARGS:zig-cc -c a.c\nCMD:zig cc -c a.c\nCWD:/w\nPATH:/z:/bin\nEXITCODE:-3\nSTDIN:\n\nSTDOUT:\n".to_vec();
    expected.extend_from_slice(&[0xff, b'o']);
    expected.extend_from_slice(b"\nSTDERR:\nwarn\n***\n");
    assert_eq!(bytes, expected);
}

#[test]
fn appending_keeps_prior_bytes() {
    let mut log = b"earlier record\n".to_vec();
    record().append_to(&mut log);
    assert!(log.starts_with(b"earlier record\n---\n"));
    assert!(log.ends_with(b"\n***\n"));
    let once = log.len();
    record().append_to(&mut log);
    assert_eq!(log.len(), once + record().to_bytes().len());
    assert!(log.starts_with(b"earlier record\n"));
}

#[test]
fn decimal_forms() {
    let mut out = Vec::new();
    push_decimal(&mut out, 0);
    push_decimal(&mut out, b' ' as i32);
    push_decimal(&mut out, i32::MIN);
    push_decimal(&mut out, i32::MAX);
    assert_eq!(out, b"032-21474836482147483647".to_vec());
}

#[test]
fn exit_status_follows_child() {
    assert_eq!(exit_status(outcome_of_wait(Some(0))), 0);
    assert_eq!(exit_status(outcome_of_wait(Some(42))), 42);
    assert_eq!(exit_status(outcome_of_wait(None)), FAILURE_EXIT_CODE);
    assert_eq!(exit_status(Outcome::SpawnFailed), 1);
    assert_eq!(exit_status(Outcome::WaitFailed), 1);
    assert_eq!(exit_status(Outcome::ConfigFailed), 1);
}

#[test]
fn tee_captures_chunks_until_end() {
    let mut tee = StreamTee::new(Channel::Stdout);
    assert!(tee.wants_read(true));
    match tee.on_read(ReadEvent::Chunk(b"ab".to_vec())) {
        TeeAction::Write(w) => assert_eq!(w, b"ab".to_vec()),
        other => panic!("unexpected {:?}", other),
    }
    match tee.on_read(ReadEvent::Chunk(b"c".to_vec())) {
        TeeAction::Write(w) => assert_eq!(w, b"c".to_vec()),
        other => panic!("unexpected {:?}", other),
    }
    assert!(matches!(tee.on_read(ReadEvent::Chunk(Vec::new())), TeeAction::Finish));
    assert!(!tee.wants_read(false));
    assert_eq!(tee.into_captured(), b"abc".to_vec());
}

#[test]
fn tee_stops_on_read_failure() {
    let mut tee = StreamTee::new(Channel::Stderr);
    let _ = tee.on_read(ReadEvent::Chunk(b"x".to_vec()));
    assert!(matches!(tee.on_read(ReadEvent::Failed), TeeAction::ReportAndFinish));
    assert!(!tee.wants_read(false));
    assert_eq!(tee.captured(), &b"x".to_vec());
}

#[test]
fn stdin_forwarder_stops_when_child_done() {
    let tee = StreamTee::new(Channel::Stdin);
    assert!(tee.wants_read(false));
    assert!(!tee.wants_read(true));
    assert_eq!(tee.channel(), Channel::Stdin);
}

#[test]
fn option_lists_by_tool() {
    let cfg = Config {
        zig: "zig".to_string(),
        c_options: vec!["c".to_string()],
        cpp_options: vec!["cpp".to_string()],
        tools_options: vec!["tools".to_string()],
        trace: false,
    };
    assert_eq!(cfg.options_for("cc"), &vec!["c".to_string()]);
    assert_eq!(cfg.options_for("c++"), &vec!["cpp".to_string()]);
    assert_eq!(cfg.options_for("ranlib"), &vec!["tools".to_string()]);
    assert_eq!(cfg.options_for("cppfilt"), &vec!["tools".to_string()]);
}

#[test]
fn trace_file_named_after_tool() {
    assert_eq!(trace_file_name("c++"), "trace-c++.txt");
}

#[test]
fn text_helpers() {
    assert!(contains_text("abcQtCreatorx", "QtCreator"));
    assert!(!contains_text("QtCreato", "QtCreator"));
    assert!(contains_text("abc", ""));
    assert_eq!(join(&vec!["a".to_string(), "b".to_string()], " "), "a b");
    assert_eq!(join(&Vec::new(), " "), "");
}

#[test]
fn trace_only_after_exit_code() {
    assert!(should_trace(true, Outcome::Exited(2)));
    assert!(!should_trace(false, Outcome::Exited(0)));
    assert!(!should_trace(true, Outcome::NoExitCode));
    assert!(!should_trace(true, Outcome::SpawnFailed));
}

#[test]
fn tee_stops_on_write_failure() {
    let mut tee = StreamTee::new(Channel::Stdout);
    let _ = tee.on_read(ReadEvent::Chunk(b"ab".to_vec()));
    assert!(matches!(tee.on_write_failed(), TeeAction::ReportAndFinish));
    assert!(!tee.wants_read(false));
    assert_eq!(tee.into_captured(), b"ab".to_vec());
}

#[test]
fn path_segments() {
    assert!(has_segment_text("/a/bin", "bin"));
    assert!(has_segment_text("bin", "bin"));
    assert!(has_segment_text("a\\bin\\c", "bin"));
    assert!(!has_segment_text("/robin/x", "bin"));
    assert!(!has_segment_text("/a/binx", "bin"));
    assert!(!has_segment_text("bi", "bin"));
}
