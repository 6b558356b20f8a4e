use wire::log_format::{fmt_level, get_style, LevelColor, NonClobberingWriter};
use wire::nix_output::LogLevel;
use wire::node::Name;
use wire::status::Status;

#[test]
fn level_labels() {
    assert_eq!(fmt_level(LogLevel::Trace), "TRACE");
    assert_eq!(fmt_level(LogLevel::Debug), "DEBUG");
    assert_eq!(fmt_level(LogLevel::Info), " INFO");
    assert_eq!(fmt_level(LogLevel::Warn), " WARN");
    assert_eq!(fmt_level(LogLevel::Error), "ERROR");
    for l in [LogLevel::Trace, LogLevel::Debug, LogLevel::Info, LogLevel::Warn, LogLevel::Error] {
        assert_eq!(fmt_level(l).len(), 5);
    }
}

#[test]
fn level_colors() {
    assert_eq!(get_style(LogLevel::Trace), LevelColor::Purple);
    assert_eq!(get_style(LogLevel::Debug), LevelColor::Blue);
    assert_eq!(get_style(LogLevel::Info), LevelColor::Green);
    assert_eq!(get_style(LogLevel::Warn), LevelColor::Yellow);
    assert_eq!(get_style(LogLevel::Error), LevelColor::Red);
}

#[test]
fn lines_are_held_during_a_prompt() {
    let mut writer = NonClobberingWriter::new();
    let mut status = Status::new();
    let mut out = Vec::new();
    assert_eq!(writer.write(b"one\n", &mut status, 0, &mut out), 4);
    assert_eq!(writer.write(b"two\n", &mut status, 0, &mut out), 4);
    assert!(out.is_empty());
    assert_eq!(writer.write(b"three\n", &mut status, 1, &mut out), 6);
    assert_eq!(out, b"one\ntwo\nthree\n".to_vec());
}

#[test]
fn lines_go_above_the_status_line() {
    let mut writer = NonClobberingWriter::new();
    let mut status = Status::new();
    status.show_progress(true);
    let mut out = Vec::new();
    writer.write(b"x\n", &mut status, 1, &mut out);
    let clear = "\x1b[s\x1b[999D\x1b[2K";
    // no node: the status line is empty
    assert_eq!(String::from_utf8(out).unwrap(), format!("{clear}{clear}x\n"));
    let names = [Name("a".to_string())];
    let refs: Vec<&Name> = names.iter().collect();
    status.add_many(&refs);
    let mut out = Vec::new();
    writer.write(b"y\n", &mut status, 1, &mut out);
    let text = String::from_utf8(out).unwrap();
    assert!(text.starts_with(&format!("{clear}{clear}y\n[0 / 1] ")));
    assert!(text.ends_with('s'));
}

#[test]
fn held_lines_are_written_once() {
    let mut writer = NonClobberingWriter::new();
    let status = Status::new();
    let mut status2 = Status::new();
    let mut out = Vec::new();
    writer.write(b"a", &mut status2, 0, &mut out);
    writer.write(b"b", &mut status2, 0, &mut out);
    writer.dump_previous(&status, &mut out);
    writer.dump_previous(&status, &mut out);
    assert_eq!(out, b"ab".to_vec());
    writer.write(b"c\n", &mut status2, 1, &mut out);
    assert_eq!(out, b"abc\n".to_vec());
}
