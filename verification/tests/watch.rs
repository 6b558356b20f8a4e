use wire::nix_output::{ChildOutputMode, LogLevel};
use wire::pty::ChildStatus;
use wire::watch::{create_needles, needles_from_prefix, PtyWatcher};

#[test]
fn needles_of_a_prefix() {
    let needles = needles_from_prefix("abcde");
    assert_eq!(needles.succeed, b"abcde_W_Q".to_vec());
    assert_eq!(needles.fail, b"abcde_W_F".to_vec());
    assert_eq!(needles.start, b"abcde_W_S".to_vec());
}

#[test]
fn random_needles_share_a_letter_prefix() {
    let needles = create_needles();
    assert_eq!(needles.succeed.len(), 9);
    let prefix = &needles.succeed[..5];
    assert!(prefix.iter().all(|b| b.is_ascii_alphabetic()));
    assert_eq!(&needles.fail[..5], prefix);
    assert_eq!(&needles.start[..5], prefix);
    assert_eq!(&needles.succeed[5..], b"_W_Q");
    assert_eq!(&needles.fail[5..], b"_W_F");
    assert_eq!(&needles.start[5..], b"_W_S");
}

#[test]
fn a_prompt_is_echoed_with_one_bell() {
    let needles = needles_from_prefix("abcde");
    let mut watcher = PtyWatcher::new(&needles, ChildOutputMode::Raw, false).unwrap();
    let r = watcher.on_chunk(b"Password: ");
    assert_eq!(r.to_stderr, b"Password: \x07".to_vec());
    assert!(!r.stop && !r.send_began);
    let r = watcher.on_chunk(b"again");
    assert_eq!(r.to_stderr, b"again".to_vec());
    let r = watcher.on_chunk(b"\nabcde_W_S\n");
    assert!(r.to_stderr.is_empty());
    assert!(r.send_began);
    assert!(!r.stop);
}

#[test]
fn a_successful_command_gives_its_stdout() {
    let needles = needles_from_prefix("abcde");
    let mut watcher = PtyWatcher::new(&needles, ChildOutputMode::Raw, false).unwrap();
    let r = watcher.on_chunk(b"abcde_W_S\n");
    assert!(r.send_began);
    let r = watcher.on_chunk(b"warning: slow\n#  first  \n#second\n");
    assert_eq!(r.events.len(), 1);
    assert_eq!(r.events[0].level, LogLevel::Warn);
    assert_eq!(r.events[0].message, "warning: slow");
    let r = watcher.on_chunk(b"abcde_W_Q\nafter\n");
    assert!(r.stop);
    assert!(r.events.is_empty());
    assert_eq!(watcher.status(), ChildStatus::Done { success: true });
    assert_eq!(watcher.command_result(0, &"cmd".to_string()).unwrap(), "first\nsecond");
    // a watch that is over ignores what follows
    let r = watcher.on_chunk(b"#more\n");
    assert!(r.stop && r.events.is_empty() && r.to_stderr.is_empty());
}

#[test]
fn a_failed_command_gives_its_errors() {
    let needles = needles_from_prefix("abcde");
    let mut watcher = PtyWatcher::new(&needles, ChildOutputMode::Nix, false).unwrap();
    watcher.on_chunk(b"abcde_W_S\n");
    let r = watcher.on_chunk(b"@nix {\"action\":\"msg\",\"level\":0,\"msg\":\"error: boom\"}\n");
    assert_eq!(r.events.len(), 1);
    assert_eq!(r.events[0].level, LogLevel::Error);
    assert_eq!(r.events[0].message, "error: boom");
    let r = watcher.on_chunk(b"abcde_W_F\n");
    assert!(r.stop);
    assert_eq!(watcher.status(), ChildStatus::Done { success: false });
    let failure = watcher.command_result(1, &"nix build".to_string()).unwrap_err();
    assert_eq!(failure.command_ran, "nix build");
    assert_eq!(failure.logs, "error: boom");
    assert_eq!(failure.code, "code 1");
    assert_eq!(failure.reason, "marked-unsuccessful");
}

#[test]
fn output_that_ends_early_is_a_crash() {
    let needles = needles_from_prefix("abcde");
    let mut watcher = PtyWatcher::new(&needles, ChildOutputMode::Raw, false).unwrap();
    watcher.on_chunk(b"no needle here");
    assert!(watcher.finish());
    assert_eq!(watcher.status(), ChildStatus::Done { success: false });
    let failure = watcher.command_result(255, &"x".to_string()).unwrap_err();
    assert_eq!(failure.code, "code 255");
    assert_eq!(failure.reason, "marked-unsuccessful");
}

#[test]
fn a_running_command_that_exits_crashed() {
    let needles = needles_from_prefix("abcde");
    let watcher = PtyWatcher::new(&needles, ChildOutputMode::Raw, false).unwrap();
    let failure = watcher.command_result(2, &"x".to_string()).unwrap_err();
    assert_eq!(failure.reason, "child-crashed-before-succeeding");
}

#[test]
fn needles_before_the_start_change_nothing() {
    let needles = needles_from_prefix("abcde");
    let mut watcher = PtyWatcher::new(&needles, ChildOutputMode::Raw, false).unwrap();
    let r = watcher.on_chunk(b"abcde_W_F abcde_W_Q\n");
    assert!(!r.stop && !r.send_began);
    assert_eq!(r.to_stderr, b"abcde_W_F abcde_W_Q\n\x07".to_vec());
    assert_eq!(watcher.status(), ChildStatus::Running);
    let r = watcher.on_chunk(b"abcde_W_S\n");
    assert!(r.send_began && !r.stop);
    assert_eq!(watcher.status(), ChildStatus::Running);
}

#[test]
fn the_success_needle_wins_over_the_failure_needle() {
    let needles = needles_from_prefix("abcde");
    let mut watcher = PtyWatcher::new(&needles, ChildOutputMode::Raw, false).unwrap();
    watcher.on_chunk(b"abcde_W_S\n");
    let r = watcher.on_chunk(b"abcde_W_F abcde_W_Q\nabcde_W_F\n");
    assert!(r.stop);
    assert_eq!(watcher.status(), ChildStatus::Done { success: true });
    assert!(watcher.command_result(0, &"cmd".to_string()).is_ok());
}

#[test]
fn the_start_needle_after_the_start_is_ordinary_output() {
    let needles = needles_from_prefix("abcde");
    let mut watcher = PtyWatcher::new(&needles, ChildOutputMode::Raw, false).unwrap();
    let r = watcher.on_chunk(b"abcde_W_S\ndropped\n");
    assert!(r.send_began && r.events.is_empty());
    let r = watcher.on_chunk(b"abcde_W_S\n");
    assert!(!r.stop && !r.send_began);
    assert_eq!(r.events.len(), 1);
    assert_eq!(r.events[0].message, "abcde_W_S");
    assert_eq!(watcher.status(), ChildStatus::Running);
}
