use wire::interactive::{signal_after_start, CompletionStatus, SignalOutcome, StdinWatch};

#[test]
fn completion_reports_the_outcome() {
    let mut status = CompletionStatus::new();
    assert!(!status.completed());
    assert_eq!(status.wait(), None);
    status.mark_completed(true);
    assert!(status.completed());
    assert_eq!(status.wait(), Some(true));
    let mut status = CompletionStatus::new();
    status.mark_completed(false);
    assert_eq!(status.wait(), Some(false));
}

#[test]
fn signals_after_start() {
    assert_eq!(signal_after_start(true), b'b');
    assert_eq!(signal_after_start(false), b'q');
}

#[test]
fn any_byte_on_the_cancel_pipe_ends_the_thread() {
    let mut watch = StdinWatch::new();
    let f = watch.forwarding(true, true);
    assert!(f.user && f.writer);
    assert_eq!(watch.on_signal(&[signal_after_start(true)]), SignalOutcome::Quit);
    let f = watch.forwarding(true, true);
    assert!(!f.user && !f.writer);
    let mut watch = StdinWatch::new();
    assert_eq!(watch.on_signal(b"q"), SignalOutcome::Quit);
    let mut watch = StdinWatch::new();
    assert_eq!(watch.on_signal(b"x"), SignalOutcome::Quit);
}

#[test]
fn an_empty_read_changes_nothing() {
    let mut watch = StdinWatch::new();
    assert_eq!(watch.on_signal(b""), SignalOutcome::Continue);
    assert!(watch.forwarding(true, false).user);
}
