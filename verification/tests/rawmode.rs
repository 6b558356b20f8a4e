use wire::interactive;
use wire::matcher::NeedleMatcher;
use wire::pty::{handle_rawmode_data, ChildStatus, SearchFindings};

fn matcher(needles: &[&str]) -> NeedleMatcher {
    let patterns: Vec<Vec<u8>> = needles.iter().map(|n| n.as_bytes().to_vec()).collect();
    NeedleMatcher::new(&patterns).unwrap()
}

#[test]
fn mod_test_rawmode_data() {
    let aho_corasick = matcher(&["START_NEEDLE", "SUCCEEDED_NEEDLE", "FAILED_NEEDLE"]);
    let mut stderr = vec![];
    let mut began_pending = true;
    let mut status = ChildStatus::Running;

    // each "Bla" is 4 bytes.
    let buffer = "bla bla bla START_NEEDLE bla bla bla".as_bytes();
    let mut raw_mode_buffer = vec![];

    // handle 1 "bla"
    assert!(matches!(
        handle_rawmode_data(&mut stderr, buffer, 4, &mut raw_mode_buffer, &aho_corasick, &mut status, &mut began_pending),
        SearchFindings::Nothing
    ));
    assert!(began_pending);
    assert_eq!(raw_mode_buffer, b"bla ");
    assert!(matches!(status, ChildStatus::Running));

    let buffer = &buffer[4..];

    // handle 2 "bla"'s and half a "START_NEEDLE"
    let n = 4 + 4 + 6;
    assert!(matches!(
        handle_rawmode_data(&mut stderr, buffer, n, &mut raw_mode_buffer, &aho_corasick, &mut status, &mut began_pending),
        SearchFindings::Nothing
    ));
    assert!(began_pending);
    assert!(matches!(status, ChildStatus::Running));
    assert_eq!(raw_mode_buffer, b"bla bla bla START_");

    let buffer = &buffer[n..];

    // handle rest of the data
    let n = buffer.len();
    assert!(matches!(
        handle_rawmode_data(&mut stderr, buffer, n, &mut raw_mode_buffer, &aho_corasick, &mut status, &mut began_pending),
        SearchFindings::Started
    ));
    assert!(!began_pending);
    assert_eq!(raw_mode_buffer, b"bla bla bla START_NEEDLE bla bla bla");
    assert!(matches!(status, ChildStatus::Running));

    // test failed needle
    let buffer = "bla FAILED_NEEDLE bla".as_bytes();
    let mut raw_mode_buffer = vec![];

    let n = buffer.len();
    assert!(matches!(
        handle_rawmode_data(&mut stderr, buffer, n, &mut raw_mode_buffer, &aho_corasick, &mut status, &mut began_pending),
        SearchFindings::Terminate
    ));
    assert!(matches!(status, ChildStatus::Done { success: false }));

    // test succeed needle
    let buffer = "bla SUCCEEDED_NEEDLE bla".as_bytes();
    let mut raw_mode_buffer = vec![];
    let mut status = ChildStatus::Running;

    let n = buffer.len();
    assert!(matches!(
        handle_rawmode_data(&mut stderr, buffer, n, &mut raw_mode_buffer, &aho_corasick, &mut status, &mut began_pending),
        SearchFindings::Terminate
    ));
    assert!(matches!(status, ChildStatus::Done { success: true }));
}

#[test]
fn interactive_test_rawmode_data() {
    let aho_corasick = matcher(&["START_NEEDLE"]);
    let mut stderr = vec![];

    // each "Bla" is 4 bytes.
    let buffer = "bla bla bla START_NEEDLE bla bla bla".as_bytes();
    let mut raw_mode_buffer = vec![];

    // handle 1 "bla"
    let began = interactive::handle_rawmode_data(&mut stderr, buffer, 4, &mut raw_mode_buffer, &aho_corasick);
    assert!(!began);
    assert_eq!(raw_mode_buffer, b"bla ");
    // no start signal is due
    assert!(matches!(began, false));

    let buffer = &buffer[4..];

    // handle 2 "bla"'s and half a "START_NEEDLE"
    let n = 4 + 4 + 6;
    let began = interactive::handle_rawmode_data(&mut stderr, buffer, n, &mut raw_mode_buffer, &aho_corasick);
    assert!(!began);
    // still no start signal is due
    assert!(matches!(began, false));
    assert_eq!(raw_mode_buffer, b"bla bla bla START_");

    let buffer = &buffer[n..];

    // handle rest of the data
    let n = buffer.len();
    let began = interactive::handle_rawmode_data(&mut stderr, buffer, n, &mut raw_mode_buffer, &aho_corasick);
    assert!(began);
    // the start signal is due now
    assert!(matches!(began, true));
    assert_eq!(raw_mode_buffer, b"bla bla bla START_NEEDLE bla bla bla");
}

#[test]
fn prompts_are_echoed_until_the_start() {
    let aho_corasick = matcher(&["START_NEEDLE", "SUCCEEDED_NEEDLE", "FAILED_NEEDLE"]);
    let mut stderr = vec![];
    let mut began_pending = true;
    let mut status = ChildStatus::Running;
    let mut raw_mode_buffer = vec![];
    let prompt = b"[sudo] password for root: ";
    handle_rawmode_data(&mut stderr, prompt, prompt.len(), &mut raw_mode_buffer, &aho_corasick, &mut status, &mut began_pending);
    assert_eq!(stderr, prompt.to_vec());
    let rest = b"\nSTART_NEEDLE\n";
    let found = handle_rawmode_data(&mut stderr, rest, rest.len(), &mut raw_mode_buffer, &aho_corasick, &mut status, &mut began_pending);
    assert_eq!(found, SearchFindings::Started);
    // the data that held the needle is not echoed
    assert_eq!(stderr, prompt.to_vec());
}

#[test]
fn only_the_first_n_bytes_are_read() {
    let aho_corasick = matcher(&["START_NEEDLE"]);
    let mut stderr = vec![];
    let mut raw_mode_buffer = vec![];
    let buffer = b"abcSTART_NEEDLE";
    assert!(!interactive::handle_rawmode_data(&mut stderr, buffer, 3, &mut raw_mode_buffer, &aho_corasick));
    assert_eq!(stderr, b"abc".to_vec());
}
