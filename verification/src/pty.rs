use std::collections::VecDeque;
use vstd::prelude::*;

use crate::matcher::{contains_id, match_ids, NeedleMatcher};
use crate::nix_output::{nix_prefix, slice_outcome, ChildOutputMode, LogEvent, LogLevel, TraceOutcome};
use crate::text::{from_utf8_lossy, utf8_lossy};

verus! {

/// Where the command stands, as the needles in its output tell.
#[derive(Clone, Copy, Debug, PartialEq, Eq, Structural)]
pub enum ChildStatus {
    Running,
    Done { success: bool },
}

/// What a search of command output found.
#[derive(Clone, Copy, Debug, PartialEq, Eq, Structural)]
pub enum SearchFindings {
    Nothing,
    Started,
    Terminate,
}

/// The pattern id of the needle that the command echoes when it starts.
pub open spec fn started_pattern() -> usize {
    0
}

/// The pattern id of the needle that the command echoes when it succeeded.
pub open spec fn succeeded_pattern() -> usize {
    1
}

/// The pattern id of the needle that the command echoes when it failed.
pub open spec fn failed_pattern() -> usize {
    2
}

/// The findings of a search that found the needle ids `ids`: a success or
/// failure needle terminates, else a start needle starts.
pub open spec fn findings_of(ids: Seq<usize>) -> SearchFindings {
    if ids.contains(succeeded_pattern()) || ids.contains(failed_pattern()) {
        SearchFindings::Terminate
    } else if ids.contains(started_pattern()) {
        SearchFindings::Started
    } else {
        SearchFindings::Nothing
    }
}

/// The status after a search that found `ids`: the failure needle marks the
/// command failed, else the success needle marks it succeeded.
pub open spec fn status_after(ids: Seq<usize>, status: ChildStatus) -> ChildStatus {
    if ids.contains(failed_pattern()) {
        ChildStatus::Done { success: false }
    } else if ids.contains(succeeded_pattern()) {
        ChildStatus::Done { success: true }
    } else {
        status
    }
}

/// Searches `haystack` for the start, success and failure needles. The
/// success and failure needles set `status`; the start needle consumes the
/// pending "began" signal (`began_pending` turns false: the caller sends it).
pub fn search_string(
    needles: &NeedleMatcher,
    haystack: &[u8],
    status: &mut ChildStatus,
    began_pending: &mut bool,
) -> (res: SearchFindings)
    ensures
        res == findings_of(match_ids(needles.patterns(), haystack@)),
        *final(status) == status_after(match_ids(needles.patterns(), haystack@), *old(status)),
        *final(began_pending) == (*old(began_pending) && !match_ids(needles.patterns(), haystack@).contains(started_pattern())),
{
    let searched = needles.pattern_ids(haystack);
    let started = contains_id(&searched, 0);
    if started {
        *began_pending = false;
    }
    let succeeded = contains_id(&searched, 1);
    if succeeded {
        *status = ChildStatus::Done { success: true };
    }
    let failed = contains_id(&searched, 2);
    if failed {
        *status = ChildStatus::Done { success: false };
    }
    if succeeded || failed {
        return SearchFindings::Terminate;
    }
    if started {
        return SearchFindings::Started;
    }
    SearchFindings::Nothing
}

/// Handles raw data read before the command started: the data joins
/// `raw_mode_buffer`, which is searched for the needles; while nothing is
/// found the data is echoed to `stderr` (it is a prompt for the user).
pub fn handle_rawmode_data(
    stderr: &mut Vec<u8>,
    buffer: &[u8],
    n: usize,
    raw_mode_buffer: &mut Vec<u8>,
    needles: &NeedleMatcher,
    status: &mut ChildStatus,
    began_pending: &mut bool,
) -> (res: SearchFindings)
    requires
        n <= buffer@.len(),
    ensures
        final(raw_mode_buffer)@ == old(raw_mode_buffer)@ + buffer@.subrange(0, n as int),
        res == findings_of(match_ids(needles.patterns(), final(raw_mode_buffer)@)),
        *final(status) == status_after(match_ids(needles.patterns(), final(raw_mode_buffer)@), *old(status)),
        *final(began_pending) == (*old(began_pending) && !match_ids(needles.patterns(), final(raw_mode_buffer)@).contains(started_pattern())),
        res == SearchFindings::Nothing ==> final(stderr)@ == old(stderr)@ + buffer@.subrange(0, n as int),
        res != SearchFindings::Nothing ==> final(stderr)@ == old(stderr)@,
{
    let data = vstd::slice::slice_subrange(buffer, 0, n);
    raw_mode_buffer.extend_from_slice(data);
    let findings = search_string(needles, raw_mode_buffer.as_slice(), status, began_pending);
    match findings {
        SearchFindings::Nothing => {
            stderr.extend_from_slice(data);
        },
        _ => {},
    }
    findings
}

/// The most error messages that are kept.
pub open spec fn max_kept_errors() -> nat {
    20
}

/// The error messages kept after `msg` arrives: it goes to the front, and
/// only the newest twenty stay.
pub open spec fn kept_errors(msg: Seq<char>, kept: Seq<Seq<char>>) -> Seq<Seq<char>> {
    let pushed = seq![msg] + kept;
    if pushed.len() <= max_kept_errors() {
        pushed
    } else {
        pushed.take(max_kept_errors() as int)
    }
}

/// The newest error message is always kept, in front, before the messages
/// kept so far, newest first; of those only the newest stay, so that at most
/// twenty are kept.
pub proof fn newest_error_is_kept(msg: Seq<char>, kept: Seq<Seq<char>>)
    ensures
        kept_errors(msg, kept)[0] == msg,
        kept_errors(msg, kept).len() == if kept.len() < 20 { kept.len() + 1 } else { 20 },
        forall|i: int| 1 <= i < kept_errors(msg, kept).len() ==> #[trigger] kept_errors(msg, kept)[i] == kept[i - 1],
{
}

/// The model of a queue of strings.
pub open spec fn queue_view(q: VecDeque<String>) -> Seq<Seq<char>> {
    q@.map_values(|s: String| s@)
}

/// `#`, which marks a line that the command wrote to its stdout.
pub open spec fn stdout_marker() -> u8 {
    35u8
}

/// The effect of a line of output once the command started: what is
/// logged, and the stdout and error collections after it.
pub open spec fn normal_data_effect(
    mode: ChildOutputMode,
    log_stdout: bool,
    line: Seq<u8>,
    stdout: Seq<Seq<char>>,
    stderr: Seq<Seq<char>>,
) -> (Option<(LogLevel, Seq<char>)>, Seq<Seq<char>>, Seq<Seq<char>>) {
    if line.len() > 0 && line[0] == stdout_marker() {
        let stripped = line.subrange(1, line.len() as int);
        (if log_stdout { slice_outcome(mode, stripped).0 } else { None }, seq![utf8_lossy(stripped)] + stdout, stderr)
    } else {
        let outcome = slice_outcome(mode, line);
        (
            outcome.0,
            stdout,
            match outcome.1 {
                Some(msg) => kept_errors(msg, stderr),
                None => stderr,
            },
        )
    }
}

/// A line that is not the command's stdout and that carries an error
/// message puts that message in front of the kept errors, and leaves the
/// stdout lines alone.
pub proof fn error_line_keeps_its_message(
    mode: ChildOutputMode,
    log_stdout: bool,
    line: Seq<u8>,
    stdout: Seq<Seq<char>>,
    stderr: Seq<Seq<char>>,
    msg: Seq<char>,
)
    requires
        !(line.len() > 0 && line[0] == stdout_marker()),
        slice_outcome(mode, line).1 == Some(msg),
    ensures
        normal_data_effect(mode, log_stdout, line, stdout, stderr).2[0] == msg,
        normal_data_effect(mode, log_stdout, line, stdout, stderr).2.len() <= stderr.len() + 1,
        normal_data_effect(mode, log_stdout, line, stdout, stderr).1 == stdout,
{
    newest_error_is_kept(msg, stderr);
}

/// Handles a line of output once the command started. A line marked with
/// `#` came from the command's stdout: without the mark it is put at the
/// front of `stdout_collection`, and traced only when `log_stdout` is set.
/// Any other line is traced, and an error message that it holds is put at
/// the front of `stderr_collection`, which keeps the newest twenty. Returns
/// what to log.
pub fn handle_normal_data(
    stderr_collection: &mut VecDeque<String>,
    stdout_collection: &mut VecDeque<String>,
    line: &[u8],
    log_stdout: bool,
    output_mode: ChildOutputMode,
    prefix: &NeedleMatcher,
) -> (res: Option<LogEvent>)
    requires
        prefix.patterns() == seq![nix_prefix()],
    ensures
        (crate::nix_output::event_view(res), queue_view(*final(stdout_collection)), queue_view(*final(stderr_collection)))
            == normal_data_effect(output_mode, log_stdout, line@, queue_view(*old(stdout_collection)), queue_view(*old(stderr_collection))),
{
    if line.len() > 0 && line[0] == 35u8 {
        let stripped = vstd::slice::slice_subrange(line, 1, line.len());
        let event = if log_stdout {
            output_mode.trace_slice(stripped, prefix).event
        } else {
            None
        };
        let text = from_utf8_lossy(stripped);
        stdout_collection.push_front(text);
        return event;
    }
    let outcome = output_mode.trace_slice(line, prefix);
    let TraceOutcome { event, notable } = outcome;
    match notable {
        Some(msg) => {
            stderr_collection.push_front(msg);
            stderr_collection.truncate(20);
        },
        None => {},
    }
    event
}

} // verus!
