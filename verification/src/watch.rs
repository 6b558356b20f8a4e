use std::collections::VecDeque;
use vstd::prelude::*;
use vstd::utf8::encode_utf8;

use crate::text::{decimal, u64_to_string};
use crate::logbuffer::{lemma_split_shorter, newline, split_first_line, LogBuffer};
use crate::matcher::{contains_id, match_ids, NeedleMatcher};
use crate::nix_output::{event_view, nix_prefix, nix_prefix_matcher, ChildOutputMode, LogEvent, LogLevel};
use crate::interactive::handle_rawmode_data;
use crate::pty::{
    failed_pattern, handle_normal_data, normal_data_effect, queue_view, started_pattern, succeeded_pattern,
    ChildStatus,
};

verus! {

/// The bell byte, written once to ring the user's terminal at a prompt.
pub open spec fn bell() -> u8 {
    7u8
}

/// The state of the watch over a command's pseudo terminal output.
pub struct WatchModel {
    /// The start, success and failure needles, in that order.
    pub needles: Seq<Seq<u8>>,
    pub mode: ChildOutputMode,
    pub log_stdout: bool,
    /// The start needle was seen: output is now read line by line.
    pub began: bool,
    /// The terminal bell was rung for a prompt.
    pub belled: bool,
    /// Bytes of an unfinished line.
    pub buffer: Seq<u8>,
    /// All bytes read before the command started.
    pub raw: Seq<u8>,
    pub status: ChildStatus,
    /// The "began" signal is still to be sent.
    pub began_pending: bool,
    /// Lines the command wrote to stdout, newest first.
    pub stdout: Seq<Seq<char>>,
    /// Error messages, newest first.
    pub stderr: Seq<Seq<char>>,
    /// The watch is over.
    pub stopped: bool,
}

/// Appends the event `e`, if any, in front of `events`.
pub open spec fn cons_event(
    e: Option<(LogLevel, Seq<char>)>,
    events: Seq<(LogLevel, Seq<char>)>,
) -> Seq<(LogLevel, Seq<char>)> {
    match e {
        Some(e) => seq![e] + events,
        None => events,
    }
}

/// What a line of output read after the start tells of the command: the
/// success needle in it reports success, else the failure needle reports
/// failure; a line with neither reports nothing.
pub open spec fn line_outcome(ids: Seq<usize>) -> Option<bool> {
    if ids.contains(succeeded_pattern()) {
        Some(true)
    } else if ids.contains(failed_pattern()) {
        Some(false)
    } else {
        None
    }
}

/// Handles every complete line in the buffer, in order: the first line that
/// holds the success or the failure needle decides how the command ended
/// and ends the watch (later lines stay unread); any other line, one that
/// holds the start needle included, is handled as normal data. Returns the
/// new state and what to log.
pub open spec fn lines_step(m: WatchModel) -> (WatchModel, Seq<(LogLevel, Seq<char>)>)
    decreases m.buffer.len(),
{
    match split_first_line(m.buffer) {
        None => (m, Seq::empty()),
        Some((line, rest)) => {
            proof {
                lemma_split_shorter(m.buffer);
            }
            match line_outcome(match_ids(m.needles, line)) {
                Some(success) => (
                    WatchModel { buffer: rest, status: ChildStatus::Done { success }, stopped: true, ..m },
                    Seq::empty(),
                ),
                None => {
                    let (e, stdout, stderr) = normal_data_effect(m.mode, m.log_stdout, line, m.stdout, m.stderr);
                    let (m2, events) = lines_step(WatchModel { buffer: rest, stdout, stderr, ..m });
                    (m2, cons_event(e, events))
                },
            }
        },
    }
}

/// The effect of reading `data`: returns the new state, the bytes to echo to
/// the user's stderr, and what to log. Before the command starts, all data
/// read so far is searched for the start needle alone: once it is found the
/// output is read line by line from the next read on (the rest of this read
/// is dropped), and the "began" signal is due; while it is not, the data is
/// echoed as a prompt and the bell rings once. The success and failure
/// needles count only after the start, read line by line as `lines_step`
/// says. A watch that is over stays over.
pub open spec fn chunk_step(m: WatchModel, data: Seq<u8>) -> (WatchModel, Seq<u8>, Seq<(LogLevel, Seq<char>)>) {
    if m.stopped {
        (m, Seq::empty(), Seq::empty())
    } else if !m.began {
        let raw = m.raw + data;
        if match_ids(m.needles, raw).contains(started_pattern()) {
            (WatchModel { raw, began: true, began_pending: false, ..m }, Seq::empty(), Seq::empty())
        } else {
            (
                WatchModel { raw, belled: true, ..m },
                if m.belled { data } else { data.push(bell()) },
                Seq::empty(),
            )
        }
    } else {
        let (m1, events) = lines_step(WatchModel { buffer: m.buffer + data, ..m });
        (m1, Seq::empty(), events)
    }
}

/// A state of the watch that it can reach: the command is reported done
/// only once the watch is over.
pub open spec fn settled(m: WatchModel) -> bool {
    m.status is Done ==> m.stopped
}

/// Reading lines changes neither the needles nor the mode, keeps the bell
/// rung, never asks again for a "began" signal, never undoes a stop or the
/// start, keeps a reachable state reachable, and changes the status only
/// where it ends the watch.
pub proof fn lines_step_keeps(m: WatchModel)
    ensures
        ({
            let m2 = lines_step(m).0;
            &&& m2.needles == m.needles
            &&& m2.mode == m.mode
            &&& m2.belled == m.belled
            &&& m2.began_pending == m.began_pending
            &&& m2.began == m.began
            &&& m.stopped ==> m2.stopped
            &&& settled(m) ==> settled(m2)
            &&& m2.status != m.status ==> m2.stopped
        }),
    decreases m.buffer.len(),
{
    match split_first_line(m.buffer) {
        None => {},
        Some((line, rest)) => {
            lemma_split_shorter(m.buffer);
            match line_outcome(match_ids(m.needles, line)) {
                Some(success) => {},
                None => {
                    let (e, stdout, stderr) = normal_data_effect(m.mode, m.log_stdout, line, m.stdout, m.stderr);
                    lines_step_keeps(WatchModel { buffer: rest, stdout, stderr, ..m });
                },
            }
        },
    }
}

/// The watch of a command's output keeps its promises whatever is read: a
/// watch that is over ignores what follows and echoes nothing; the bell
/// rings at most once; the "began" signal is due at most once; once
/// reported, how the command ended never changes; the success and failure
/// needles read before the start change nothing; once started, output is
/// never echoed as a prompt.
pub proof fn watch_promises(m: WatchModel, data: Seq<u8>)
    ensures
        m.stopped ==> chunk_step(m, data) == (m, Seq::<u8>::empty(), Seq::<(LogLevel, Seq<char>)>::empty()),
        ({
            let (m2, echo, events) = chunk_step(m, data);
            &&& m.belled ==> m2.belled && (echo == data || echo == Seq::<u8>::empty())
            &&& m2.began_pending ==> m.began_pending
            &&& m.stopped ==> m2.stopped
            &&& settled(m) ==> settled(m2)
            &&& settled(m) && m.status is Done ==> m2.status == m.status
            &&& !m.began ==> m2.status == m.status && m2.stopped == m.stopped && events == Seq::<(LogLevel, Seq<char>)>::empty()
            &&& m.began ==> m2.began && echo == Seq::<u8>::empty()
        }),
{
    if !m.stopped && m.began {
        lines_step_keeps(WatchModel { buffer: m.buffer + data, ..m });
    }
}

/// After the start, the first line that holds the success needle, whether or
/// not it also holds the failure needle, ends the watch with success.
pub proof fn success_needle_decides(m: WatchModel, line: Seq<u8>, rest: Seq<u8>)
    requires
        split_first_line(m.buffer) == Some((line, rest)),
        match_ids(m.needles, line).contains(succeeded_pattern()),
    ensures
        lines_step(m).0.status == (ChildStatus::Done { success: true }),
        lines_step(m).0.stopped,
{
}

/// What the caller does after a chunk of output was read.
#[derive(Debug)]
pub struct ChunkReaction {
    /// Bytes to echo to the user's stderr.
    pub to_stderr: Vec<u8>,
    /// Lines to write to wire's log, in order.
    pub events: Vec<LogEvent>,
    /// Send the "began" signal now.
    pub send_began: bool,
    /// The watch is over: stop reading.
    pub stop: bool,
}

/// The model of a sequence of log lines.
pub open spec fn events_view(events: Seq<LogEvent>) -> Seq<(LogLevel, Seq<char>)> {
    events.map_values(|e: LogEvent| (e.level, e.message@))
}

/// The three needles that a command echoes: when it starts, when it
/// succeeded and when it failed.
#[derive(Debug)]
pub struct Needles {
    pub succeed: Vec<u8>,
    pub fail: Vec<u8>,
    pub start: Vec<u8>,
}

/// Whether `c` is an ASCII letter.
pub open spec fn is_ascii_letter(c: char) -> bool {
    ('A' <= c && c <= 'Z') || ('a' <= c && c <= 'z')
}

/// The needle of a prefix: its bytes, then `_W_` and the needle's tag.
pub open spec fn needle_of(prefix: Seq<char>, tag: u8) -> Seq<u8> {
    encode_utf8(prefix) + seq![95u8, 87u8, 95u8, tag]
}

/// The tags of the success, failure and start needles: `Q`, `F` and `S`.
pub open spec fn succeed_tag() -> u8 {
    81u8
}

pub open spec fn fail_tag() -> u8 {
    70u8
}

pub open spec fn start_tag() -> u8 {
    83u8
}

/// Whether `needles` are those of `prefix`.
pub open spec fn needles_of(needles: Needles, prefix: Seq<char>) -> bool {
    &&& needles.succeed@ == needle_of(prefix, succeed_tag())
    &&& needles.fail@ == needle_of(prefix, fail_tag())
    &&& needles.start@ == needle_of(prefix, start_tag())
}

/// The three needles of a prefix differ: each ends in its own tag.
pub proof fn needles_differ(needles: Needles, prefix: Seq<char>)
    requires
        needles_of(needles, prefix),
    ensures
        needles.succeed@ != needles.fail@,
        needles.succeed@ != needles.start@,
        needles.fail@ != needles.start@,
{
    let n = encode_utf8(prefix).len() as int + 3;
    assert(needles.fail@[n] == fail_tag());
    assert(needles.start@[n] == start_tag());
}

/// The bytes of `prefix`, then `_W_` and `tag`.
fn tagged_needle(prefix: &[u8], tag: u8) -> (res: Vec<u8>)
    ensures
        res@ == prefix@ + seq![95u8, 87u8, 95u8, tag],
{
    let mut res: Vec<u8> = Vec::new();
    let mut i: usize = 0;
    while i < prefix.len()
        invariant
            i <= prefix@.len(),
            res@ == prefix@.subrange(0, i as int),
        decreases prefix@.len() - i,
    {
        res.push(prefix[i]);
        i = i + 1;
    }
    res.push(95u8);
    res.push(87u8);
    res.push(95u8);
    res.push(tag);
    res
}

/// The needles of a prefix: it followed by `_W_Q` for success, `_W_F` for
/// failure and `_W_S` for the start.
pub fn needles_from_prefix(prefix: &str) -> (res: Needles)
    ensures
        needles_of(res, prefix@),
{
    let bytes = prefix.as_bytes();
    Needles {
        succeed: tagged_needle(bytes, 81u8),
        fail: tagged_needle(bytes, 70u8),
        start: tagged_needle(bytes, 83u8),
    }
}

/// The length of the random prefix of the needles.
pub open spec fn needle_prefix_len() -> nat {
    5
}

/// `Alphabetic.sample_string` of `rand`, on the thread's generator: `len`
/// random characters. Claimed, as the source of `rand` shows: exactly `len`
/// characters, each an ASCII letter. Which letters come is left unsaid: they
/// are random.
#[verifier::external_body]
fn random_letters(len: usize) -> (res: String)
    ensures
        res@.len() == len,
        forall|i: int| 0 <= i < len ==> is_ascii_letter(#[trigger] res@[i]),
{
    rand::distr::SampleString::sample_string(&rand::distr::Alphabetic, &mut rand::rng(), len)
}

/// Needles that a command's own output is unlikely to hold: those of a
/// random prefix of five ASCII letters.
pub fn create_needles() -> (res: Needles)
    ensures
        exists|prefix: Seq<char>|
            #![trigger needles_of(res, prefix)]
            prefix.len() == needle_prefix_len() && (forall|i: int| 0 <= i < prefix.len() ==> is_ascii_letter(#[trigger] prefix[i]))
                && needles_of(res, prefix),
{
    let prefix = random_letters(5);
    needles_from_prefix(prefix.as_str())
}

/// Watches the output of a command that runs in a pseudo terminal.
#[derive(Debug)]
pub struct PtyWatcher {
    needles: NeedleMatcher,
    prefix: NeedleMatcher,
    output_mode: ChildOutputMode,
    log_stdout: bool,
    began: bool,
    belled: bool,
    log_buffer: LogBuffer,
    raw_mode_buffer: Vec<u8>,
    status: ChildStatus,
    began_pending: bool,
    stdout_collection: VecDeque<String>,
    stderr_collection: VecDeque<String>,
    stopped: bool,
}

impl PtyWatcher {
    /// The state of the watch.
    pub closed spec fn model(&self) -> WatchModel {
        WatchModel {
            needles: self.needles.patterns(),
            mode: self.output_mode,
            log_stdout: self.log_stdout,
            began: self.began,
            belled: self.belled,
            buffer: self.log_buffer@,
            raw: self.raw_mode_buffer@,
            status: self.status,
            began_pending: self.began_pending,
            stdout: queue_view(self.stdout_collection),
            stderr: queue_view(self.stderr_collection),
            stopped: self.stopped,
        }
    }

    /// The watch keeps its matcher of the nix log prefix, and reports the
    /// command done only once the watch is over.
    pub closed spec fn wf(&self) -> bool {
        &&& self.prefix.patterns() == seq![nix_prefix()]
        &&& settled(self.model())
    }

    /// Starts a watch for `needles`; `None` when a matcher cannot be built,
    /// which needles of at most 256 bytes never cause.
    pub fn new(needles: &Needles, output_mode: ChildOutputMode, log_stdout: bool) -> (res: Option<Self>)
        ensures
            needles.start@.len() <= 256 && needles.succeed@.len() <= 256 && needles.fail@.len() <= 256 ==> res is Some,
            res matches Some(w) ==> {
                &&& w.wf()
                &&& w.model() == (WatchModel {
                    needles: seq![needles.start@, needles.succeed@, needles.fail@],
                    mode: output_mode,
                    log_stdout,
                    began: false,
                    belled: false,
                    buffer: Seq::empty(),
                    raw: Seq::empty(),
                    status: ChildStatus::Running,
                    began_pending: true,
                    stdout: Seq::empty(),
                    stderr: Seq::empty(),
                    stopped: false,
                })
            },
    {
        let patterns: Vec<Vec<u8>> = vec![needles.start.clone(), needles.succeed.clone(), needles.fail.clone()];
        proof {
            assert(patterns@.map_values(|p: Vec<u8>| p@) =~= seq![needles.start@, needles.succeed@, needles.fail@]);
        }
        let matcher = match NeedleMatcher::new(&patterns) {
            Some(m) => m,
            None => return None,
        };
        let prefix = match nix_prefix_matcher() {
            Some(m) => m,
            None => return None,
        };
        let w = PtyWatcher {
            needles: matcher,
            prefix,
            output_mode,
            log_stdout,
            began: false,
            belled: false,
            log_buffer: LogBuffer::new(),
            raw_mode_buffer: Vec::new(),
            status: ChildStatus::Running,
            began_pending: true,
            stdout_collection: VecDeque::new(),
            stderr_collection: VecDeque::new(),
            stopped: false,
        };
        proof {
            assert(queue_view(w.stderr_collection) =~= Seq::empty());
        }
        Some(w)
    }

    /// Reads the complete lines of the buffer, as `lines_step` says.
    fn read_lines(&mut self, events: &mut Vec<LogEvent>)
        requires
            old(self).wf(),
            !old(self).stopped,
            old(self).began,
        ensures
            final(self).wf(),
            final(self).model() == lines_step(old(self).model()).0,
            events_view(final(events)@) == events_view(old(events)@) + lines_step(old(self).model()).1,
        decreases old(self).log_buffer@.len(),
    {
        let ghost m = self.model();
        match self.log_buffer.next_line() {
            None => {},
            Some(line) => {
                proof {
                    lemma_split_shorter(m.buffer);
                }
                let ids = self.needles.pattern_ids(line.as_slice());
                if contains_id(&ids, 1) {
                    self.status = ChildStatus::Done { success: true };
                    self.stopped = true;
                } else if contains_id(&ids, 2) {
                    self.status = ChildStatus::Done { success: false };
                    self.stopped = true;
                } else {
                    let event = handle_normal_data(
                        &mut self.stderr_collection,
                        &mut self.stdout_collection,
                        line.as_slice(),
                        self.log_stdout,
                        self.output_mode,
                        &self.prefix,
                    );
                    let ghost before = events@;
                    match event {
                        Some(e) => {
                            events.push(e);
                        },
                        None => {},
                    }
                    proof {
                        let (e, stdout, stderr) = normal_data_effect(m.mode, m.log_stdout, line@, m.stdout, m.stderr);
                        let tail = lines_step(WatchModel { buffer: self.log_buffer@, stdout, stderr, ..m }).1;
                        assert(events_view(events@) == events_view(before) + cons_event(e, Seq::empty()));
                        assert(cons_event(e, tail) =~= cons_event(e, Seq::empty()) + tail);
                    }
                    self.read_lines(events);
                }
            },
        }
    }

    /// Handles a chunk of output read from the pseudo terminal, as
    /// `chunk_step` says.
    pub fn on_chunk(&mut self, data: &[u8]) -> (r: ChunkReaction)
        requires
            old(self).wf(),
        ensures
            final(self).wf(),
            (final(self).model(), r.to_stderr@, events_view(r.events@)) == chunk_step(old(self).model(), data@),
            r.send_began == (old(self).model().began_pending && !final(self).model().began_pending),
            r.stop == final(self).model().stopped,
    {
        if self.stopped {
            return ChunkReaction { to_stderr: Vec::new(), events: Vec::new(), send_began: false, stop: true };
        }
        let was_pending = self.began_pending;
        let mut to_stderr: Vec<u8> = Vec::new();
        let mut events: Vec<LogEvent> = Vec::new();
        if !self.began {
            let started = handle_rawmode_data(&mut to_stderr, data, data.len(), &mut self.raw_mode_buffer, &self.needles);
            proof {
                assert(data@.subrange(0, data@.len() as int) =~= data@);
            }
            if started {
                self.began = true;
                self.began_pending = false;
            } else if !self.belled {
                to_stderr.push(7u8);
                self.belled = true;
            }
        } else {
            self.log_buffer.process_slice(data);
            self.read_lines(&mut events);
            proof {
                assert(events_view(events@) =~= Seq::<(LogLevel, Seq<char>)>::empty() + lines_step(
                    WatchModel { buffer: old(self).model().buffer + data@, ..old(self).model() },
                ).1);
            }
        }
        ChunkReaction { to_stderr, events, send_began: was_pending && !self.began_pending, stop: self.stopped }
    }

    /// Ends the watch once the output is closed: a "began" signal still
    /// pending is to be sent now (the returned flag), and a command that never
    /// reported success or failure is marked failed.
    pub fn finish(&mut self) -> (send_began: bool)
        requires
            old(self).wf(),
        ensures
            final(self).wf(),
            send_began == old(self).model().began_pending,
            final(self).model() == (WatchModel {
                began_pending: false,
                stopped: true,
                status: match old(self).model().status {
                    ChildStatus::Running => ChildStatus::Done { success: false },
                    s => s,
                },
                ..old(self).model()
            }),
    {
        let send = self.began_pending;
        self.began_pending = false;
        self.stopped = true;
        match self.status {
            ChildStatus::Running => {
                self.status = ChildStatus::Done { success: false };
            },
            _ => {},
        }
        send
    }

    /// The status that the needles reported.
    pub fn status(&self) -> (res: ChildStatus)
        ensures
            res == self.model().status,
    {
        self.status
    }

    /// The outcome of the command once it exited with `exit_code`: on a
    /// reported success, the lines it wrote to stdout, oldest first, each
    /// trimmed, joined by newlines; otherwise the failure, with the kept error
    /// messages, oldest first, joined by newlines.
    pub fn command_result(&self, exit_code: u32, command_ran: &String) -> (res: Result<String, CommandFailure>)
        ensures
            self.model().status == (ChildStatus::Done { success: true }) ==> (res matches Ok(logs)
                && logs@ == join_with(self.model().stdout.reverse().map_values(|l: Seq<char>| trimmed(l)), "\n"@)),
            self.model().status != (ChildStatus::Done { success: true }) ==> (res matches Err(f) && {
                &&& f.command_ran@ == command_ran@
                &&& f.logs@ == join_with(self.model().stderr.reverse(), "\n"@)
                &&& f.code@ == "code "@ + decimal(exit_code as nat)
                &&& f.reason@ == (if self.model().status is Done {
                    "marked-unsuccessful"@
                } else {
                    "child-crashed-before-succeeding"@
                })
            }),
    {
        match self.status {
            ChildStatus::Done { success: true } => {
                let logs = join_newest_last(&self.stdout_collection, true);
                Ok(logs)
            },
            _ => {
                let logs = join_newest_last(&self.stderr_collection, false);
                let mut code = String::from_str("code ");
                let digits = u64_to_string(exit_code as u64);
                code.append(digits.as_str());
                let reason = match self.status {
                    ChildStatus::Done { .. } => String::from_str("marked-unsuccessful"),
                    ChildStatus::Running => String::from_str("child-crashed-before-succeeding"),
                };
                Err(CommandFailure { command_ran: command_ran.clone(), logs, code, reason })
            },
        }
    }
}

/// A command that did not report success.
#[derive(Debug)]
pub struct CommandFailure {
    pub command_ran: String,
    pub logs: String,
    pub code: String,
    pub reason: String,
}

/// `lines` joined with `sep` between them.
pub open spec fn join_with(lines: Seq<Seq<char>>, sep: Seq<char>) -> Seq<char>
    decreases lines.len(),
{
    if lines.len() == 0 {
        Seq::empty()
    } else if lines.len() == 1 {
        lines[0]
    } else {
        join_with(lines.drop_last(), sep) + sep + lines.last()
    }
}

/// What `str::trim` leaves of `s`.
pub uninterp spec fn trimmed(s: Seq<char>) -> Seq<char>;

/// `str::trim`. Claimed: the named result.
#[verifier::external_body]
fn trim(s: &str) -> (res: String)
    ensures
        res@ == trimmed(s@),
{
    s.trim().to_string()
}

/// The queue, newest first, read oldest first and joined by newlines; each
/// entry trimmed when `trim_each` is set.
fn join_newest_last(queue: &VecDeque<String>, trim_each: bool) -> (res: String)
    ensures
        trim_each ==> res@ == join_with(queue_view(*queue).reverse().map_values(|l: Seq<char>| trimmed(l)), "\n"@),
        !trim_each ==> res@ == join_with(queue_view(*queue).reverse(), "\n"@),
{
    let ghost q = queue_view(*queue);
    let ghost lines = if trim_each { q.reverse().map_values(|l: Seq<char>| trimmed(l)) } else { q.reverse() };
    let mut res = String::new();
    let n = queue.len();
    let mut k: usize = 0;
    while k < n
        invariant
            n == q.len(),
            q == queue_view(*queue),
            0 <= k <= n,
            lines.len() == n,
            lines == (if trim_each { q.reverse().map_values(|l: Seq<char>| trimmed(l)) } else { q.reverse() }),
            res@ == join_with(lines.take(k as int), "\n"@),
        decreases n - k,
    {
        let entry = &queue[n - 1 - k];
        let piece = if trim_each {
            trim(entry.as_str())
        } else {
            entry.clone()
        };
        proof {
            assert(lines.take(k + 1).drop_last() =~= lines.take(k as int));
        }
        if k > 0 {
            res.append("\n");
        }
        res.append(piece.as_str());
        k = k + 1;
    }
    proof {
        assert(lines.take(n as int) =~= lines);
    }
    res
}

} // verus!
