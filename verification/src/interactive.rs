use vstd::prelude::*;

use crate::matcher::{contains_id, match_ids, NeedleMatcher};

verus! {

/// Whether a command that runs in a pseudo terminal has completed, and how.
/// The threads that share it lock it; waiting for completion is theirs.
#[derive(Debug)]
pub struct CompletionStatus {
    completed: bool,
    success: Option<bool>,
}

impl CompletionStatus {
    /// Whether the command completed.
    pub closed spec fn is_completed(&self) -> bool {
        self.completed
    }

    /// Whether the command succeeded, once known.
    pub closed spec fn outcome(&self) -> Option<bool> {
        self.success
    }

    /// An outcome is known exactly when the command completed.
    pub closed spec fn wf(&self) -> bool {
        self.completed <==> self.success is Some
    }

    /// A command that has not completed yet.
    pub fn new() -> (res: Self)
        ensures
            res.wf(),
            !res.is_completed(),
            res.outcome() is None,
    {
        CompletionStatus { completed: false, success: None }
    }

    /// Marks the command completed, successfully or not.
    pub fn mark_completed(&mut self, was_successful: bool)
        ensures
            final(self).wf(),
            final(self).is_completed(),
            final(self).outcome() == Some(was_successful),
    {
        self.completed = true;
        self.success = Some(was_successful);
    }

    /// Whether the completed command succeeded. The blocking is the
    /// caller's: it waits until `completed` holds, and then the outcome is
    /// known; asked earlier, there is none yet.
    pub fn wait(&self) -> (res: Option<bool>)
        requires
            self.wf(),
        ensures
            res == self.outcome(),
            res is Some <==> self.is_completed(),
    {
        self.success
    }

    /// Whether the command completed: the condition that a waiting thread
    /// waits on.
    pub fn completed(&self) -> (res: bool)
        ensures
            res == self.is_completed(),
    {
        self.completed
    }
}

/// Handles raw data read before an interactive command started: the data
/// joins `raw_mode_buffer`, which is searched for the start needle (pattern
/// 0 of `needles`). Returns whether it was found; while it is not, the data
/// is echoed to `stderr` (it is a prompt for the user).
pub fn handle_rawmode_data(
    stderr: &mut Vec<u8>,
    buffer: &[u8],
    n: usize,
    raw_mode_buffer: &mut Vec<u8>,
    needles: &NeedleMatcher,
) -> (res: bool)
    requires
        n <= buffer@.len(),
    ensures
        final(raw_mode_buffer)@ == old(raw_mode_buffer)@ + buffer@.subrange(0, n as int),
        res == match_ids(needles.patterns(), final(raw_mode_buffer)@).contains(0usize),
        !res ==> final(stderr)@ == old(stderr)@ + buffer@.subrange(0, n as int),
        res ==> final(stderr)@ == old(stderr)@,
{
    let data = vstd::slice::slice_subrange(buffer, 0, n);
    raw_mode_buffer.extend_from_slice(data);
    let ids = needles.pattern_ids(raw_mode_buffer.as_slice());
    if contains_id(&ids, 0) {
        return true;
    }
    stderr.extend_from_slice(data);
    false
}

/// The byte written to the cancel pipe once the command began, where its
/// stdin is kept open for wire to write to.
pub open spec fn began_signal() -> u8 {
    98u8
}

/// The byte written to the cancel pipe once the command began, where its
/// stdin is not kept open.
pub open spec fn quit_signal() -> u8 {
    113u8
}

/// The signal sent once the command began: the began signal where its stdin
/// stays open for wire to write to, else the quit signal.
pub open spec fn start_signal(keep_stdin_open: bool) -> u8 {
    if keep_stdin_open {
        began_signal()
    } else {
        quit_signal()
    }
}

/// The signal sent once the command began.
pub fn signal_after_start(keep_stdin_open: bool) -> (res: u8)
    ensures
        res == start_signal(keep_stdin_open),
{
    if keep_stdin_open {
        98u8
    } else {
        113u8
    }
}

/// What the stdin thread forwards after a poll.
#[derive(Debug)]
pub struct Forwarding {
    /// Read the user's input and write it to the command.
    pub user: bool,
    /// Read what wire wrote and write it to the command.
    pub writer: bool,
}

/// What the stdin thread does with a message of its signal pipe.
#[derive(Clone, Copy, Debug, PartialEq, Eq, Structural)]
pub enum SignalOutcome {
    /// Stop and return.
    Quit,
    /// Go on polling.
    Continue,
}

/// The thread that forwards input to a command in a pseudo terminal, the
/// user's and what wire writes, until any byte arrives on its cancel pipe.
#[derive(Debug)]
pub struct StdinWatch {
    quit: bool,
}

impl StdinWatch {
    /// Whether the thread quit.
    pub closed spec fn has_quit(&self) -> bool {
        self.quit
    }

    /// A thread that forwards input.
    pub fn new() -> (res: Self)
        ensures
            !res.has_quit(),
    {
        StdinWatch { quit: false }
    }

    /// What to forward, given which of the user's input and wire's pipe
    /// are ready: what is ready, until the thread quit.
    pub fn forwarding(&self, user_ready: bool, writer_ready: bool) -> (res: Forwarding)
        ensures
            res.user == (!self.has_quit() && user_ready),
            res.writer == (!self.has_quit() && writer_ready),
    {
        Forwarding { user: !self.quit && user_ready, writer: !self.quit && writer_ready }
    }

    /// Takes what was read from the cancel pipe: any byte ends the thread;
    /// an empty read changes nothing.
    pub fn on_signal(&mut self, message: &[u8]) -> (res: SignalOutcome)
        ensures
            (final(self).has_quit(), res) == after_signal(old(self).has_quit(), message@),
    {
        if message.len() > 0 {
            self.quit = true;
            return SignalOutcome::Quit;
        }
        SignalOutcome::Continue
    }
}

/// What a read of the cancel pipe does to the stdin thread, which has quit
/// or not: whether it has quit after it, and whether it stops now.
pub open spec fn after_signal(quit: bool, message: Seq<u8>) -> (bool, SignalOutcome) {
    if message.len() > 0 {
        (true, SignalOutcome::Quit)
    } else {
        (quit, SignalOutcome::Continue)
    }
}

/// Whichever signal is sent once the command began, the stdin thread ends.
pub proof fn start_signal_ends_stdin_thread(keep_stdin_open: bool, quit: bool)
    ensures
        after_signal(quit, seq![start_signal(keep_stdin_open)]) == (true, SignalOutcome::Quit),
{
}

} // verus!
