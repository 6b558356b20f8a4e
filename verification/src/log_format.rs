use std::collections::VecDeque;
use vstd::prelude::*;
use vstd::utf8::encode_utf8;

use crate::nix_output::LogLevel;
use crate::status::{clear_codes, Status};

verus! {

/// The label of a level in wire's log, five characters wide.
pub open spec fn level_label(level: LogLevel) -> Seq<char> {
    match level {
        LogLevel::Trace => "TRACE"@,
        LogLevel::Debug => "DEBUG"@,
        LogLevel::Info => " INFO"@,
        LogLevel::Warn => " WARN"@,
        LogLevel::Error => "ERROR"@,
    }
}

/// The label of a level in wire's log, five characters wide.
pub fn fmt_level(level: LogLevel) -> (res: &'static str)
    ensures
        res@ == level_label(level),
{
    match level {
        LogLevel::Trace => "TRACE",
        LogLevel::Debug => "DEBUG",
        LogLevel::Info => " INFO",
        LogLevel::Warn => " WARN",
        LogLevel::Error => "ERROR",
    }
}

/// Every level label is five characters wide, so that messages line up.
pub proof fn level_labels_align(level: LogLevel)
    ensures
        level_label(level).len() == 5,
{
    reveal_strlit("TRACE");
    reveal_strlit("DEBUG");
    reveal_strlit(" INFO");
    reveal_strlit(" WARN");
    reveal_strlit("ERROR");
}

/// The colours of the levels in wire's log.
#[derive(Clone, Copy, Debug, PartialEq, Eq, Structural)]
pub enum LevelColor {
    Purple,
    Blue,
    Green,
    Yellow,
    Red,
}

/// The colour of a level in wire's log.
pub open spec fn color_of(level: LogLevel) -> LevelColor {
    match level {
        LogLevel::Trace => LevelColor::Purple,
        LogLevel::Debug => LevelColor::Blue,
        LogLevel::Info => LevelColor::Green,
        LogLevel::Warn => LevelColor::Yellow,
        LogLevel::Error => LevelColor::Red,
    }
}

/// The colour of a level in wire's log.
pub fn get_style(level: LogLevel) -> (res: LevelColor)
    ensures
        res == color_of(level),
{
    match level {
        LogLevel::Trace => LevelColor::Purple,
        LogLevel::Debug => LevelColor::Blue,
        LogLevel::Info => LevelColor::Green,
        LogLevel::Warn => LevelColor::Yellow,
        LogLevel::Error => LevelColor::Red,
    }
}

/// The concatenation of `bufs`, last first.
pub open spec fn newest_last(bufs: Seq<Seq<u8>>) -> Seq<u8>
    decreases bufs.len(),
{
    if bufs.len() == 0 {
        Seq::empty()
    } else {
        newest_last(bufs.drop_first()) + bufs[0]
    }
}

/// Holds log lines while an interactive prompt is shown, so that they do not
/// clobber the prompt; the newest held line is first.
#[derive(Debug)]
pub struct NonClobberingWriter {
    queue: VecDeque<Vec<u8>>,
}

/// The bytes that clear the status line, where it is shown.
pub open spec fn clear_bytes(status: &Status) -> Seq<u8> {
    if status.shows_progress() {
        encode_utf8(clear_codes())
    } else {
        Seq::empty()
    }
}

impl NonClobberingWriter {
    /// The held lines, newest first.
    pub closed spec fn held(&self) -> Seq<Seq<u8>> {
        self.queue@.map_values(|b: Vec<u8>| b@)
    }

    /// A writer that holds nothing.
    pub fn new() -> (res: Self)
        ensures
            res.held() == Seq::<Seq<u8>>::empty(),
    {
        NonClobberingWriter { queue: VecDeque::new() }
    }

    /// Writes to `out` the codes that clear the status line, then the held
    /// lines, oldest first, each once: afterwards nothing is held. The caller
    /// writes the status line.
    pub fn dump_previous(&mut self, status: &Status, out: &mut Vec<u8>)
        ensures
            final(out)@ == old(out)@ + clear_bytes(status) + newest_last(old(self).held()),
            final(self).held() == Seq::<Seq<u8>>::empty(),
    {
        status.clear(out);
        let ghost start = out@;
        let mut i: usize = self.queue.len();
        while i > 0
            invariant
                i <= self.queue@.len(),
                out@ == start + newest_last(self.held().skip(i as int)),
            decreases i,
        {
            i = i - 1;
            out.extend_from_slice(self.queue[i].as_slice());
            proof {
                let h = self.held();
                assert(h.skip(i as int).drop_first() =~= h.skip(i + 1));
            }
        }
        proof {
            assert(self.held().skip(0) =~= self.held());
        }
        self.queue.clear();
        assert(self.held() =~= Seq::<Seq<u8>>::empty());
    }

    /// Writes a log line. While an interactive prompt holds the terminal
    /// (`clobber_permits` is 0) the line is held, and reported written;
    /// else the held lines and then the line are written above the status
    /// line, and the bytes of it written are returned.
    pub fn write(&mut self, buf: &[u8], status: &mut Status, clobber_permits: usize, out: &mut Vec<u8>) -> (res: usize)
        ensures
            *final(status) == *old(status),
            clobber_permits == 0 ==> res == buf@.len() && final(out)@ == old(out)@ && final(self).held() == seq![
                buf@,
            ] + old(self).held(),
            clobber_permits == 1 ==> final(self).held() == Seq::<Seq<u8>>::empty() && res == buf@.len() && exists|secs: u64|
                final(out)@ == old(out)@ + clear_bytes(old(status)) + newest_last(old(self).held()) + clear_bytes(
                    old(status),
                ) + buf@ + (if old(status).shows_progress() {
                    encode_utf8(#[trigger] crate::status::message_of(old(status).entries(), secs))
                } else {
                    Seq::empty()
                }),
            clobber_permits > 1 ==> final(self).held() == Seq::<Seq<u8>>::empty() && res == 0 && final(out)@ == old(out)@
                + clear_bytes(old(status)) + newest_last(old(self).held()),
    {
        if clobber_permits >= 1 {
            self.dump_previous(status, out);
            let ghost dumped = out@;
            let res = status.write_above_status(buf, out, clobber_permits);
            proof {
                if clobber_permits == 1 {
                    if old(status).shows_progress() {
                        let secs = choose|secs: u64|
                            out@ == dumped + encode_utf8(clear_codes()) + buf@ + encode_utf8(
                                #[trigger] crate::status::message_of(old(status).entries(), secs),
                            );
                        assert(out@ == old(out)@ + clear_bytes(old(status)) + newest_last(old(self).held())
                            + clear_bytes(old(status)) + buf@ + encode_utf8(
                            crate::status::message_of(old(status).entries(), secs),
                        ));
                    } else {
                        let m = crate::status::message_of(old(status).entries(), 0);
                        assert(out@ == old(out)@ + clear_bytes(old(status)) + newest_last(old(self).held())
                            + clear_bytes(old(status)) + buf@ + Seq::<u8>::empty());
                    }
                }
            }
            res
        } else {
            let mut line: Vec<u8> = Vec::new();
            line.extend_from_slice(buf);
            assert(line@ =~= buf@);
            self.queue.push_front(line);
            buf.len()
        }
    }
}

} // verus!
