use vstd::prelude::*;

use crate::nix_output::{log_level_of, nix_level_to_tracing, LogEvent, LogLevel, VerbosityLevel};
use crate::watch::join_with;

verus! {

/// The level of a nix log message, by its number in nix's JSON logs.
#[derive(Clone, Copy, Debug, PartialEq, Eq, Structural)]
pub enum NixLogLevel {
    Error,
    Warn,
    Notice,
    Info,
    Talkative,
    Chatty,
    Debug,
    Vomit,
}

/// The name of a level, as debug output shows it.
pub open spec fn level_name(level: NixLogLevel) -> Seq<char> {
    match level {
        NixLogLevel::Error => "Error"@,
        NixLogLevel::Warn => "Warn"@,
        NixLogLevel::Notice => "Notice"@,
        NixLogLevel::Info => "Info"@,
        NixLogLevel::Talkative => "Talkative"@,
        NixLogLevel::Chatty => "Chatty"@,
        NixLogLevel::Debug => "Debug"@,
        NixLogLevel::Vomit => "Vomit"@,
    }
}

impl NixLogLevel {
    /// The level's name.
    pub fn name(self) -> (res: String)
        ensures
            res@ == level_name(self),
    {
        match self {
            NixLogLevel::Error => String::from_str("Error"),
            NixLogLevel::Warn => String::from_str("Warn"),
            NixLogLevel::Notice => String::from_str("Notice"),
            NixLogLevel::Info => String::from_str("Info"),
            NixLogLevel::Talkative => String::from_str("Talkative"),
            NixLogLevel::Chatty => String::from_str("Chatty"),
            NixLogLevel::Debug => String::from_str("Debug"),
            NixLogLevel::Vomit => String::from_str("Vomit"),
        }
    }
}

/// What a nix log line does.
#[derive(Debug)]
pub enum NixLogAction {
    /// A message (or the start of an activity), with its text if any.
    Message { level: NixLogLevel, message: Option<String> },
    /// The end of an activity, or a result.
    Stop,
}

/// A log line of nix's internal JSON format.
#[derive(Debug)]
pub struct InternalNixLog {
    pub action: NixLogAction,
}

/// A line that a nix command wrote: parsed, or raw text.
#[derive(Debug)]
pub enum NixLog {
    Internal(InternalNixLog),
    Raw(String),
}

/// The level at which wire logs a nix message of `level`.
pub open spec fn nix_log_level_of(level: NixLogLevel) -> LogLevel {
    match level {
        NixLogLevel::Info | NixLogLevel::Talkative | NixLogLevel::Chatty => LogLevel::Info,
        NixLogLevel::Warn | NixLogLevel::Notice => LogLevel::Warn,
        NixLogLevel::Error => LogLevel::Error,
        NixLogLevel::Debug => LogLevel::Debug,
        NixLogLevel::Vomit => LogLevel::Trace,
    }
}

/// What is logged for an internal log: a message with a non-empty text, at
/// its level's log level.
pub open spec fn internal_event(log: InternalNixLog) -> Option<(LogLevel, Seq<char>)> {
    match log.action {
        NixLogAction::Message { level, message: Some(text) } => if text@.len() == 0 {
            None
        } else {
            Some((nix_log_level_of(level), text@))
        },
        _ => None,
    }
}

/// How an internal log is displayed: `Level: text`, with a placeholder for
/// a message without text; nothing for a stop.
pub open spec fn internal_text(log: InternalNixLog) -> Seq<char> {
    match log.action {
        NixLogAction::Message { level, message } => level_name(level) + ": "@ + match message {
            Some(m) => m@,
            None => "Nix log without text"@,
        },
        NixLogAction::Stop => Seq::empty(),
    }
}

/// How a log line is displayed.
pub open spec fn nix_log_text(log: NixLog) -> Seq<char> {
    match log {
        NixLog::Internal(l) => internal_text(l),
        NixLog::Raw(line) => line@,
    }
}

/// Whether a log line is an error message.
pub open spec fn nix_log_is_error(log: NixLog) -> bool {
    match log {
        NixLog::Internal(l) => l.action matches NixLogAction::Message { level, .. } && level == NixLogLevel::Error,
        NixLog::Raw(_) => false,
    }
}

impl InternalNixLog {
    /// Whether this is an error message.
    pub fn is_error(&self) -> (res: bool)
        ensures
            res == nix_log_is_error(NixLog::Internal(*self)),
    {
        match &self.action {
            NixLogAction::Message { level: NixLogLevel::Error, .. } => true,
            _ => false,
        }
    }

    /// What to log for this line.
    pub fn trace(&self) -> (res: Option<LogEvent>)
        ensures
            crate::nix_output::event_view(res) == internal_event(*self),
    {
        match &self.action {
            NixLogAction::Message { level, message } => {
                let text = match message {
                    Some(text) => text,
                    None => return None,
                };
                if text.as_str().is_empty() {
                    return None;
                }
                let log_level = match level {
                    NixLogLevel::Info | NixLogLevel::Talkative | NixLogLevel::Chatty => LogLevel::Info,
                    NixLogLevel::Warn | NixLogLevel::Notice => LogLevel::Warn,
                    NixLogLevel::Error => LogLevel::Error,
                    NixLogLevel::Debug => LogLevel::Debug,
                    NixLogLevel::Vomit => LogLevel::Trace,
                };
                Some(LogEvent { level: log_level, message: text.clone() })
            },
            NixLogAction::Stop => None,
        }
    }

    /// The line's display.
    pub fn to_display_string(&self) -> (res: String)
        ensures
            res@ == internal_text(*self),
    {
        match &self.action {
            NixLogAction::Message { level, message } => {
                let mut s = level.name();
                s.append(": ");
                match message {
                    Some(m) => s.append(m.as_str()),
                    None => s.append("Nix log without text"),
                }
                s
            },
            NixLogAction::Stop => String::new(),
        }
    }
}

impl NixLog {
    /// Whether this is an error message; raw lines never are.
    pub fn is_error(&self) -> (res: bool)
        ensures
            res == nix_log_is_error(*self),
    {
        match self {
            NixLog::Internal(line) => line.is_error(),
            NixLog::Raw(..) => false,
        }
    }

    /// What to log for this line: raw lines at info level.
    pub fn trace(&self) -> (res: Option<LogEvent>)
        ensures
            crate::nix_output::event_view(res) == match *self {
                NixLog::Internal(l) => internal_event(l),
                NixLog::Raw(line) => Some((LogLevel::Info, line@)),
            },
    {
        match self {
            NixLog::Internal(line) => line.trace(),
            NixLog::Raw(line) => Some(LogEvent { level: LogLevel::Info, message: line.clone() }),
        }
    }

    /// The line's display.
    pub fn to_display_string(&self) -> (res: String)
        ensures
            res@ == nix_log_text(*self),
    {
        match self {
            NixLog::Internal(line) => line.to_display_string(),
            NixLog::Raw(line) => line.clone(),
        }
    }
}

/// The prefix that marks nix's internal JSON log lines.
pub open spec fn nix_line_prefix() -> Seq<char> {
    "@nix "@
}

/// The JSON part of a line: the line without its `@nix ` prefix, if any.
pub open spec fn json_part(line: Seq<char>) -> Seq<char> {
    if line.len() >= 5 && line.take(5) == nix_line_prefix() {
        line.skip(5)
    } else {
        line
    }
}

/// The JSON part of a line of nix output.
pub fn json_part_of(line: &str) -> (res: String)
    ensures
        res@ == json_part(line@),
{
    let n = line.unicode_len();
    if n >= 5 {
        let head = line.substring_char(0, 5);
        let prefix = String::from_str("@nix ");
        if String::from_str(head) == prefix {
            proof {
                reveal_strlit("@nix ");
            }
            return String::from_str(line.substring_char(5, n));
        }
    }
    String::from_str(line)
}

/// The log kept for `line`, given what its JSON part parsed to.
pub fn log_from_line(line: String, parsed: Option<InternalNixLog>) -> (res: Option<NixLog>)
    ensures
        match parsed {
            Some(l) => match l.action {
                NixLogAction::Stop => res is None,
                _ => res == Some(NixLog::Internal(l)),
            },
            None => res matches Some(NixLog::Raw(r)) && r@ == line@,
        },
{
    match parsed {
        Some(log) => match log.action {
            NixLogAction::Stop => None,
            _ => Some(NixLog::Internal(log)),
        },
        None => Some(NixLog::Raw(line)),
    }
}

/// The lines shown in an error: the last twenty, joined by newlines.
pub open spec fn last_lines(lines: Seq<Seq<char>>) -> Seq<char> {
    if lines.len() <= 20 {
        join_with(lines, "\n"@)
    } else {
        join_with(lines.skip(lines.len() - 20), "\n"@)
    }
}

/// The last twenty of `lines`, joined by newlines.
pub fn format_error_lines(lines: &Vec<String>) -> (res: String)
    ensures
        res@ == last_lines(lines@.map_values(|l: String| l@)),
{
    let ghost all = lines@.map_values(|l: String| l@);
    let n = lines.len();
    let start: usize = if n > 20 { n - 20 } else { 0 };
    let ghost shown = all.skip(start as int);
    let mut res = String::new();
    let mut k: usize = start;
    while k < n
        invariant
            start <= k <= n,
            n == lines@.len(),
            all == lines@.map_values(|l: String| l@),
            shown == all.skip(start as int),
            res@ == join_with(shown.take(k - start), "\n"@),
        decreases n - k,
    {
        proof {
            assert(shown.take(k + 1 - start).drop_last() =~= shown.take(k - start));
        }
        if k > start {
            res.append("\n");
        }
        res.append(lines[k].as_str());
        k = k + 1;
    }
    proof {
        assert(shown.take(n - start) =~= shown);
        if n <= 20 {
            assert(shown =~= all);
        }
    }
    res
}

/// The error messages among `logs`, displayed, joined by newlines.
pub open spec fn error_lines(logs: Seq<NixLog>) -> Seq<char> {
    join_with(logs.filter(|l: NixLog| nix_log_is_error(l)).map_values(|l: NixLog| nix_log_text(l)), "\n"@)
}

/// The error messages among `logs`, as displayed in wire's errors.
pub fn format_error_logs(logs: &Vec<NixLog>) -> (res: String)
    ensures
        res@ == error_lines(logs@),
{
    let mut res = String::new();
    let mut count: usize = 0;
    let mut k: usize = 0;
    while k < logs.len()
        invariant
            0 <= k <= logs@.len(),
            count == logs@.take(k as int).filter(|l: NixLog| nix_log_is_error(l)).len(),
            res@ == join_with(logs@.take(k as int).filter(|l: NixLog| nix_log_is_error(l)).map_values(|l: NixLog| nix_log_text(l)), "\n"@),
        decreases logs@.len() - k,
    {
        let ghost prefix = logs@.take(k as int);
        proof {
            assert(logs@.take(k + 1).drop_last() =~= prefix);
            reveal_with_fuel(Seq::filter, 1);
        }
        if logs[k].is_error() {
            let text = logs[k].to_display_string();
            if count > 0 {
                res.append("\n");
            }
            res.append(text.as_str());
            count = count + 1;
            proof {
                let f = logs@.take(k + 1).filter(|l: NixLog| nix_log_is_error(l));
                let g = prefix.filter(|l: NixLog| nix_log_is_error(l));
                let fm = f.map_values(|l: NixLog| nix_log_text(l));
                let gm = g.map_values(|l: NixLog| nix_log_text(l));
                assert(fm.drop_last() =~= gm);
            }
        }
        k = k + 1;
    }
    proof {
        assert(logs@.take(logs@.len() as int) =~= logs@);
    }
    res
}

/// A message of nix's log protocol.
#[derive(Debug)]
pub enum LogMessage {
    Msg { level: VerbosityLevel, msg: String },
    Start { text: String, level: VerbosityLevel },
    SetPhase { phase: String },
    Other,
}

/// The text of a message worth keeping as an error: errors, warnings and
/// notices.
pub fn get_errorish_message(message: &LogMessage) -> (res: Option<&String>)
    ensures
        match *message {
            LogMessage::Msg { level, msg } => if crate::nix_output::errorish(level) {
                res == Some(&msg)
            } else {
                res is None
            },
            _ => res is None,
        },
{
    match message {
        LogMessage::Msg { level, msg } => {
            if level.is_errorish() {
                Some(msg)
            } else {
                None
            }
        },
        _ => None,
    }
}

/// A line that a subcommand wrote: a parsed log message, or raw text.
#[derive(Debug)]
pub enum SubcommandLog {
    Internal(LogMessage),
    Raw(String),
}

/// How a subcommand line is displayed: `Level: msg` for a message, nothing
/// for other log messages, the text of a raw line.
pub open spec fn subcommand_text(log: SubcommandLog) -> Seq<char> {
    match log {
        SubcommandLog::Internal(LogMessage::Msg { level, msg }) => crate::nix_output::verbosity_name(level) + ": "@
            + msg@,
        SubcommandLog::Internal(_) => Seq::empty(),
        SubcommandLog::Raw(line) => line@,
    }
}

/// What is logged for a subcommand line: a message or an activity start
/// with non-empty text, at its level's log level; a phase at info level;
/// a non-empty raw line as a warning.
pub open spec fn subcommand_event(log: SubcommandLog) -> Option<(LogLevel, Seq<char>)> {
    match log {
        SubcommandLog::Internal(LogMessage::Msg { level, msg }) => if msg@.len() == 0 {
            None
        } else {
            Some((log_level_of(level), msg@))
        },
        SubcommandLog::Internal(LogMessage::Start { text, level }) => if text@.len() == 0 {
            None
        } else {
            Some((log_level_of(level), text@))
        },
        SubcommandLog::Internal(LogMessage::SetPhase { phase }) => if phase@.len() == 0 {
            None
        } else {
            Some((LogLevel::Info, phase@))
        },
        SubcommandLog::Internal(LogMessage::Other) => None,
        SubcommandLog::Raw(line) => if line@.len() == 0 {
            None
        } else {
            Some((LogLevel::Warn, line@))
        },
    }
}

impl SubcommandLog {
    /// The line's display.
    pub fn to_display_string(&self) -> (res: String)
        ensures
            res@ == subcommand_text(*self),
    {
        match self {
            SubcommandLog::Internal(LogMessage::Msg { level, msg }) => {
                let mut s = level.name();
                s.append(": ");
                s.append(msg.as_str());
                s
            },
            SubcommandLog::Internal(_) => String::new(),
            SubcommandLog::Raw(line) => line.clone(),
        }
    }

    /// What to log for the line. The text of messages is logged as nix
    /// wrote it; the caller strips ANSI escapes.
    pub fn trace(&self) -> (res: Option<LogEvent>)
        ensures
            crate::nix_output::event_view(res) == subcommand_event(*self),
    {
        match self {
            SubcommandLog::Internal(LogMessage::Msg { level, msg }) => {
                if msg.as_str().is_empty() {
                    return None;
                }
                Some(LogEvent { level: nix_level_to_tracing(*level), message: msg.clone() })
            },
            SubcommandLog::Internal(LogMessage::Start { text, level }) => {
                if text.as_str().is_empty() {
                    return None;
                }
                Some(LogEvent { level: nix_level_to_tracing(*level), message: text.clone() })
            },
            SubcommandLog::Internal(LogMessage::SetPhase { phase }) => {
                if phase.as_str().is_empty() {
                    return None;
                }
                Some(LogEvent { level: LogLevel::Info, message: phase.clone() })
            },
            SubcommandLog::Internal(LogMessage::Other) => None,
            SubcommandLog::Raw(line) => {
                if line.as_str().is_empty() {
                    return None;
                }
                Some(LogEvent { level: LogLevel::Warn, message: line.clone() })
            },
        }
    }
}

} // verus!
