use vstd::prelude::*;
use vstd::utf8::{decode_utf8, valid_utf8};

use crate::matcher::{leftmost_first_matches, small_patterns, NeedleMatcher};
use crate::text::{ansi_stripped, decimal, from_utf8, from_utf8_lossy, strip_ansi, u64_to_string, utf8_lossy};

verus! {

/// How nix rates a log message, by the number that its internal JSON log
/// format carries in `level`.
#[derive(Clone, Copy, Debug, PartialEq, Eq, Structural)]
pub enum VerbosityLevel {
    Error,
    Warn,
    Notice,
    Info,
    Talkative,
    Chatty,
    Debug,
    Vomit,
}

/// The level that nix's number `n` stands for.
pub open spec fn verbosity_of(n: u64) -> Option<VerbosityLevel> {
    if n == 0 {
        Some(VerbosityLevel::Error)
    } else if n == 1 {
        Some(VerbosityLevel::Warn)
    } else if n == 2 {
        Some(VerbosityLevel::Notice)
    } else if n == 3 {
        Some(VerbosityLevel::Info)
    } else if n == 4 {
        Some(VerbosityLevel::Talkative)
    } else if n == 5 {
        Some(VerbosityLevel::Chatty)
    } else if n == 6 {
        Some(VerbosityLevel::Debug)
    } else if n == 7 {
        Some(VerbosityLevel::Vomit)
    } else {
        None
    }
}

impl VerbosityLevel {
    /// The level that nix's number `n` stands for; `None` past 7.
    pub fn from_u64(n: u64) -> (res: Option<VerbosityLevel>)
        ensures
            res == verbosity_of(n),
    {
        if n == 0 {
            Some(VerbosityLevel::Error)
        } else if n == 1 {
            Some(VerbosityLevel::Warn)
        } else if n == 2 {
            Some(VerbosityLevel::Notice)
        } else if n == 3 {
            Some(VerbosityLevel::Info)
        } else if n == 4 {
            Some(VerbosityLevel::Talkative)
        } else if n == 5 {
            Some(VerbosityLevel::Chatty)
        } else if n == 6 {
            Some(VerbosityLevel::Debug)
        } else if n == 7 {
            Some(VerbosityLevel::Vomit)
        } else {
            None
        }
    }

    /// Whether a message at this level is worth keeping as an error message.
    pub fn is_errorish(self) -> (res: bool)
        ensures
            res == errorish(self),
    {
        match self {
            VerbosityLevel::Error | VerbosityLevel::Warn | VerbosityLevel::Notice => true,
            _ => false,
        }
    }
}

/// The name of a verbosity level, as debug output shows it.
pub open spec fn verbosity_name(level: VerbosityLevel) -> Seq<char> {
    match level {
        VerbosityLevel::Error => "Error"@,
        VerbosityLevel::Warn => "Warn"@,
        VerbosityLevel::Notice => "Notice"@,
        VerbosityLevel::Info => "Info"@,
        VerbosityLevel::Talkative => "Talkative"@,
        VerbosityLevel::Chatty => "Chatty"@,
        VerbosityLevel::Debug => "Debug"@,
        VerbosityLevel::Vomit => "Vomit"@,
    }
}

impl VerbosityLevel {
    /// The level's name.
    pub fn name(self) -> (res: String)
        ensures
            res@ == verbosity_name(self),
    {
        match self {
            VerbosityLevel::Error => String::from_str("Error"),
            VerbosityLevel::Warn => String::from_str("Warn"),
            VerbosityLevel::Notice => String::from_str("Notice"),
            VerbosityLevel::Info => String::from_str("Info"),
            VerbosityLevel::Talkative => String::from_str("Talkative"),
            VerbosityLevel::Chatty => String::from_str("Chatty"),
            VerbosityLevel::Debug => String::from_str("Debug"),
            VerbosityLevel::Vomit => String::from_str("Vomit"),
        }
    }
}

/// Error, warning and notice messages are kept as error messages.
pub open spec fn errorish(level: VerbosityLevel) -> bool {
    level is Error || level is Warn || level is Notice
}

/// The levels of the log that wire writes.
#[derive(Clone, Copy, Debug, PartialEq, Eq, Structural)]
pub enum LogLevel {
    Trace,
    Debug,
    Info,
    Warn,
    Error,
}

/// The level at which wire logs a nix message of `level`.
pub open spec fn log_level_of(level: VerbosityLevel) -> LogLevel {
    match level {
        VerbosityLevel::Info => LogLevel::Info,
        VerbosityLevel::Warn | VerbosityLevel::Notice => LogLevel::Warn,
        VerbosityLevel::Error => LogLevel::Error,
        VerbosityLevel::Debug => LogLevel::Debug,
        VerbosityLevel::Vomit | VerbosityLevel::Talkative | VerbosityLevel::Chatty => LogLevel::Trace,
    }
}

/// The level at which wire logs a nix message of `level`.
pub fn nix_level_to_tracing(level: VerbosityLevel) -> (res: LogLevel)
    ensures
        res == log_level_of(level),
{
    match level {
        VerbosityLevel::Info => LogLevel::Info,
        VerbosityLevel::Warn | VerbosityLevel::Notice => LogLevel::Warn,
        VerbosityLevel::Error => LogLevel::Error,
        VerbosityLevel::Debug => LogLevel::Debug,
        VerbosityLevel::Vomit | VerbosityLevel::Talkative | VerbosityLevel::Chatty => LogLevel::Trace,
    }
}

/// A line to be written to wire's log.
#[derive(Debug)]
pub struct LogEvent {
    pub level: LogLevel,
    pub message: String,
}

/// What one line of command output gives: a line for wire's log, and an
/// error message worth keeping.
#[derive(Debug)]
pub struct TraceOutcome {
    pub event: Option<LogEvent>,
    pub notable: Option<String>,
}

/// The model of an optional log line.
pub open spec fn event_view(event: Option<LogEvent>) -> Option<(LogLevel, Seq<char>)> {
    match event {
        Some(e) => Some((e.level, e.message@)),
        None => None,
    }
}

/// The model of an optional string.
pub open spec fn opt_view(s: Option<String>) -> Option<Seq<char>> {
    match s {
        Some(s) => Some(s@),
        None => None,
    }
}

impl TraceOutcome {
    /// The model: the log line and the kept error message.
    pub open spec fn view(self) -> (Option<(LogLevel, Seq<char>)>, Option<Seq<char>>) {
        (event_view(self.event), opt_view(self.notable))
    }
}

/// Whether the JSON `json` holds `key` (gjson's `exists`).
pub uninterp spec fn json_field_exists(json: Seq<char>, key: Seq<char>) -> bool;

/// gjson's `str` of the value of `key` in the JSON `json`.
pub uninterp spec fn json_field_str(json: Seq<char>, key: Seq<char>) -> Seq<char>;

/// gjson's `u64` of the value of `key` in the JSON `json`.
pub uninterp spec fn json_field_u64(json: Seq<char>, key: Seq<char>) -> u64;

/// A key made of lowercase ASCII letters only: gjson reads it as one plain
/// object key, with no modifier, query, wildcard, escape or sub path.
pub open spec fn plain_key(key: Seq<char>) -> bool {
    key.len() > 0 && forall|i: int| 0 <= i < key.len() ==> 'a' <= #[trigger] key[i] && key[i] <= 'z'
}

/// `gjson::parse(json).get(key).exists()`. Claimed: the named result. Only
/// plain keys are asked for: for them, as the source of gjson 0.8.1 shows,
/// `get` scans the top-level object (or array) with bounds-checked loops;
/// the one slice it takes of a key, in `key_match`, is of a key that the
/// string scanner closed with its quote (two bytes at least), since an
/// unclosed key ends the scan at the end of the input before any match; and
/// `exists` only reads the length of what was found.
#[verifier::external_body]
fn gjson_exists(json: &str, key: &str) -> (res: bool)
    requires
        plain_key(key@),
    ensures
        res == json_field_exists(json@, key@),
{
    gjson::parse(json).get(key).exists()
}

/// `gjson::parse(json).get(key).str()`. Claimed: the named result. Asked
/// only of a plain key that exists: as the source shows, a string value
/// that exists was closed by the scanner, so the slice that `str` takes
/// inside its quotes is in bounds; an unclosed string value is found empty,
/// which does not exist.
#[verifier::external_body]
fn gjson_str(json: &str, key: &str) -> (res: String)
    requires
        plain_key(key@),
        json_field_exists(json@, key@),
    ensures
        res@ == json_field_str(json@, key@),
{
    gjson::parse(json).get(key).str().to_string()
}

/// `gjson::parse(json).get(key).u64()`. Claimed: the named result. Asked
/// only of a plain key that exists, for the same reason as `gjson_str`; a
/// number that does not parse gives a saturated float conversion, not a
/// panic.
#[verifier::external_body]
fn gjson_u64(json: &str, key: &str) -> (res: u64)
    requires
        plain_key(key@),
        json_field_exists(json@, key@),
    ensures
        res == json_field_u64(json@, key@),
{
    gjson::parse(json).get(key).u64()
}

/// The prefix of nix's internal JSON log lines: `@nix `.
pub open spec fn nix_prefix() -> Seq<u8> {
    seq![64u8, 110u8, 105u8, 120u8, 32u8]
}

/// A matcher for the prefix of nix's internal JSON log lines; it is always
/// built.
pub fn nix_prefix_matcher() -> (res: Option<NeedleMatcher>)
    ensures
        res is Some,
        res matches Some(m) ==> m.patterns() == seq![nix_prefix()],
{
    let needles: Vec<Vec<u8>> = vec![vec![64u8, 110u8, 105u8, 120u8, 32u8]];
    proof {
        assert(needles@.map_values(|p: Vec<u8>| p@) =~= seq![nix_prefix()]);
        assert(small_patterns(seq![nix_prefix()]));
    }
    NeedleMatcher::new(&needles)
}

/// What is logged when a nix log carries a `level` that is no level: the
/// debug form of the conversion error, which names the number.
pub open spec fn bad_level_message(n: u64) -> Seq<char> {
    "nix log `level` did not match to a VerbosityLevel: TryFromPrimitiveError { number: "@ + decimal(n as nat)
        + " }"@
}

/// What is logged when a nix log is not UTF-8.
pub open spec fn not_utf8_message() -> Seq<char> {
    "nix log was not valid utf8!"@
}

/// The outcome of a nix JSON log `json` whose text is `msg`: an empty text
/// or a log without `level` gives nothing; an unknown level is logged as an
/// error; otherwise the text, stripped of ANSI escapes, is logged at the
/// level's log level, and kept as an error message for errors, warnings and
/// notices.
pub open spec fn gjson_outcome(json: Seq<char>, msg: Seq<char>) -> (Option<(LogLevel, Seq<char>)>, Option<Seq<char>>) {
    if msg.len() == 0 {
        (None, None)
    } else if !json_field_exists(json, "level"@) {
        (None, None)
    } else {
        let n = json_field_u64(json, "level"@);
        match verbosity_of(n) {
            None => (Some((LogLevel::Error, bad_level_message(n))), None),
            Some(level) => {
                let text = ansi_stripped(msg);
                (Some((log_level_of(level), text)), if errorish(level) { Some(text) } else { None })
            },
        }
    }
}

/// Traces a nix JSON log `json` whose text is `msg`.
pub fn trace_gjson_str(json: &str, msg: &str) -> (res: TraceOutcome)
    ensures
        res.view() == gjson_outcome(json@, msg@),
{
    if msg.is_empty() {
        return TraceOutcome { event: None, notable: None };
    }
    proof {
        reveal_strlit("level");
    }
    if !gjson_exists(json, "level") {
        return TraceOutcome { event: None, notable: None };
    }
    let n = gjson_u64(json, "level");
    match VerbosityLevel::from_u64(n) {
        None => {
            let mut message = String::from_str(
                "nix log `level` did not match to a VerbosityLevel: TryFromPrimitiveError { number: ",
            );
            let digits = u64_to_string(n);
            message.append(digits.as_str());
            message.append(" }");
            TraceOutcome { event: Some(LogEvent { level: LogLevel::Error, message }), notable: None }
        },
        Some(level) => {
            let text = strip_ansi(msg);
            let notable = if level.is_errorish() {
                Some(text.clone())
            } else {
                None
            };
            TraceOutcome { event: Some(LogEvent { level: nix_level_to_tracing(level), message: text }), notable }
        },
    }
}

/// How the output of a command is read.
#[derive(Clone, Copy, Debug, PartialEq, Eq, Structural)]
pub enum ChildOutputMode {
    /// Plain text.
    Raw,
    /// nix's internal JSON log format.
    Nix,
}

/// The outcome of a line of command output read in `mode`. Plain text is
/// logged as a warning. In nix mode, a line without the `@nix ` prefix is
/// logged as a warning; what follows the prefix must be UTF-8; its `text`,
/// or else its `msg`, is traced as `gjson_outcome` says.
pub open spec fn slice_outcome(mode: ChildOutputMode, line: Seq<u8>) -> (Option<(LogLevel, Seq<char>)>, Option<Seq<char>>) {
    if mode != ChildOutputMode::Nix {
        (Some((LogLevel::Warn, utf8_lossy(line))), None)
    } else {
        let matches = leftmost_first_matches(seq![nix_prefix()], line);
        if matches.len() == 0 {
            (Some((LogLevel::Warn, utf8_lossy(line))), None)
        } else {
            let rest = line.subrange(matches[0].2 as int, line.len() as int);
            if !valid_utf8(rest) {
                (Some((LogLevel::Error, not_utf8_message())), None)
            } else {
                let json = decode_utf8(rest);
                if json_field_exists(json, "text"@) {
                    gjson_outcome(json, json_field_str(json, "text"@))
                } else if json_field_exists(json, "msg"@) {
                    gjson_outcome(json, json_field_str(json, "msg"@))
                } else {
                    (None, None)
                }
            }
        }
    }
}

impl ChildOutputMode {
    /// Reads one line of command output. Returns what to log, and the
    /// message to keep when the line is notable as an error.
    pub fn trace_slice(self, line: &[u8], prefix: &NeedleMatcher) -> (res: TraceOutcome)
        requires
            prefix.patterns() == seq![nix_prefix()],
        ensures
            res.view() == slice_outcome(self, line@),
    {
        match self {
            ChildOutputMode::Nix => {},
            _ => {
                let text = from_utf8_lossy(line);
                return TraceOutcome { event: Some(LogEvent { level: LogLevel::Warn, message: text }), notable: None };
            },
        }
        let matches = prefix.find_all(line);
        if matches.len() == 0 {
            let text = from_utf8_lossy(line);
            return TraceOutcome { event: Some(LogEvent { level: LogLevel::Warn, message: text }), notable: None };
        }
        let end = matches[0].2;
        let rest = slice_from(line, end);
        let json = match from_utf8(rest) {
            Some(json) => json,
            None => {
                let message = String::from_str("nix log was not valid utf8!");
                return TraceOutcome { event: Some(LogEvent { level: LogLevel::Error, message }), notable: None };
            },
        };
        proof {
            reveal_strlit("text");
            reveal_strlit("msg");
        }
        if gjson_exists(json.as_str(), "text") {
            let text = gjson_str(json.as_str(), "text");
            return trace_gjson_str(json.as_str(), text.as_str());
        }
        if gjson_exists(json.as_str(), "msg") {
            let text = gjson_str(json.as_str(), "msg");
            return trace_gjson_str(json.as_str(), text.as_str());
        }
        TraceOutcome { event: None, notable: None }
    }
}

/// The bytes of `s` from `start` on.
pub fn slice_from(s: &[u8], start: usize) -> (res: &[u8])
    requires
        start <= s@.len(),
    ensures
        res@ == s@.subrange(start as int, s@.len() as int),
{
    vstd::slice::slice_subrange(s, start, s.len())
}

} // verus!
