use vstd::prelude::*;

use crate::text::{decimal, digit_char, path_join, path_joined};

verus! {

/// Whether `c` is a decimal digit.
pub open spec fn is_digit(c: char) -> bool {
    '0' <= c && c <= '9'
}

/// The value of the decimal digits `s`.
pub open spec fn digits_value(s: Seq<char>) -> nat
    decreases s.len(),
{
    if s.len() == 0 {
        0
    } else {
        digits_value(s.drop_last()) * 10 + ((s.last() as nat) - 48) as nat
    }
}

/// What `u64::from_str` gives: an optional `+`, then at least one decimal
/// digit, with a value that fits in a `u64`; `None` for anything else.
pub open spec fn decimal_u64(s: Seq<char>) -> Option<u64> {
    let digits = if s.len() > 0 && s[0] == '+' {
        s.subrange(1, s.len() as int)
    } else {
        s
    };
    if digits.len() > 0 && (forall|i: int| 0 <= i < digits.len() ==> is_digit(#[trigger] digits[i]))
        && digits_value(digits) <= u64::MAX {
        Some(digits_value(digits) as u64)
    } else {
        None
    }
}

/// The message of the error that `u64::from_str` gives for `s`, as its
/// `Display` writes it.
pub uninterp spec fn u64_parse_error_message(s: Seq<char>) -> Seq<char>;

/// `u64::from_str`. Claimed, as std documents: an optional `+` followed by
/// decimal digits is accepted when its value fits, and nothing else; the
/// message of a refusal is the named one.
#[verifier::external_body]
fn parse_u64(s: &str) -> (res: Result<u64, String>)
    ensures
        match res {
            Ok(n) => decimal_u64(s@) == Some(n),
            Err(message) => decimal_u64(s@) is None && message@ == u64_parse_error_message(s@),
        },
{
    s.parse::<u64>().map_err(|e| e.to_string())
}

/// The decimal representation of a number is made of digits, and is worth
/// the number.
pub proof fn decimal_digits_value(n: nat)
    ensures
        decimal(n).len() > 0,
        forall|i: int| 0 <= i < decimal(n).len() ==> is_digit(#[trigger] decimal(n)[i]),
        digits_value(decimal(n)) == n,
    decreases n,
{
    if n < 10 {
        assert(digits_value(decimal(n).drop_last()) == 0);
    } else {
        decimal_digits_value(n / 10);
        let d = decimal(n);
        assert(d.drop_last() =~= decimal(n / 10));
        assert(forall|i: int| 0 <= i < d.len() ==> is_digit(#[trigger] d[i]));
    }
}

/// A number of seconds that wire writes in decimal reads back as itself.
pub proof fn seconds_read_back(n: u64)
    ensures
        decimal_u64(decimal(n as nat)) == Some(n),
{
    decimal_digits_value(n as nat);
}

/// A span of time, in whole seconds.
#[derive(Clone, Copy, Debug, PartialEq, Eq, Structural)]
pub struct Time(pub u64);

/// Why a time was refused: it is no number of seconds. Holds the message
/// of the integer parser's error.
#[derive(Debug)]
pub struct TimeParseError(pub String);

impl Time {
    /// Reads a number of seconds.
    pub fn from_str(s: &str) -> (res: Result<Time, TimeParseError>)
        ensures
            decimal_u64(s@) matches Some(n) ==> res == Ok::<Time, TimeParseError>(Time(n)),
            decimal_u64(s@) is None ==> (res matches Err(e) && e.0@ == u64_parse_error_message(s@)),
    {
        match parse_u64(s) {
            Ok(n) => Ok(Time(n)),
            Err(message) => Err(TimeParseError(message)),
        }
    }
}

/// What the agent is asked to do.
#[derive(Debug)]
pub enum Operations {
    /// Push keys
    PushKeys { length: usize },
    /// Initiate magic rollback session
    Rollback { grace_period: Time, timeout: Time, known_working_closure: String },
    Dummy,
}

/// The agent's command line.
#[derive(Debug)]
pub struct Args {
    pub operation: Operations,
}

/// The operation of a rollback message.
#[derive(Clone, Copy, Debug, PartialEq, Eq, Structural)]
pub enum OpCode {
    Unspecified,
    Query,
    Finish,
}

/// A message of the rollback session.
#[derive(Debug)]
pub struct Rollback {
    pub opcode: OpCode,
    pub timeout: u64,
    pub grace_period: u64,
    pub closure: String,
    pub message: String,
}

/// The answer to a rollback message: a query is acknowledged with its own
/// content and the message `acknowledged`; other messages get none.
pub fn query_response(message: &Rollback) -> (res: Option<Rollback>)
    ensures
        message.opcode != OpCode::Query ==> res is None,
        message.opcode == OpCode::Query ==> (res matches Some(r) && {
            &&& r.opcode == message.opcode
            &&& r.timeout == message.timeout
            &&& r.grace_period == message.grace_period
            &&& r.closure@ == message.closure@
            &&& r.message@ == "acknowledged"@
        }),
{
    match message.opcode {
        OpCode::Query => Some(
            Rollback {
                opcode: message.opcode,
                timeout: message.timeout,
                grace_period: message.grace_period,
                closure: message.closure.clone(),
                message: String::from_str("acknowledged"),
            },
        ),
        _ => None,
    }
}

/// Whether a rollback message ends the session: only a finish does.
pub fn ends_session(opcode: OpCode) -> (res: bool)
    ensures
        res == (opcode == OpCode::Finish),
{
    match opcode {
        OpCode::Finish => true,
        OpCode::Unspecified | OpCode::Query => false,
    }
}

/// What is run when the timeout passes without a finish: the known-working
/// closure's `bin/switch-to-configuration`.
pub fn rollback_activation_path(known_working_closure: &str) -> (res: String)
    ensures
        res@ == path_joined(known_working_closure@, "bin/switch-to-configuration"@),
{
    path_join(known_working_closure, "bin/switch-to-configuration")
}

/// The command that rolls back: the known-working closure's
/// `bin/switch-to-configuration`, with the single argument `switch`.
pub fn rollback_command(known_working_closure: &str) -> (res: (String, Vec<String>))
    ensures
        res.0@ == path_joined(known_working_closure@, "bin/switch-to-configuration"@),
        res.1@.len() == 1,
        res.1@[0]@ == "switch"@,
{
    let program = rollback_activation_path(known_working_closure);
    let args = vec![String::from_str("switch")];
    (program, args)
}

/// When a rollback session times out, in seconds from its start: the grace
/// period is waited out first, then the timeout. A sum beyond what a `u64`
/// holds is that largest value, which no session lives to see.
pub open spec fn deadline_of(grace_period: Time, timeout: Time) -> u64 {
    if grace_period.0 + timeout.0 <= u64::MAX {
        (grace_period.0 + timeout.0) as u64
    } else {
        u64::MAX
    }
}

/// The number of seconds after which a rollback session without a finish
/// rolls back: the grace period and then the timeout.
pub fn rollback_deadline(grace_period: &Time, timeout: &Time) -> (res: u64)
    ensures
        res == deadline_of(*grace_period, *timeout),
{
    grace_period.0.saturating_add(timeout.0)
}

/// The event that a rollback session sees `elapsed` seconds after its
/// start when no message came: the timeout once the deadline passed.
pub open spec fn clock_event(elapsed: u64, grace_period: Time, timeout: Time) -> Option<RollbackEvent> {
    if elapsed >= deadline_of(grace_period, timeout) {
        Some(RollbackEvent::TimedOut)
    } else {
        None
    }
}

/// Whether, `elapsed` seconds after its start, a rollback session has timed
/// out: the grace period and the timeout have both passed.
pub fn rollback_clock(elapsed: u64, grace_period: &Time, timeout: &Time) -> (res: Option<RollbackEvent>)
    ensures
        res == clock_event(elapsed, *grace_period, *timeout),
{
    if elapsed >= rollback_deadline(grace_period, timeout) {
        Some(RollbackEvent::TimedOut)
    } else {
        None
    }
}

/// Where a rollback session stands.
#[derive(Clone, Copy, Debug, PartialEq, Eq, Structural)]
pub enum RollbackState {
    /// Waiting for a finish before the timeout.
    Waiting,
    /// The session is over.
    Over,
}

/// What a rollback session waits for: a message, or the end of the timeout.
#[derive(Clone, Copy, Debug, PartialEq, Eq, Structural)]
pub enum RollbackEvent {
    Received(OpCode),
    TimedOut,
}

/// What the agent does next in a rollback session.
#[derive(Clone, Copy, Debug, PartialEq, Eq, Structural)]
pub enum RollbackAction {
    /// Keep waiting for a message or the timeout.
    KeepWaiting,
    /// The deployment was confirmed: end the session, keeping it.
    Finish,
    /// No finish came in time: switch back to the known-working closure,
    /// then end the session.
    RollBack,
    /// The session is already over: nothing to do.
    Nothing,
}

/// The rollback session's decision: a finish ends the session; a query or
/// an unspecified message leaves it waiting; the timeout rolls back and ends
/// it; an ended session does nothing more.
pub open spec fn rollback_next(state: RollbackState, event: RollbackEvent) -> (RollbackState, RollbackAction) {
    match state {
        RollbackState::Over => (RollbackState::Over, RollbackAction::Nothing),
        RollbackState::Waiting => match event {
            RollbackEvent::Received(OpCode::Finish) => (RollbackState::Over, RollbackAction::Finish),
            RollbackEvent::Received(_) => (RollbackState::Waiting, RollbackAction::KeepWaiting),
            RollbackEvent::TimedOut => (RollbackState::Over, RollbackAction::RollBack),
        },
    }
}

/// One step of a rollback session: the next state and what to do, as
/// `rollback_next` says.
pub fn rollback_step(state: RollbackState, event: RollbackEvent) -> (res: (RollbackState, RollbackAction))
    ensures
        res == rollback_next(state, event),
{
    match state {
        RollbackState::Over => (RollbackState::Over, RollbackAction::Nothing),
        RollbackState::Waiting => match event {
            RollbackEvent::Received(opcode) => {
                if ends_session(opcode) {
                    (RollbackState::Over, RollbackAction::Finish)
                } else {
                    (RollbackState::Waiting, RollbackAction::KeepWaiting)
                }
            },
            RollbackEvent::TimedOut => (RollbackState::Over, RollbackAction::RollBack),
        },
    }
}

/// A session never times out before the grace period and the timeout
/// have both passed (short of the last second a `u64` counts, where the
/// deadline saturates), and has when they just have.
pub proof fn no_rollback_before_deadline(elapsed: u64, grace_period: Time, timeout: Time)
    requires
        elapsed < grace_period.0 + timeout.0,
        elapsed < u64::MAX,
    ensures
        clock_event(elapsed, grace_period, timeout) is None,
        clock_event((grace_period.0 + timeout.0) as u64, grace_period, timeout) is Some || grace_period.0 + timeout.0
            > u64::MAX,
{
}

/// A rollback session rolls back at most once, and only when it timed out
/// while waiting: an ended session stays ended and does nothing, and a
/// session that is still waiting has neither finished nor rolled back.
pub proof fn rollback_session_ends_once(state: RollbackState, event: RollbackEvent)
    ensures
        state == RollbackState::Over ==> rollback_next(state, event) == (RollbackState::Over, RollbackAction::Nothing),
        rollback_next(state, event).1 == RollbackAction::RollBack <==> (state == RollbackState::Waiting && event
            == RollbackEvent::TimedOut),
        rollback_next(state, event).0 == RollbackState::Waiting <==> rollback_next(state, event).1
            == RollbackAction::KeepWaiting,
{
}

} // verus!
