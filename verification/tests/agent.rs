use wire::agent::{
    ends_session, query_response, rollback_activation_path, rollback_clock, rollback_command, rollback_deadline,
    rollback_step, OpCode, Rollback, RollbackAction,
    RollbackEvent, RollbackState, Time,
};

#[test]
fn times_are_whole_seconds() {
    assert_eq!(Time::from_str("30").unwrap(), Time(30));
    assert_eq!(Time::from_str("+5").unwrap(), Time(5));
    assert_eq!(Time::from_str("0").unwrap(), Time(0));
    assert!(Time::from_str("1.5").is_err());
    assert!(Time::from_str("-1").is_err());
    assert!(Time::from_str("18446744073709551616").is_err());
    assert_eq!(Time::from_str("x").unwrap_err().0, "invalid digit found in string");
    assert_eq!(Time::from_str("").unwrap_err().0, "cannot parse integer from empty string");
    assert_eq!(Time::from_str("18446744073709551616").unwrap_err().0, "number too large to fit in target type");
    assert_eq!(Time::from_str(&u64::MAX.to_string()).unwrap(), Time(u64::MAX));
}

#[test]
fn queries_are_acknowledged() {
    let query = Rollback {
        opcode: OpCode::Query,
        timeout: 30,
        grace_period: 10,
        closure: "/nix/store/sys".to_string(),
        message: String::new(),
    };
    let answer = query_response(&query).unwrap();
    assert_eq!(answer.opcode, OpCode::Query);
    assert_eq!(answer.timeout, 30);
    assert_eq!(answer.grace_period, 10);
    assert_eq!(answer.closure, "/nix/store/sys");
    assert_eq!(answer.message, "acknowledged");
    let finish = Rollback { opcode: OpCode::Finish, ..query };
    assert!(query_response(&finish).is_none());
}

#[test]
fn only_finish_ends_the_session() {
    assert!(ends_session(OpCode::Finish));
    assert!(!ends_session(OpCode::Query));
    assert!(!ends_session(OpCode::Unspecified));
}

#[test]
fn rollback_runs_the_known_closure() {
    assert_eq!(rollback_activation_path("/nix/store/sys"), "/nix/store/sys/bin/switch-to-configuration");
}

#[test]
fn a_rollback_session_waits_for_a_finish_or_the_timeout() {
    let (state, action) = rollback_step(RollbackState::Waiting, RollbackEvent::Received(OpCode::Query));
    assert_eq!((state, action), (RollbackState::Waiting, RollbackAction::KeepWaiting));
    let (state, action) = rollback_step(state, RollbackEvent::Received(OpCode::Unspecified));
    assert_eq!((state, action), (RollbackState::Waiting, RollbackAction::KeepWaiting));
    let (state, action) = rollback_step(state, RollbackEvent::Received(OpCode::Finish));
    assert_eq!((state, action), (RollbackState::Over, RollbackAction::Finish));
    assert_eq!(rollback_step(state, RollbackEvent::TimedOut), (RollbackState::Over, RollbackAction::Nothing));
    assert_eq!(
        rollback_step(RollbackState::Waiting, RollbackEvent::TimedOut),
        (RollbackState::Over, RollbackAction::RollBack)
    );
}

#[test]
fn a_rollback_waits_out_the_grace_period_then_the_timeout() {
    assert_eq!(rollback_deadline(&Time(10), &Time(30)), 40);
    assert_eq!(rollback_deadline(&Time(u64::MAX), &Time(1)), u64::MAX);
    assert_eq!(rollback_clock(39, &Time(10), &Time(30)), None);
    assert_eq!(rollback_clock(40, &Time(10), &Time(30)), Some(RollbackEvent::TimedOut));
    assert_eq!(rollback_clock(29, &Time(0), &Time(30)), None);
}

#[test]
fn a_rollback_switches_to_the_known_working_closure() {
    let (program, args) = rollback_command("/nix/store/abc-system");
    assert_eq!(program, "/nix/store/abc-system/bin/switch-to-configuration");
    assert_eq!(args, vec!["switch".to_string()]);
}
