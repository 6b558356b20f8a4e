use wire::commands::EvalGoal;
use wire::nix_eval::{eval_command_arguments, eval_expression, eval_expression_from};
use wire::nix_log::{
    format_error_lines, format_error_logs, get_errorish_message, json_part_of, log_from_line, InternalNixLog,
    LogMessage, NixLog, NixLogAction, NixLogLevel, SubcommandLog,
};
use wire::nix_output::{nix_level_to_tracing, nix_prefix_matcher, trace_gjson_str, ChildOutputMode, LogLevel, VerbosityLevel};
use wire::node::Name;

#[test]
fn verbosity_levels() {
    assert_eq!(VerbosityLevel::from_u64(0), Some(VerbosityLevel::Error));
    assert_eq!(VerbosityLevel::from_u64(7), Some(VerbosityLevel::Vomit));
    assert_eq!(VerbosityLevel::from_u64(8), None);
    assert!(VerbosityLevel::Notice.is_errorish());
    assert!(!VerbosityLevel::Info.is_errorish());
    assert_eq!(nix_level_to_tracing(VerbosityLevel::Chatty), LogLevel::Trace);
    assert_eq!(nix_level_to_tracing(VerbosityLevel::Notice), LogLevel::Warn);
    assert_eq!(VerbosityLevel::Talkative.name(), "Talkative");
}

#[test]
fn gjson_logs() {
    let out = trace_gjson_str("{\"level\":1}", "\u{1b}[31mwarning\u{1b}[0m: disk");
    let event = out.event.unwrap();
    assert_eq!(event.level, LogLevel::Warn);
    assert_eq!(event.message, "warning: disk");
    assert_eq!(out.notable, Some("warning: disk".to_string()));

    let out = trace_gjson_str("{\"level\":3}", "building");
    assert_eq!(out.event.unwrap().level, LogLevel::Info);
    assert_eq!(out.notable, None);

    let out = trace_gjson_str("{\"level\":42}", "x");
    let event = out.event.unwrap();
    assert_eq!(event.level, LogLevel::Error);
    assert_eq!(event.message, "nix log `level` did not match to a VerbosityLevel: TryFromPrimitiveError { number: 42 }");

    assert!(trace_gjson_str("{\"level\":0}", "").event.is_none());
    assert!(trace_gjson_str("{}", "text").event.is_none());
}

#[test]
fn output_lines() {
    let prefix = nix_prefix_matcher().unwrap();
    let out = ChildOutputMode::Raw.trace_slice(b"plain", &prefix);
    assert_eq!(out.event.unwrap().message, "plain");
    let out = ChildOutputMode::Nix.trace_slice(b"not json", &prefix);
    assert_eq!(out.event.unwrap().level, LogLevel::Warn);
    let out = ChildOutputMode::Nix.trace_slice(b"@nix {\"level\":0,\"text\":\"failed\"}", &prefix);
    assert_eq!(out.notable, Some("failed".to_string()));
    let out = ChildOutputMode::Nix.trace_slice(b"@nix \xff", &prefix);
    assert_eq!(out.event.unwrap().message, "nix log was not valid utf8!");
    let out = ChildOutputMode::Nix.trace_slice(b"@nix {\"action\":\"stop\"}", &prefix);
    assert!(out.event.is_none());
}

#[test]
fn internal_logs() {
    let log = InternalNixLog { action: NixLogAction::Message { level: NixLogLevel::Error, message: Some("boom".to_string()) } };
    assert!(log.is_error());
    assert_eq!(log.to_display_string(), "Error: boom");
    assert_eq!(log.trace().unwrap().level, LogLevel::Error);
    let quiet = InternalNixLog { action: NixLogAction::Message { level: NixLogLevel::Chatty, message: None } };
    assert_eq!(quiet.to_display_string(), "Chatty: Nix log without text");
    assert!(quiet.trace().is_none());
    assert_eq!(json_part_of("@nix {\"a\":1}"), "{\"a\":1}");
    assert_eq!(json_part_of("plain"), "plain");
    assert!(log_from_line("x".to_string(), Some(InternalNixLog { action: NixLogAction::Stop })).is_none());
    assert!(matches!(log_from_line("x".to_string(), None), Some(NixLog::Raw(r)) if r == "x"));
}

#[test]
fn error_logs_keep_only_errors() {
    let logs = vec![
        NixLog::Raw("raw".to_string()),
        NixLog::Internal(InternalNixLog { action: NixLogAction::Message { level: NixLogLevel::Error, message: Some("one".to_string()) } }),
        NixLog::Internal(InternalNixLog { action: NixLogAction::Message { level: NixLogLevel::Info, message: Some("info".to_string()) } }),
        NixLog::Internal(InternalNixLog { action: NixLogAction::Message { level: NixLogLevel::Error, message: None } }),
    ];
    assert_eq!(format_error_logs(&logs), "Error: one\nError: Nix log without text");
}

#[test]
fn error_lines_keep_the_last_twenty() {
    let lines: Vec<String> = (0..25).map(|i| i.to_string()).collect();
    let expected: Vec<String> = (5..25).map(|i| i.to_string()).collect();
    assert_eq!(format_error_lines(&lines), expected.join("\n"));
    assert_eq!(format_error_lines(&vec!["a".to_string(), "b".to_string()]), "a\nb");
    assert_eq!(format_error_lines(&vec![]), "");
}

#[test]
fn errorish_messages() {
    let warn = LogMessage::Msg { level: VerbosityLevel::Warn, msg: "careful".to_string() };
    assert_eq!(get_errorish_message(&warn), Some(&"careful".to_string()));
    let info = LogMessage::Msg { level: VerbosityLevel::Info, msg: "fine".to_string() };
    assert_eq!(get_errorish_message(&info), None);
    assert_eq!(get_errorish_message(&LogMessage::Other), None);
    let log = SubcommandLog::Internal(LogMessage::Msg { level: VerbosityLevel::Error, msg: "bad".to_string() });
    assert_eq!(log.to_display_string(), "Error: bad");
    assert_eq!(log.trace().unwrap().level, LogLevel::Error);
    assert_eq!(SubcommandLog::Raw("".to_string()).trace().is_none(), true);
    assert_eq!(SubcommandLog::Internal(LogMessage::SetPhase { phase: "build".to_string() }).trace().unwrap().level, LogLevel::Info);
}

#[test]
fn eval_expressions() {
    let name = Name("node-a".to_string());
    assert_eq!(
        eval_expression_from("/rt", "/srv/hive.nix", None, &EvalGoal::Inspect),
        "let evaluate = import /rt/evaluate.nix; hive = evaluate {hive = import /srv/hive.nix; path = /srv/hive.nix; nixosConfigurations = {}; nixpkgs = null;}; in hive.inspect"
    );
    assert_eq!(
        eval_expression("/rt", "/srv/flake.nix", &EvalGoal::GetTopLevel(&name)).unwrap(),
        "let evaluate = import /rt/evaluate.nix; hive = evaluate {hive = (builtins.getFlake \"git+file:///srv\").colmena; path = /srv/flake.nix; nixosConfigurations = (builtins.getFlake \"git+file:///srv\").nixosConfigurations or {}; nixpkgs = (builtins.getFlake \"git+file:///srv\").inputs.nixpkgs.outPath or null;}; in hive.getTopLevel \"node-a\""
    );
    assert_eq!(
        eval_expression("/rt", "/srv/hive.nix", &EvalGoal::Inspect).unwrap(),
        eval_expression_from("/rt", "/srv/hive.nix", None, &EvalGoal::Inspect)
    );
    let args = eval_command_arguments("x".to_string());
    assert_eq!(args.len(), 10);
    assert_eq!(args[8], "--expr");
    assert_eq!(args[9], "x");
}
