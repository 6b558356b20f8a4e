use wire::commands::{
    authenticate_message, build_command_string, command_argument_for, copy_command_string, create_ending_segment,
    create_starting_segment, eval_attribute_for, eval_command_string, interactive_command_string,
    key_agent_command_string, nix_ssh_options, ssh_arguments, set_profile_command_string, switch_command_string, target_unless_local,
    CommandArguments, EvalGoal, HiveLocation, StrictHostKeyChecking, SubCommandModifiers,
};
use wire::nix_output::ChildOutputMode;
use wire::node::{Derivation, Name, Push, SwitchToConfigurationGoal, Target};
use wire::watch::needles_from_prefix;

fn modifiers() -> SubCommandModifiers {
    SubCommandModifiers::default_for(true)
}

#[test]
fn default_modifiers() {
    let m = SubCommandModifiers::default_for(false);
    assert!(!m.show_trace);
    assert!(m.non_interactive);
    assert_eq!(m.ssh_accept_host, StrictHostKeyChecking::AcceptNew);
    assert!(!modifiers().non_interactive);
}

#[test]
fn argument_builders() {
    let args = CommandArguments::new("ls".to_string(), modifiers());
    assert!(args.target.is_none() && !args.elevated && !args.keep_stdin_open && !args.log_stdout);
    assert_eq!(args.output_mode, ChildOutputMode::Raw);
    assert!(!args.runs_interactively());
    let args = args.nix().elevated().keep_stdin_open().log_stdout();
    assert_eq!(args.output_mode, ChildOutputMode::Nix);
    assert!(args.elevated && args.keep_stdin_open && args.log_stdout);
    assert!(args.runs_interactively());
    let args = CommandArguments::new("ls".to_string(), SubCommandModifiers::default_for(false)).elevated();
    assert!(!args.runs_interactively());
}

#[test]
fn shell_line_with_needles() {
    let needles = needles_from_prefix("abcde");
    let args = CommandArguments::new("nix build x".to_string(), modifiers()).nix();
    assert_eq!(create_starting_segment(&args, &needles.start), "echo 'abcde_W_S' && ");
    assert_eq!(create_ending_segment(&args, &needles), "echo 'abcde_W_Q' || echo 'abcde_W_F'");
    assert_eq!(
        interactive_command_string(&args, &needles),
        "echo 'abcde_W_S' && nix build x --log-format internal-json 1> >(while IFS= read -r line; do echo \"#$line\"; done) && echo 'abcde_W_Q' || echo 'abcde_W_F'"
    );
    let args = CommandArguments::new("ssh x".to_string(), modifiers());
    assert_eq!(create_starting_segment(&args, &needles.start), "echo 'abcde_W_S' && ");
    assert_eq!(create_ending_segment(&args, &needles), "echo 'abcde_W_Q' || echo 'abcde_W_F'");
    assert_eq!(
        interactive_command_string(&args, &needles),
        "echo 'abcde_W_S' && ssh x  1> >(while IFS= read -r line; do echo \"#$line\"; done) && echo 'abcde_W_Q' || echo 'abcde_W_F'"
    );
}

#[test]
fn elevated_commands_run_through_sudo() {
    let args = CommandArguments::new("id".to_string(), modifiers()).elevated();
    assert_eq!(command_argument_for(&args, &"id -u".to_string()), "sudo -u root -- sh -c 'id -u'");
    let args = CommandArguments::new("id".to_string(), modifiers());
    assert_eq!(command_argument_for(&args, &"id -u".to_string()), "id -u");
}

#[test]
fn authenticate_warning() {
    let args = CommandArguments::new("id".to_string(), modifiers());
    assert_eq!(authenticate_message(&args), None);
    let args = args.elevated();
    assert_eq!(authenticate_message(&args), Some("localhost (!) | Authenticate for \"sudo id\":\n".to_string()));
    let args = args.on_target(Some(Target::from_host("10.0.0.2")));
    assert_eq!(
        authenticate_message(&args),
        Some("root@10.0.0.2:22 | Authenticate for \"sudo id\":\n".to_string())
    );
}

#[test]
fn eval_commands() {
    let name = Name("node-a".to_string());
    let flake = HiveLocation::Flake("/srv/hive/flake.nix".to_string());
    assert_eq!(
        eval_attribute_for(&flake, &EvalGoal::GetTopLevel(&name)),
        "/srv/hive/flake.nix#wire --apply \"hive: hive.topLevels.node-a\""
    );
    let file = HiveLocation::HiveNix("/srv/hive/hive.nix".to_string());
    assert_eq!(eval_attribute_for(&file, &EvalGoal::Inspect), "--file /srv/hive/hive.nix inspect");
    let mut m = modifiers();
    m.show_trace = true;
    assert_eq!(
        eval_command_string(&file, &EvalGoal::Inspect, m),
        "nix --extra-experimental-features nix-command --extra-experimental-features flakes eval --json --show-trace --file /srv/hive/hive.nix inspect"
    );
}

#[test]
fn deployment_commands() {
    let target = Target::from_host("10.0.0.2");
    let drv = Derivation("/nix/store/abc.drv".to_string());
    assert_eq!(
        copy_command_string(&target, &Push::Derivation(&drv)),
        "nix --extra-experimental-features nix-command copy --substitute-on-destination --to ssh://root@10.0.0.2 /nix/store/abc.drv^* --derivation"
    );
    let path = "/nix/store/out".to_string();
    assert_eq!(
        copy_command_string(&target, &Push::Path(&path)),
        "nix --extra-experimental-features nix-command copy --substitute-on-destination --to ssh://root@10.0.0.2 /nix/store/out"
    );
    assert_eq!(
        build_command_string(&drv),
        "nix --extra-experimental-features nix-command build --print-build-logs --no-link --print-out-paths /nix/store/abc.drv^*"
    );
    assert_eq!(set_profile_command_string(&path), "nix-env -p /nix/var/nix/profiles/system/ --set /nix/store/out");
    assert_eq!(
        switch_command_string(&path, SwitchToConfigurationGoal::DryActivate),
        "/nix/store/out/bin/switch-to-configuration dry-activate"
    );
    assert_eq!(key_agent_command_string(&path), "/nix/store/out/bin/key_agent");
    assert!(target_unless_local(true, &target).is_none());
    assert_eq!(target_unless_local(false, &target), Some(target.clone()));
}

#[test]
fn ssh_reaches_the_target_by_its_user_port_and_host() {
    let target = Target { host: "example.org".to_string(), user: "deploy".to_string(), port: 2222 };
    assert_eq!(
        ssh_arguments(&target, StrictHostKeyChecking::AcceptNew),
        vec!["-l", "deploy", "-p", "2222", "-o", "StrictHostKeyChecking=accept-new", "example.org"]
    );
    assert_eq!(ssh_arguments(&target, StrictHostKeyChecking::No)[5], "StrictHostKeyChecking=no");
}

#[test]
fn nix_copy_gets_the_port_and_host_key_policy() {
    let target = Target { host: "example.org".to_string(), user: "deploy".to_string(), port: 2222 };
    assert_eq!(nix_ssh_options(&target, StrictHostKeyChecking::AcceptNew), "-p 2222 -o StrictHostKeyChecking=accept-new");
    assert_eq!(nix_ssh_options(&target, StrictHostKeyChecking::No), "-p 2222 -o StrictHostKeyChecking=no");
}
