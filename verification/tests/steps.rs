use wire::keys::UploadKeyAt;
use wire::node::{Goal, SwitchToConfigurationGoal};
use wire::steps::{
    activation_command, activation_follow_up, activation_next, activation_start, end_after_ping, ping_again, plan_steps, should_apply_locally, should_apply_locally_on,
    should_set_profile,
    ActivationEnd, ActivationFollowUp, ActivationStage, GoalExecutor, StepContext, StepKind,
};

fn ctx(goal: Goal) -> StepContext {
    StepContext { goal, no_keys: false, should_apply_locally: false, build_remotely: false }
}

const SWITCH: Goal = Goal::SwitchToConfiguration(SwitchToConfigurationGoal::Switch);

#[test]
fn switch_plan() {
    assert_eq!(
        plan_steps(&ctx(SWITCH)),
        vec![
            StepKind::Ping,
            StepKind::PushKeyAgent,
            StepKind::Keys(UploadKeyAt::PreActivation),
            StepKind::Evaluate,
            StepKind::Build,
            StepKind::PushBuildOutput,
            StepKind::SwitchToConfiguration,
            StepKind::Keys(UploadKeyAt::PostActivation),
            StepKind::CleanUp,
        ]
    );
}

#[test]
fn keys_plan() {
    assert_eq!(
        plan_steps(&ctx(Goal::Keys)),
        vec![StepKind::Ping, StepKind::PushKeyAgent, StepKind::Keys(UploadKeyAt::NoFilter), StepKind::CleanUp]
    );
    let mut c = ctx(Goal::Keys);
    c.no_keys = true;
    c.should_apply_locally = true;
    assert_eq!(plan_steps(&c), vec![StepKind::PushKeyAgent, StepKind::Keys(UploadKeyAt::NoFilter)]);
}

#[test]
fn push_and_build_plans() {
    let mut c = ctx(Goal::Push);
    c.build_remotely = true;
    assert_eq!(plan_steps(&c), vec![StepKind::Ping, StepKind::Evaluate, StepKind::PushEvaluatedOutput, StepKind::CleanUp]);
    let mut c = ctx(Goal::Build);
    c.build_remotely = true;
    c.should_apply_locally = true;
    assert_eq!(plan_steps(&c), vec![StepKind::Evaluate, StepKind::PushEvaluatedOutput, StepKind::Build]);
}

#[test]
fn no_keys_skips_key_uploads() {
    let mut c = ctx(SWITCH);
    c.no_keys = true;
    let plan = plan_steps(&c);
    assert!(plan.iter().all(|s| !matches!(s, StepKind::PushKeyAgent | StepKind::Keys(_))));
    assert!(plan.contains(&StepKind::SwitchToConfiguration));
}

#[test]
fn executor_runs_the_plan_in_order() {
    let c = ctx(SWITCH);
    let mut exec = GoalExecutor::new(c);
    let mut ran = vec![];
    while let Some(step) = exec.next_step() {
        ran.push(step);
    }
    assert_eq!(ran, plan_steps(&c));
    assert_eq!(exec.next_step(), None);
}

#[test]
fn step_names() {
    assert_eq!(StepKind::Keys(UploadKeyAt::PreActivation).name(), "Upload key @ PreActivation");
    assert_eq!(StepKind::SwitchToConfiguration.name(), "switch-to-configuration");
    assert!(StepKind::Ping.should_execute(&ctx(Goal::Build)));
}

#[test]
fn local_application() {
    assert!(should_apply_locally_on(true, "laptop", "laptop"));
    assert!(!should_apply_locally_on(false, "laptop", "laptop"));
    assert!(!should_apply_locally_on(true, "laptop", "server"));
    // without local deployment no node is applied locally, whatever the host
    assert!(!should_apply_locally(false, "localhost"));
}

#[test]
fn activation_decisions() {
    assert!(should_set_profile(SwitchToConfigurationGoal::Switch));
    assert!(should_set_profile(SwitchToConfigurationGoal::Boot));
    assert!(!should_set_profile(SwitchToConfigurationGoal::Test));
    assert!(!should_set_profile(SwitchToConfigurationGoal::DryActivate));
    let s = SwitchToConfigurationGoal::Switch;
    assert_eq!(activation_follow_up(true, false, false, s), ActivationFollowUp::Done);
    assert_eq!(activation_follow_up(true, true, true, s), ActivationFollowUp::RefuseLocalReboot);
    assert_eq!(activation_follow_up(true, true, false, s), ActivationFollowUp::Reboot);
    assert_eq!(activation_follow_up(false, false, false, SwitchToConfigurationGoal::DryActivate), ActivationFollowUp::Fail);
    assert_eq!(activation_follow_up(false, false, true, s), ActivationFollowUp::Fail);
    assert_eq!(activation_follow_up(false, false, false, s), ActivationFollowUp::CheckConnectionThenFail);
    assert_eq!(end_after_ping(true, true), ActivationEnd::Succeeded);
    assert_eq!(end_after_ping(false, true), ActivationEnd::ActivationFailed);
    assert_eq!(end_after_ping(true, false), ActivationEnd::HostUnreachable);
    assert!(ping_again(0, true));
    assert!(ping_again(1, false));
    assert!(!ping_again(1, true));
    assert!(!ping_again(2, false));
}

#[test]
fn the_profile_is_set_before_the_switch() {
    let path = "/nix/store/sys".to_string();
    let goal = SwitchToConfigurationGoal::Switch;
    let stage = activation_start(goal);
    assert_eq!(stage, ActivationStage::SetProfile);
    assert_eq!(
        activation_command(stage, &path, goal).unwrap(),
        "nix-env -p /nix/var/nix/profiles/system/ --set /nix/store/sys"
    );
    let failed = activation_next(stage, false, false, false, goal);
    assert_eq!(failed, ActivationStage::ProfileFailed);
    assert_eq!(activation_command(failed, &path, goal), None);
    let stage = activation_next(stage, true, false, false, goal);
    assert_eq!(activation_command(stage, &path, goal).unwrap(), "/nix/store/sys/bin/switch-to-configuration switch");
    assert_eq!(activation_next(stage, true, false, false, goal), ActivationStage::FollowUp(ActivationFollowUp::Done));
    let test = SwitchToConfigurationGoal::Test;
    let stage = activation_start(test);
    assert_eq!(stage, ActivationStage::Switch);
    assert_eq!(activation_command(stage, &path, test).unwrap(), "/nix/store/sys/bin/switch-to-configuration test");
    assert_eq!(
        activation_next(stage, false, false, false, test),
        ActivationStage::FollowUp(ActivationFollowUp::CheckConnectionThenFail)
    );
}
