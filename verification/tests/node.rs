use wire::build_step;
use wire::evaluate;
use wire::node::{Derivation, Goal, Push, PushKeyAgentOutput, StepOutput, StepState, SwitchToConfigurationGoal, Target};

#[test]
fn displays() {
    assert_eq!(Derivation("/nix/store/x.drv".to_string()).to_display_string(), "/nix/store/x.drv^*");
    let p = "/nix/store/y".to_string();
    assert_eq!(Push::Path(&p).to_display_string(), "/nix/store/y");
    assert_eq!(Goal::SwitchToConfiguration(SwitchToConfigurationGoal::Boot).to_display_string(), "Boot");
    assert_eq!(Goal::Keys.to_display_string(), "Keys");
    assert_eq!(SwitchToConfigurationGoal::Switch.action_argument(), "switch");
    let t = Target { host: "h".to_string(), user: "deploy".to_string(), port: 2222 };
    assert_eq!(t.to_display_string(), "deploy@h:2222");
}

#[test]
fn step_state_keeps_the_newest_output_of_each_kind() {
    let mut state = StepState::new();
    assert!(state.get_evaluation().is_none());
    assert!(state.get_build().is_none());
    assert!(state.get_key_agent_directory().is_none());
    state.insert(StepOutput::BuildOutput(build_step::Output("/nix/store/a".to_string())));
    state.insert(StepOutput::KeyAgentDirectory(PushKeyAgentOutput("/nix/store/agent".to_string())));
    state.insert(StepOutput::BuildOutput(build_step::Output("/nix/store/b".to_string())));
    assert_eq!(state.get_build().unwrap().0, "/nix/store/b");
    assert_eq!(state.get_key_agent_directory().unwrap().0, "/nix/store/agent");
    assert!(state.get_evaluation().is_none());
    state.insert(StepOutput::Evaluation(evaluate::Output(Derivation("/nix/store/c.drv".to_string()))));
    assert_eq!(state.get_evaluation().unwrap().0 .0, "/nix/store/c.drv");
}
