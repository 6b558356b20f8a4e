use vstd::prelude::*;

use crate::steps::{runs, StepContext, StepKind};

verus! {

/// The step that activates the built system.
#[derive(Debug)]
pub struct SwitchToConfigurationStep;

/// The step that activates the built system and waits for the node to
/// answer again where needed.
#[derive(Debug)]
pub struct SwitchToConfiguration;

impl SwitchToConfigurationStep {
    /// Runs for activation goals.
    pub fn should_execute(&self, ctx: &StepContext) -> (res: bool)
        ensures
            res == runs(StepKind::SwitchToConfiguration, *ctx),
    {
        StepKind::SwitchToConfiguration.should_execute(ctx)
    }
}

impl SwitchToConfiguration {
    /// Runs for activation goals.
    pub fn should_execute(&self, ctx: &StepContext) -> (res: bool)
        ensures
            res == runs(StepKind::SwitchToConfiguration, *ctx),
    {
        StepKind::SwitchToConfiguration.should_execute(ctx)
    }
}

/// The step that checks that a node answers over ssh.
#[derive(Debug)]
pub struct Ping;

impl Ping {
    /// Runs unless the node is applied locally.
    pub fn should_execute(&self, ctx: &StepContext) -> (res: bool)
        ensures
            res == runs(StepKind::Ping, *ctx),
    {
        StepKind::Ping.should_execute(ctx)
    }
}

/// The step that uploads keys, filtered by when they are uploaded.
#[derive(Debug)]
pub struct Keys {
    pub filter: crate::keys::UploadKeyAt,
}

impl Keys {
    /// Runs for the keys goal without filter, whether or not keys are
    /// skipped, and, unless keys are skipped, for a switch with a filter.
    pub fn should_execute(&self, ctx: &StepContext) -> (res: bool)
        ensures
            res == runs(StepKind::Keys(self.filter), *ctx),
    {
        StepKind::Keys(self.filter).should_execute(ctx)
    }
}

/// The step that copies the key agent to a node.
#[derive(Debug)]
pub struct PushKeyAgent;

impl PushKeyAgent {
    /// Runs for the keys goal, whether or not keys are skipped, and, unless
    /// they are, for a switch.
    pub fn should_execute(&self, ctx: &StepContext) -> (res: bool)
        ensures
            res == runs(StepKind::PushKeyAgent, *ctx),
    {
        StepKind::PushKeyAgent.should_execute(ctx)
    }
}

} // verus!
