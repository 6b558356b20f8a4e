use vstd::prelude::*;

use crate::steps::{runs, StepContext, StepKind};

verus! {

/// The step that copies the evaluated derivation to a node that builds it.
#[derive(Debug)]
pub struct EvaluatedOutputStep;

/// The step that copies the built system to a node.
#[derive(Debug)]
pub struct BuildOutputStep;

impl EvaluatedOutputStep {
    /// Runs when the node builds on itself, unless the goal only uploads keys.
    pub fn should_execute(&self, ctx: &StepContext) -> (res: bool)
        ensures
            res == runs(StepKind::PushEvaluatedOutput, *ctx),
    {
        StepKind::PushEvaluatedOutput.should_execute(ctx)
    }
}

impl BuildOutputStep {
    /// Runs when something was built, unless the node builds on itself and
    /// is applied locally.
    pub fn should_execute(&self, ctx: &StepContext) -> (res: bool)
        ensures
            res == runs(StepKind::PushBuildOutput, *ctx),
    {
        StepKind::PushBuildOutput.should_execute(ctx)
    }
}

} // verus!
