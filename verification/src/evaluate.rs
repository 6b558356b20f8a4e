use vstd::prelude::*;

use crate::node::Derivation;
use crate::steps::{runs, StepContext, StepKind};

verus! {

/// The output of the evaluation step: the node's top-level derivation.
#[derive(Debug)]
pub struct Output(pub Derivation);

/// The step that evaluates a node's top-level derivation.
#[derive(Debug)]
pub struct Step;

impl Step {
    /// Runs for every goal but uploading keys.
    pub fn should_execute(&self, ctx: &StepContext) -> (res: bool)
        ensures
            res == runs(StepKind::Evaluate, *ctx),
    {
        StepKind::Evaluate.should_execute(ctx)
    }
}

/// The step that evaluates a node for the goal executor.
#[derive(Debug)]
pub struct Evaluate;

impl Evaluate {
    /// Runs for every goal but uploading keys.
    pub fn should_execute(&self, ctx: &StepContext) -> (res: bool)
        ensures
            res == runs(StepKind::Evaluate, *ctx),
    {
        StepKind::Evaluate.should_execute(ctx)
    }
}

} // verus!
