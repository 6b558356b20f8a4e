use vstd::prelude::*;

use crate::steps::{runs, StepContext, StepKind};

verus! {

/// The output of the build step: the built store path.
#[derive(Debug)]
pub struct Output(pub String);

/// The step that builds a node.
#[derive(Debug)]
pub struct Build;

impl Build {
    /// Runs unless the goal only pushes or uploads keys.
    pub fn should_execute(&self, ctx: &StepContext) -> (res: bool)
        ensures
            res == runs(StepKind::Build, *ctx),
    {
        StepKind::Build.should_execute(ctx)
    }
}

} // verus!
