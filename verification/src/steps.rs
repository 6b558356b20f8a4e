use vstd::prelude::*;

use crate::commands::{set_profile_command, set_profile_command_string, switch_command, switch_command_string};
use crate::keys::UploadKeyAt;
use crate::node::{Goal, SwitchToConfigurationGoal};

verus! {

/// The local host name (`gethostname::gethostname`). Nothing is claimed of
/// the result: it depends on the machine.
#[verifier::external_body]
fn local_hostname() -> String {
    gethostname::gethostname().to_string_lossy().to_string()
}

/// A node is applied on this machine when local deployment is allowed and
/// its name is this machine's host name.
pub open spec fn applies_locally(allow_local_deployment: bool, name: Seq<char>, hostname: Seq<char>) -> bool {
    name == hostname && allow_local_deployment
}

/// Whether the node `name` is applied on the machine named `hostname`.
pub fn should_apply_locally_on(allow_local_deployment: bool, name: &str, hostname: &str) -> (res: bool)
    ensures
        res == applies_locally(allow_local_deployment, name@, hostname@),
{
    let name = String::from_str(name);
    let host = String::from_str(hostname);
    name == host && allow_local_deployment
}

/// Whether the node `name` is applied on this machine: its name is this
/// machine's host name and local deployment is allowed.
pub fn should_apply_locally(allow_local_deployment: bool, name: &str) -> (res: bool)
    ensures
        res ==> allow_local_deployment,
        exists|hostname: Seq<char>| res == applies_locally(allow_local_deployment, name@, hostname),
{
    let hostname = local_hostname();
    should_apply_locally_on(allow_local_deployment, name, hostname.as_str())
}

/// What the steps of a goal decide by.
#[derive(Clone, Copy, Debug, PartialEq, Eq, Structural)]
pub struct StepContext {
    pub goal: Goal,
    pub no_keys: bool,
    pub should_apply_locally: bool,
    pub build_remotely: bool,
}

/// The steps that apply a goal to a node.
#[derive(Clone, Copy, Debug, PartialEq, Eq, Structural)]
pub enum StepKind {
    PushKeyAgent,
    Keys(UploadKeyAt),
    Evaluate,
    PushEvaluatedOutput,
    Build,
    PushBuildOutput,
    SwitchToConfiguration,
    Ping,
    CleanUp,
}

/// Whether `step` runs in `ctx`.
pub open spec fn runs(step: StepKind, ctx: StepContext) -> bool {
    match step {
        StepKind::PushKeyAgent => ctx.goal is Keys || (!ctx.no_keys && ctx.goal == Goal::SwitchToConfiguration(
            SwitchToConfigurationGoal::Switch,
        )),
        StepKind::Keys(filter) => (filter == UploadKeyAt::NoFilter && ctx.goal is Keys) || (!ctx.no_keys && filter
            != UploadKeyAt::NoFilter && ctx.goal == Goal::SwitchToConfiguration(SwitchToConfigurationGoal::Switch)),
        StepKind::Evaluate => !(ctx.goal is Keys),
        StepKind::PushEvaluatedOutput => !(ctx.goal is Keys) && ctx.build_remotely,
        StepKind::Build => !(ctx.goal is Keys || ctx.goal is Push),
        StepKind::PushBuildOutput => !(ctx.goal is Keys || ctx.goal is Push) && (!ctx.build_remotely
            || !ctx.should_apply_locally),
        StepKind::SwitchToConfiguration => ctx.goal is SwitchToConfiguration,
        StepKind::Ping => !ctx.should_apply_locally,
        StepKind::CleanUp => !ctx.should_apply_locally,
    }
}

impl StepKind {
    /// Whether the step runs in `ctx`.
    pub fn should_execute(self, ctx: &StepContext) -> (res: bool)
        ensures
            res == runs(self, *ctx),
    {
        match self {
            StepKind::PushKeyAgent => {
                match ctx.goal {
                    Goal::Keys => true,
                    Goal::SwitchToConfiguration(SwitchToConfigurationGoal::Switch) => !ctx.no_keys,
                    _ => false,
                }
            },
            StepKind::Keys(filter) => {
                match (filter, ctx.goal) {
                    (UploadKeyAt::NoFilter, Goal::Keys) => true,
                    (
                        UploadKeyAt::PreActivation | UploadKeyAt::PostActivation,
                        Goal::SwitchToConfiguration(SwitchToConfigurationGoal::Switch),
                    ) => !ctx.no_keys,
                    _ => false,
                }
            },
            StepKind::Evaluate => {
                match ctx.goal {
                    Goal::Keys => false,
                    _ => true,
                }
            },
            StepKind::PushEvaluatedOutput => {
                match ctx.goal {
                    Goal::Keys => false,
                    _ => ctx.build_remotely,
                }
            },
            StepKind::Build => {
                match ctx.goal {
                    Goal::Keys | Goal::Push => false,
                    _ => true,
                }
            },
            StepKind::PushBuildOutput => {
                match ctx.goal {
                    Goal::Keys | Goal::Push => false,
                    _ => !ctx.build_remotely || !ctx.should_apply_locally,
                }
            },
            StepKind::SwitchToConfiguration => {
                match ctx.goal {
                    Goal::SwitchToConfiguration(_) => true,
                    _ => false,
                }
            },
            StepKind::Ping => !ctx.should_apply_locally,
            StepKind::CleanUp => !ctx.should_apply_locally,
        }
    }

    /// The step's display name.
    pub fn name(self) -> (res: String)
        ensures
            res@ == step_name(self),
    {
        match self {
            StepKind::PushKeyAgent => String::from_str("Push the key agent"),
            StepKind::Keys(UploadKeyAt::PreActivation) => String::from_str("Upload key @ PreActivation"),
            StepKind::Keys(UploadKeyAt::PostActivation) => String::from_str("Upload key @ PostActivation"),
            StepKind::Keys(UploadKeyAt::NoFilter) => String::from_str("Upload key @ NoFilter"),
            StepKind::Evaluate => String::from_str("Evaluate the node"),
            StepKind::PushEvaluatedOutput => String::from_str("Push the evaluated output"),
            StepKind::Build => String::from_str("Build the node"),
            StepKind::PushBuildOutput => String::from_str("Push the build output"),
            StepKind::SwitchToConfiguration => String::from_str("switch-to-configuration"),
            StepKind::Ping => String::from_str("Ping node"),
            StepKind::CleanUp => String::from_str("Clean up"),
        }
    }
}

/// The display name of `step`.
pub open spec fn step_name(step: StepKind) -> Seq<char> {
    match step {
        StepKind::PushKeyAgent => "Push the key agent"@,
        StepKind::Keys(UploadKeyAt::PreActivation) => "Upload key @ PreActivation"@,
        StepKind::Keys(UploadKeyAt::PostActivation) => "Upload key @ PostActivation"@,
        StepKind::Keys(UploadKeyAt::NoFilter) => "Upload key @ NoFilter"@,
        StepKind::Evaluate => "Evaluate the node"@,
        StepKind::PushEvaluatedOutput => "Push the evaluated output"@,
        StepKind::Build => "Build the node"@,
        StepKind::PushBuildOutput => "Push the build output"@,
        StepKind::SwitchToConfiguration => "switch-to-configuration"@,
        StepKind::Ping => "Ping node"@,
        StepKind::CleanUp => "Clean up"@,
    }
}

/// The steps of the goal executor, in the order they are tried: the node
/// is reached first and cleaned up after last.
pub open spec fn all_steps() -> Seq<StepKind> {
    seq![
        StepKind::Ping,
        StepKind::PushKeyAgent,
        StepKind::Keys(UploadKeyAt::NoFilter),
        StepKind::Keys(UploadKeyAt::PreActivation),
        StepKind::Evaluate,
        StepKind::PushEvaluatedOutput,
        StepKind::Build,
        StepKind::PushBuildOutput,
        StepKind::SwitchToConfiguration,
        StepKind::Keys(UploadKeyAt::PostActivation),
        StepKind::CleanUp,
    ]
}

/// The steps of `steps` that run in `ctx`, in order.
pub open spec fn planned(steps: Seq<StepKind>, ctx: StepContext) -> Seq<StepKind>
    decreases steps.len(),
{
    if steps.len() == 0 {
        Seq::empty()
    } else {
        let rest = planned(steps.drop_last(), ctx);
        if runs(steps.last(), ctx) {
            rest.push(steps.last())
        } else {
            rest
        }
    }
}

/// Every planned step is one of the steps, and runs in the context.
pub proof fn planned_steps_run(steps: Seq<StepKind>, ctx: StepContext)
    ensures
        planned(steps, ctx).len() <= steps.len(),
        forall|i: int| 0 <= i < planned(steps, ctx).len() ==> runs(#[trigger] planned(steps, ctx)[i], ctx) && steps.contains(
            planned(steps, ctx)[i],
        ),
    decreases steps.len(),
{
    if steps.len() > 0 {
        let rest = steps.drop_last();
        planned_steps_run(rest, ctx);
        let p = planned(steps, ctx);
        assert(forall|i: int| 0 <= i < p.len() ==> runs(#[trigger] p[i], ctx) && steps.contains(p[i]));
    }
}

/// Whether a step handles keys: pushes the key agent or uploads keys.
pub open spec fn handles_keys(step: StepKind) -> bool {
    step is PushKeyAgent || step is Keys
}

/// What the goal executor plans: with `no_keys` no key is uploaded unless
/// the goal is the keys goal itself, for which the option changes nothing; the
/// keys goal only pushes keys (and reaches and cleans up after the node);
/// the push goal neither builds nor activates; only the activation goals
/// activate.
pub proof fn plan_follows_goal(ctx: StepContext)
    ensures
        forall|i: int| 0 <= i < planned(all_steps(), ctx).len() ==> {
            let step = #[trigger] planned(all_steps(), ctx)[i];
            &&& ctx.no_keys && !(ctx.goal is Keys) ==> !handles_keys(step)
            &&& ctx.goal is Keys ==> handles_keys(step) || step is Ping || step is CleanUp
            &&& ctx.goal is Push ==> !(step is Build || step is PushBuildOutput || step is SwitchToConfiguration)
            &&& step is SwitchToConfiguration ==> ctx.goal is SwitchToConfiguration
        },
{
    planned_steps_run(all_steps(), ctx);
}

/// Under the keys goal the `no_keys` option changes nothing: every step
/// runs or not as it would without it, so the plan is the same.
pub proof fn no_keys_changes_nothing_for_keys_goal(ctx: StepContext, steps: Seq<StepKind>)
    requires
        ctx.goal is Keys,
    ensures
        planned(steps, ctx) == planned(steps, StepContext { no_keys: !ctx.no_keys, ..ctx }),
    decreases steps.len(),
{
    let other = StepContext { no_keys: !ctx.no_keys, ..ctx };
    if steps.len() > 0 {
        no_keys_changes_nothing_for_keys_goal(ctx, steps.drop_last());
        assert(runs(steps.last(), ctx) == runs(steps.last(), other));
    }
}

/// A step of `steps` that runs in `ctx` is planned.
proof fn running_step_is_planned(steps: Seq<StepKind>, ctx: StepContext, i: int)
    requires
        0 <= i < steps.len(),
        runs(steps[i], ctx),
    ensures
        planned(steps, ctx).contains(steps[i]),
    decreases steps.len(),
{
    let n = steps.len() - 1;
    let rest = planned(steps.drop_last(), ctx);
    if i == n {
        assert(planned(steps, ctx) == rest.push(steps[i]));
        assert(planned(steps, ctx)[rest.len() as int] == steps[i]);
    } else {
        assert(steps.drop_last()[i] == steps[i]);
        running_step_is_planned(steps.drop_last(), ctx, i);
        let j = choose|j: int| 0 <= j < rest.len() && rest[j] == steps[i];
        if runs(steps.last(), ctx) {
            assert(planned(steps, ctx)[j] == steps[i]);
        }
    }
}

/// Every activation goal activates: `switch-to-configuration` runs, and is
/// planned, exactly when the goal is switch, boot, test or dry-activate,
/// whatever else the context says.
pub proof fn every_activation_goal_activates(ctx: StepContext)
    ensures
        runs(StepKind::SwitchToConfiguration, ctx) <==> ctx.goal is SwitchToConfiguration,
        planned(all_steps(), ctx).contains(StepKind::SwitchToConfiguration) <==> ctx.goal is SwitchToConfiguration,
{
    planned_steps_run(all_steps(), ctx);
    if ctx.goal is SwitchToConfiguration {
        assert(all_steps()[8] == StepKind::SwitchToConfiguration);
        running_step_is_planned(all_steps(), ctx, 8);
    } else {
        let p = planned(all_steps(), ctx);
        if p.contains(StepKind::SwitchToConfiguration) {
            let j = choose|j: int| 0 <= j < p.len() && p[j] == StepKind::SwitchToConfiguration;
            assert(runs(p[j], ctx));
        }
    }
}

/// The steps of the goal executor, in order.
pub fn executor_steps() -> (res: Vec<StepKind>)
    ensures
        res@ == all_steps(),
{
    vec![
        StepKind::Ping,
        StepKind::PushKeyAgent,
        StepKind::Keys(UploadKeyAt::NoFilter),
        StepKind::Keys(UploadKeyAt::PreActivation),
        StepKind::Evaluate,
        StepKind::PushEvaluatedOutput,
        StepKind::Build,
        StepKind::PushBuildOutput,
        StepKind::SwitchToConfiguration,
        StepKind::Keys(UploadKeyAt::PostActivation),
        StepKind::CleanUp,
    ]
}

/// The steps that the goal executor runs in `ctx`, in order: each step of
/// the executor that should execute.
pub fn plan_steps(ctx: &StepContext) -> (res: Vec<StepKind>)
    ensures
        res@ == planned(all_steps(), *ctx),
{
    let steps = executor_steps();
    let mut res: Vec<StepKind> = Vec::new();
    let mut i: usize = 0;
    while i < steps.len()
        invariant
            steps@ == all_steps(),
            0 <= i <= steps@.len(),
            res@ == planned(steps@.take(i as int), *ctx),
        decreases steps@.len() - i,
    {
        let step = steps[i];
        proof {
            assert(steps@.take(i + 1).drop_last() =~= steps@.take(i as int));
        }
        if step.should_execute(ctx) {
            res.push(step);
        }
        i = i + 1;
    }
    proof {
        assert(steps@.take(steps@.len() as int) =~= steps@);
    }
    res
}

/// Whether activating for `goal` first sets the system profile: for switch
/// and boot.
pub open spec fn sets_profile(goal: SwitchToConfigurationGoal) -> bool {
    goal is Switch || goal is Boot
}

/// Whether activating for `goal` first sets the system profile.
pub fn should_set_profile(goal: SwitchToConfigurationGoal) -> (res: bool)
    ensures
        res == sets_profile(goal),
{
    match goal {
        SwitchToConfigurationGoal::Switch | SwitchToConfigurationGoal::Boot => true,
        _ => false,
    }
}

/// What follows a run of `switch-to-configuration`.
#[derive(Clone, Copy, Debug, PartialEq, Eq, Structural)]
pub enum ActivationFollowUp {
    /// Done, successfully.
    Done,
    /// A reboot was asked for on the local machine: refused, and done.
    RefuseLocalReboot,
    /// Reboot the node, then wait for it to answer pings.
    Reboot,
    /// Fail with the activation error.
    Fail,
    /// Wait for the node to answer pings, then fail.
    CheckConnectionThenFail,
}

/// What follows an activation that `succeeded` or not.
pub open spec fn follow_up(succeeded: bool, reboot: bool, local: bool, goal: SwitchToConfigurationGoal) -> ActivationFollowUp {
    if succeeded {
        if !reboot {
            ActivationFollowUp::Done
        } else if local {
            ActivationFollowUp::RefuseLocalReboot
        } else {
            ActivationFollowUp::Reboot
        }
    } else if goal is DryActivate || local {
        ActivationFollowUp::Fail
    } else {
        ActivationFollowUp::CheckConnectionThenFail
    }
}

/// What follows an activation: a successful one ends, unless a reboot was
/// asked for, which is refused on the local machine; a failed dry
/// activation, or a failed local one, fails at once (it cannot have cut the
/// connection); any other failure first checks that the node still answers.
pub fn activation_follow_up(
    succeeded: bool,
    reboot: bool,
    should_apply_locally: bool,
    goal: SwitchToConfigurationGoal,
) -> (res: ActivationFollowUp)
    ensures
        res == follow_up(succeeded, reboot, should_apply_locally, goal),
{
    if succeeded {
        if !reboot {
            return ActivationFollowUp::Done;
        }
        if should_apply_locally {
            return ActivationFollowUp::RefuseLocalReboot;
        }
        return ActivationFollowUp::Reboot;
    }
    match goal {
        SwitchToConfigurationGoal::DryActivate => ActivationFollowUp::Fail,
        _ => {
            if should_apply_locally {
                ActivationFollowUp::Fail
            } else {
                ActivationFollowUp::CheckConnectionThenFail
            }
        },
    }
}

/// Where an activation stands.
#[derive(Clone, Copy, Debug, PartialEq, Eq, Structural)]
pub enum ActivationStage {
    /// Set the system profile to the built closure.
    SetProfile,
    /// Run the closure's `switch-to-configuration`.
    Switch,
    /// `switch-to-configuration` ran; what follows it.
    FollowUp(ActivationFollowUp),
    /// Setting the profile failed: the activation fails with that error,
    /// and nothing else runs.
    ProfileFailed,
}

/// The first stage of an activation for `goal`: the goals that make the
/// configuration the boot default set the profile first.
pub open spec fn first_stage(goal: SwitchToConfigurationGoal) -> ActivationStage {
    if sets_profile(goal) {
        ActivationStage::SetProfile
    } else {
        ActivationStage::Switch
    }
}

/// The stage after the command of `stage` ran and `succeeded` or not.
pub open spec fn next_stage(
    stage: ActivationStage,
    succeeded: bool,
    reboot: bool,
    local: bool,
    goal: SwitchToConfigurationGoal,
) -> ActivationStage {
    match stage {
        ActivationStage::SetProfile => if succeeded {
            ActivationStage::Switch
        } else {
            ActivationStage::ProfileFailed
        },
        ActivationStage::Switch => ActivationStage::FollowUp(follow_up(succeeded, reboot, local, goal)),
        other => other,
    }
}

/// The command that `stage` runs for the closure at `built_path`, if any.
pub open spec fn stage_command(stage: ActivationStage, built_path: Seq<char>, goal: SwitchToConfigurationGoal) -> Option<
    Seq<char>,
> {
    match stage {
        ActivationStage::SetProfile => Some(set_profile_command(built_path)),
        ActivationStage::Switch => Some(switch_command(built_path, goal)),
        _ => None,
    }
}

/// Where an activation for `goal` starts.
pub fn activation_start(goal: SwitchToConfigurationGoal) -> (res: ActivationStage)
    ensures
        res == first_stage(goal),
{
    if should_set_profile(goal) {
        ActivationStage::SetProfile
    } else {
        ActivationStage::Switch
    }
}

/// The stage that follows `stage` once its command `succeeded` or not:
/// after the profile, the switch if it was set, else the failure; after the
/// switch, what `activation_follow_up` says; other stages stay.
pub fn activation_next(
    stage: ActivationStage,
    succeeded: bool,
    reboot: bool,
    should_apply_locally: bool,
    goal: SwitchToConfigurationGoal,
) -> (res: ActivationStage)
    ensures
        res == next_stage(stage, succeeded, reboot, should_apply_locally, goal),
{
    match stage {
        ActivationStage::SetProfile => if succeeded {
            ActivationStage::Switch
        } else {
            ActivationStage::ProfileFailed
        },
        ActivationStage::Switch => ActivationStage::FollowUp(
            activation_follow_up(succeeded, reboot, should_apply_locally, goal),
        ),
        other => other,
    }
}

/// The command that `stage` runs, if any: setting the profile to the built
/// closure, or its `switch-to-configuration` with the goal's action.
pub fn activation_command(stage: ActivationStage, built_path: &String, goal: SwitchToConfigurationGoal) -> (res: Option<
    String,
>)
    ensures
        match res {
            Some(c) => stage_command(stage, built_path@, goal) == Some(c@),
            None => stage_command(stage, built_path@, goal) is None,
        },
{
    match stage {
        ActivationStage::SetProfile => Some(set_profile_command_string(built_path)),
        ActivationStage::Switch => Some(switch_command_string(built_path, goal)),
        _ => None,
    }
}

/// The activation's order: a goal that makes the configuration the boot
/// default sets the profile before anything else; `switch-to-configuration`
/// runs only once the profile was set, if it is set; a failure to set it
/// ends the activation, which then runs nothing more.
pub proof fn profile_is_set_first(
    goal: SwitchToConfigurationGoal,
    succeeded: bool,
    reboot: bool,
    local: bool,
    built_path: Seq<char>,
)
    ensures
        sets_profile(goal) <==> first_stage(goal) == ActivationStage::SetProfile,
        !sets_profile(goal) ==> first_stage(goal) == ActivationStage::Switch,
        next_stage(ActivationStage::SetProfile, succeeded, reboot, local, goal) == ActivationStage::Switch
            <==> succeeded,
        next_stage(ActivationStage::SetProfile, false, reboot, local, goal) == ActivationStage::ProfileFailed,
        next_stage(ActivationStage::ProfileFailed, succeeded, reboot, local, goal) == ActivationStage::ProfileFailed,
        stage_command(ActivationStage::ProfileFailed, built_path, goal) is None,
{
}

/// How an activation ends.
#[derive(Clone, Copy, Debug, PartialEq, Eq, Structural)]
pub enum ActivationEnd {
    Succeeded,
    /// The activation command failed.
    ActivationFailed,
    /// The node no longer answers.
    HostUnreachable,
}

/// How an activation ends once the node was pinged after a reboot
/// (`after_reboot`) or after a failed activation: an answering node ends
/// the reboot well and reports the activation's failure; a silent node is
/// unreachable.
pub fn end_after_ping(after_reboot: bool, reconnected: bool) -> (res: ActivationEnd)
    ensures
        reconnected && after_reboot ==> res == ActivationEnd::Succeeded,
        reconnected && !after_reboot ==> res == ActivationEnd::ActivationFailed,
        !reconnected ==> res == ActivationEnd::HostUnreachable,
{
    if reconnected {
        if after_reboot {
            ActivationEnd::Succeeded
        } else {
            ActivationEnd::ActivationFailed
        }
    } else {
        ActivationEnd::HostUnreachable
    }
}

/// The attempts, after the first ping, at reaching a node again.
pub open spec fn max_ping_retries() -> u32 {
    2
}

/// Whether to ping again, after `retries` pings of the retry loop, the last
/// of which answered or not: the first ping's answer is not trusted, and the
/// loop stops at an answer or after two pings.
pub fn ping_again(retries: u32, last_answered: bool) -> (res: bool)
    ensures
        res == (retries == 0 || (retries < max_ping_retries() && !last_answered)),
{
    retries == 0 || (retries < 2 && !last_answered)
}

/// The plan of a sequence is built from its front as well: its first step,
/// if it runs, then the plan of the rest.
pub proof fn lemma_planned_front(steps: Seq<StepKind>, ctx: StepContext)
    requires
        steps.len() > 0,
    ensures
        planned(steps, ctx) == if runs(steps[0], ctx) {
            seq![steps[0]] + planned(steps.drop_first(), ctx)
        } else {
            planned(steps.drop_first(), ctx)
        },
    decreases steps.len(),
{
    if steps.len() == 1 {
        assert(planned(steps.drop_last(), ctx) =~= Seq::<StepKind>::empty());
    } else {
        lemma_planned_front(steps.drop_last(), ctx);
        assert(steps.drop_last().drop_first() =~= steps.drop_first().drop_last());
    }
}

/// Runs the steps of a goal in order, each only if it should execute.
#[derive(Debug)]
pub struct GoalExecutor {
    steps: Vec<StepKind>,
    context: StepContext,
    position: usize,
}

impl GoalExecutor {
    /// The steps still to run, in order.
    pub closed spec fn remaining(&self) -> Seq<StepKind> {
        planned(self.steps@.skip(self.position as int), self.context)
    }

    /// The context the steps decide by.
    pub closed spec fn context(&self) -> StepContext {
        self.context
    }

    /// The position stays within the steps.
    pub closed spec fn wf(&self) -> bool {
        self.position <= self.steps@.len()
    }

    /// An executor for `context`, with every planned step still to run.
    pub fn new(context: StepContext) -> (res: Self)
        ensures
            res.wf(),
            res.context() == context,
            res.remaining() == planned(all_steps(), context),
    {
        let res = GoalExecutor { steps: executor_steps(), context, position: 0 };
        proof {
            assert(res.steps@.skip(0) =~= res.steps@);
        }
        res
    }

    /// The next step to run, skipping the steps that should not execute;
    /// `None` when all are done.
    pub fn next_step(&mut self) -> (res: Option<StepKind>)
        requires
            old(self).wf(),
        ensures
            final(self).wf(),
            final(self).context() == old(self).context(),
            old(self).remaining().len() == 0 ==> res is None && final(self).remaining().len() == 0,
            old(self).remaining().len() > 0 ==> res == Some(old(self).remaining()[0]) && final(self).remaining()
                == old(self).remaining().drop_first(),
    {
        let ghost start = self.remaining();
        while self.position < self.steps.len()
            invariant
                self.position <= self.steps@.len(),
                self.context == old(self).context,
                self.steps == old(self).steps,
                self.remaining() == start,
                start == old(self).remaining(),
            decreases self.steps@.len() - self.position,
        {
            let step = self.steps[self.position];
            let ghost rest = self.steps@.skip(self.position as int);
            proof {
                lemma_planned_front(rest, self.context);
                assert(rest.drop_first() =~= self.steps@.skip(self.position + 1));
            }
            self.position = self.position + 1;
            if step.should_execute(&self.context) {
                return Some(step);
            }
        }
        None
    }
}

} // verus!
