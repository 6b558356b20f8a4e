use vstd::prelude::*;

use crate::text::decimal;

verus! {

/// The name of a node of the hive.
#[derive(Clone, Debug, Hash, PartialEq, Eq)]
pub struct Name(pub String);

/// Where a node is reached over ssh.
#[derive(Clone, Debug, Hash, PartialEq, Eq)]
pub struct Target {
    pub host: String,
    pub user: String,
    pub port: u32,
}

/// A store derivation, by its path.
#[derive(Debug)]
pub struct Derivation(pub String);

/// How a derivation is displayed: its path, then `^*`.
pub open spec fn derivation_text(path: Seq<char>) -> Seq<char> {
    path + "^*"@
}

impl Derivation {
    /// The derivation's display: its path, then `^*`, naming all its outputs.
    pub fn to_display_string(&self) -> (res: String)
        ensures
            res@ == derivation_text(self.0@),
    {
        let mut s = self.0.clone();
        s.append("^*");
        s
    }
}

/// What is copied to a node: a derivation or a store path.
#[derive(Debug)]
pub enum Push<'a> {
    Derivation(&'a Derivation),
    Path(&'a String),
}

/// How a push is displayed: the displayed derivation, or the path.
pub open spec fn push_text(push: Push) -> Seq<char> {
    match push {
        Push::Derivation(d) => derivation_text(d.0@),
        Push::Path(p) => p@,
    }
}

impl<'a> Push<'a> {
    /// The display of what is pushed.
    pub fn to_display_string(&self) -> (res: String)
        ensures
            res@ == push_text(*self),
    {
        match self {
            Push::Derivation(d) => d.to_display_string(),
            Push::Path(p) => (*p).clone(),
        }
    }
}

/// How a built configuration is activated.
#[derive(Clone, Copy, Debug, PartialEq, Eq, Structural)]
pub enum SwitchToConfigurationGoal {
    Switch,
    Boot,
    Test,
    DryActivate,
}

/// What is to be done with a node.
#[derive(Clone, Copy, Debug, PartialEq, Eq, Structural)]
pub enum Goal {
    SwitchToConfiguration(SwitchToConfigurationGoal),
    Build,
    Push,
    Keys,
}

/// The display of an activation goal: its name.
pub open spec fn switch_goal_text(goal: SwitchToConfigurationGoal) -> Seq<char> {
    match goal {
        SwitchToConfigurationGoal::Switch => "Switch"@,
        SwitchToConfigurationGoal::Boot => "Boot"@,
        SwitchToConfigurationGoal::Test => "Test"@,
        SwitchToConfigurationGoal::DryActivate => "DryActivate"@,
    }
}

/// The display of a goal: the activation goal's name, or the goal's name.
pub open spec fn goal_text(goal: Goal) -> Seq<char> {
    match goal {
        Goal::SwitchToConfiguration(g) => switch_goal_text(g),
        Goal::Build => "Build"@,
        Goal::Push => "Push"@,
        Goal::Keys => "Keys"@,
    }
}

impl SwitchToConfigurationGoal {
    /// The goal's display.
    pub fn to_display_string(self) -> (res: String)
        ensures
            res@ == switch_goal_text(self),
    {
        match self {
            SwitchToConfigurationGoal::Switch => String::from_str("Switch"),
            SwitchToConfigurationGoal::Boot => String::from_str("Boot"),
            SwitchToConfigurationGoal::Test => String::from_str("Test"),
            SwitchToConfigurationGoal::DryActivate => String::from_str("DryActivate"),
        }
    }

    /// The argument that `switch-to-configuration` takes for the goal.
    pub fn action_argument(self) -> (res: String)
        ensures
            res@ == switch_action(self),
    {
        match self {
            SwitchToConfigurationGoal::Switch => String::from_str("switch"),
            SwitchToConfigurationGoal::Boot => String::from_str("boot"),
            SwitchToConfigurationGoal::Test => String::from_str("test"),
            SwitchToConfigurationGoal::DryActivate => String::from_str("dry-activate"),
        }
    }
}

/// The argument that `switch-to-configuration` takes for `goal`.
pub open spec fn switch_action(goal: SwitchToConfigurationGoal) -> Seq<char> {
    match goal {
        SwitchToConfigurationGoal::Switch => "switch"@,
        SwitchToConfigurationGoal::Boot => "boot"@,
        SwitchToConfigurationGoal::Test => "test"@,
        SwitchToConfigurationGoal::DryActivate => "dry-activate"@,
    }
}

/// Each activation goal hands `switch-to-configuration` its own action
/// word: switch, boot, test and dry-activate, no two goals the same.
pub proof fn action_words_are_distinct(a: SwitchToConfigurationGoal, b: SwitchToConfigurationGoal)
    ensures
        a != b ==> switch_action(a) != switch_action(b),
        switch_action(SwitchToConfigurationGoal::Switch) == "switch"@,
        switch_action(SwitchToConfigurationGoal::Boot) == "boot"@,
        switch_action(SwitchToConfigurationGoal::Test) == "test"@,
        switch_action(SwitchToConfigurationGoal::DryActivate) == "dry-activate"@,
{
    reveal_strlit("switch");
    reveal_strlit("boot");
    reveal_strlit("test");
    reveal_strlit("dry-activate");
    if a != b && switch_action(a) == switch_action(b) {
        let (x, y) = (switch_action(a), switch_action(b));
        assert(x.len() == y.len());
        assert(x[0] == y[0]);
    }
}

impl Goal {
    /// The goal's display.
    pub fn to_display_string(self) -> (res: String)
        ensures
            res@ == goal_text(self),
    {
        match self {
            Goal::SwitchToConfiguration(g) => g.to_display_string(),
            Goal::Build => String::from_str("Build"),
            Goal::Push => String::from_str("Push"),
            Goal::Keys => String::from_str("Keys"),
        }
    }
}

/// The display of a target: `user@host:port`.
pub open spec fn target_text(t: Target) -> Seq<char> {
    t.user@ + "@"@ + t.host@ + ":"@ + decimal(t.port as nat)
}

impl Target {
    /// A copy of the target.
    pub fn copied(&self) -> (res: Target)
        ensures
            res == *self,
    {
        Target { host: self.host.clone(), user: self.user.clone(), port: self.port }
    }

    /// A target reached as root on port 22.
    pub fn from_host(host: &str) -> (res: Target)
        ensures
            res.host@ == host@,
            res.user@ == "root"@,
            res.port == 22,
    {
        Target { host: String::from_str(host), user: String::from_str("root"), port: 22 }
    }

    /// `user@host:port`.
    pub fn to_display_string(&self) -> (res: String)
        ensures
            res@ == target_text(*self),
    {
        let mut s = self.user.clone();
        s.append("@");
        s.append(self.host.as_str());
        s.append(":");
        s.append(crate::text::u64_to_string(self.port as u64).as_str());
        s
    }
}

/// The output of the key agent step: the agent's directory.
#[derive(Debug)]
pub struct PushKeyAgentOutput(pub String);

/// What a step hands on to later steps.
#[derive(Debug)]
pub enum StepOutput {
    Evaluation(crate::evaluate::Output),
    KeyAgentDirectory(PushKeyAgentOutput),
    BuildOutput(crate::build_step::Output),
}

/// The kind of a step output, which the state is keyed by.
#[derive(Clone, Copy, Debug, PartialEq, Eq, Structural)]
pub enum StepOutputKind {
    Evaluation,
    KeyAgentDirectory,
    BuildOutput,
}

/// The kind of an output.
pub open spec fn kind_of(value: StepOutput) -> StepOutputKind {
    match value {
        StepOutput::Evaluation(_) => StepOutputKind::Evaluation,
        StepOutput::KeyAgentDirectory(_) => StepOutputKind::KeyAgentDirectory,
        StepOutput::BuildOutput(_) => StepOutputKind::BuildOutput,
    }
}

/// The model of an output: its kind and the text it carries.
pub open spec fn output_text(value: StepOutput) -> Seq<char> {
    match value {
        StepOutput::Evaluation(e) => e.0.0@,
        StepOutput::KeyAgentDirectory(k) => k.0@,
        StepOutput::BuildOutput(b) => b.0@,
    }
}

/// What is stored is read back: after storing an output, its kind reads as
/// its text, and every other kind reads as before.
pub proof fn stored_output_reads_back(
    before: Map<StepOutputKind, Seq<char>>,
    value: StepOutput,
    other: StepOutputKind,
)
    ensures
        ({
            let after = before.insert(kind_of(value), output_text(value));
            &&& after.contains_key(kind_of(value))
            &&& after[kind_of(value)] == output_text(value)
            &&& other != kind_of(value) ==> after.contains_key(other) == before.contains_key(other)
            &&& other != kind_of(value) && before.contains_key(other) ==> after[other] == before[other]
        }),
{
}

/// What a state that held `start` holds after storing each of `values`, in
/// order.
pub open spec fn stored_after(start: Map<StepOutputKind, Seq<char>>, values: Seq<StepOutput>) -> Map<
    StepOutputKind,
    Seq<char>,
>
    decreases values.len(),
{
    if values.len() == 0 {
        start
    } else {
        stored_after(start, values.drop_last()).insert(kind_of(values.last()), output_text(values.last()))
    }
}

/// The last of `values` of kind `k`, if any.
pub open spec fn last_of_kind(values: Seq<StepOutput>, k: StepOutputKind) -> Option<StepOutput>
    decreases values.len(),
{
    if values.len() == 0 {
        None
    } else if kind_of(values.last()) == k {
        Some(values.last())
    } else {
        last_of_kind(values.drop_last(), k)
    }
}

/// A kind reads as the text of the last stored value of that kind; a kind
/// that no value had reads as before.
proof fn stored_after_reads_last(start: Map<StepOutputKind, Seq<char>>, values: Seq<StepOutput>, k: StepOutputKind)
    ensures
        match last_of_kind(values, k) {
            Some(v) => stored_after(start, values).contains_key(k) && stored_after(start, values)[k] == output_text(v),
            None => stored_after(start, values).contains_key(k) == start.contains_key(k) && (start.contains_key(k)
                ==> stored_after(start, values)[k] == start[k]),
        },
    decreases values.len(),
{
    if values.len() > 0 {
        stored_after_reads_last(start, values.drop_last(), k);
    }
}

/// No value of kind `k` was stored exactly when there is no last one.
proof fn no_last_of_kind(values: Seq<StepOutput>, k: StepOutputKind)
    ensures
        last_of_kind(values, k) is None <==> (forall|i: int| 0 <= i < values.len() ==> kind_of(#[trigger] values[i]) != k),
    decreases values.len(),
{
    if values.len() > 0 {
        let rest = values.drop_last();
        no_last_of_kind(rest, k);
        let n = values.len() - 1;
        if kind_of(values.last()) != k {
            assert forall|i: int| 0 <= i < values.len() implies kind_of(#[trigger] values[i]) != k <== (forall|i: int|
                0 <= i < rest.len() ==> kind_of(#[trigger] rest[i]) != k) by {
                if i < n {
                    assert(rest[i] == values[i]);
                }
            }
            assert forall|i: int| 0 <= i < rest.len() implies kind_of(#[trigger] rest[i]) != k <== (forall|i: int|
                0 <= i < values.len() ==> kind_of(#[trigger] values[i]) != k) by {
                assert(rest[i] == values[i]);
            }
        } else {
            assert(kind_of(values[n]) == k);
        }
    }
}

/// The value at `i` is the last of its kind when no later value has it.
proof fn last_of_kind_is_latest(values: Seq<StepOutput>, k: StepOutputKind, i: int)
    requires
        0 <= i < values.len(),
        kind_of(values[i]) == k,
        forall|j: int| i < j < values.len() ==> kind_of(#[trigger] values[j]) != k,
    ensures
        last_of_kind(values, k) == Some(values[i]),
    decreases values.len(),
{
    let n = values.len() - 1;
    if i < n {
        let rest = values.drop_last();
        assert(kind_of(values[n]) != k);
        assert forall|j: int| i < j < rest.len() implies kind_of(#[trigger] rest[j]) != k by {
            assert(rest[j] == values[j]);
        }
        last_of_kind_is_latest(rest, k, i);
    }
}

/// The latest stored output of a kind is the one read back: after a
/// sequence of stores, a kind reads as the text of the last value of that
/// kind, so stores of other kinds never change it; a kind that no value had
/// reads as before.
pub proof fn latest_output_wins(start: Map<StepOutputKind, Seq<char>>, values: Seq<StepOutput>, i: int)
    requires
        0 <= i < values.len(),
        forall|j: int| i < j < values.len() ==> kind_of(#[trigger] values[j]) != kind_of(values[i]),
    ensures
        stored_after(start, values).contains_key(kind_of(values[i])),
        stored_after(start, values)[kind_of(values[i])] == output_text(values[i]),
{
    last_of_kind_is_latest(values, kind_of(values[i]), i);
    stored_after_reads_last(start, values, kind_of(values[i]));
}

/// A kind that none of the stored values has reads as before.
pub proof fn other_kinds_leave_output(start: Map<StepOutputKind, Seq<char>>, values: Seq<StepOutput>, k: StepOutputKind)
    requires
        forall|i: int| 0 <= i < values.len() ==> kind_of(#[trigger] values[i]) != k,
    ensures
        stored_after(start, values).contains_key(k) == start.contains_key(k),
        start.contains_key(k) ==> stored_after(start, values)[k] == start[k],
{
    no_last_of_kind(values, k);
    stored_after_reads_last(start, values, k);
}

/// The outputs of the steps so far, at most one of each kind.
#[derive(Debug)]
pub struct StepState {
    evaluation: Option<StepOutput>,
    key_agent_directory: Option<StepOutput>,
    build: Option<StepOutput>,
}

impl StepState {
    /// The text of the output of each kind that was stored.
    pub closed spec fn view(&self) -> Map<StepOutputKind, Seq<char>> {
        Map::new(
            |k: StepOutputKind| self.slot(k) is Some,
            |k: StepOutputKind| output_text(self.slot(k)->0),
        )
    }

    closed spec fn slot(&self, k: StepOutputKind) -> Option<StepOutput> {
        match k {
            StepOutputKind::Evaluation => self.evaluation,
            StepOutputKind::KeyAgentDirectory => self.key_agent_directory,
            StepOutputKind::BuildOutput => self.build,
        }
    }

    /// Each slot holds an output of its own kind.
    pub closed spec fn wf(&self) -> bool {
        forall|k: StepOutputKind| #[trigger] self.slot(k) matches Some(v) ==> kind_of(v) == k
    }

    /// No outputs yet.
    pub fn new() -> (res: Self)
        ensures
            res.wf(),
            res@ == Map::<StepOutputKind, Seq<char>>::empty(),
    {
        StepState { evaluation: None, key_agent_directory: None, build: None }
    }

    /// Stores `value`, replacing an earlier output of its kind.
    pub fn insert(&mut self, value: StepOutput)
        requires
            old(self).wf(),
        ensures
            final(self).wf(),
            final(self)@ == old(self)@.insert(kind_of(value), output_text(value)),
    {
        let ghost k = kind_of(value);
        match value {
            StepOutput::Evaluation(_) => {
                self.evaluation = Some(value);
            },
            StepOutput::KeyAgentDirectory(_) => {
                self.key_agent_directory = Some(value);
            },
            StepOutput::BuildOutput(_) => {
                self.build = Some(value);
            },
        }
        proof {
            assert forall|k2: StepOutputKind| #[trigger] self.slot(k2) is Some implies kind_of(self.slot(k2)->0) == k2 by {
                if k2 != k {
                    assert(self.slot(k2) == old(self).slot(k2));
                }
            }
        }
    }

    /// The output stored for `kind`, if any.
    pub fn get(&self, kind: StepOutputKind) -> (res: Option<&StepOutput>)
        requires
            self.wf(),
        ensures
            res is Some <==> self@.contains_key(kind),
            res matches Some(v) ==> kind_of(*v) == kind && output_text(*v) == self@[kind],
    {
        match kind {
            StepOutputKind::Evaluation => self.evaluation.as_ref(),
            StepOutputKind::KeyAgentDirectory => self.key_agent_directory.as_ref(),
            StepOutputKind::BuildOutput => self.build.as_ref(),
        }
    }

    /// The evaluated top-level derivation, if the evaluation ran.
    pub fn get_evaluation(&self) -> (res: Option<&crate::evaluate::Output>)
        requires
            self.wf(),
        ensures
            res is Some <==> self@.contains_key(StepOutputKind::Evaluation),
            res matches Some(e) ==> e.0.0@ == self@[StepOutputKind::Evaluation],
    {
        match self.get(StepOutputKind::Evaluation) {
            Some(StepOutput::Evaluation(evaluation)) => Some(evaluation),
            _ => None,
        }
    }

    /// The built store path, if the build ran.
    pub fn get_build(&self) -> (res: Option<&crate::build_step::Output>)
        requires
            self.wf(),
        ensures
            res is Some <==> self@.contains_key(StepOutputKind::BuildOutput),
            res matches Some(b) ==> b.0@ == self@[StepOutputKind::BuildOutput],
    {
        match self.get(StepOutputKind::BuildOutput) {
            Some(StepOutput::BuildOutput(value)) => Some(value),
            _ => None,
        }
    }

    /// The key agent's directory, if the agent was pushed.
    pub fn get_key_agent_directory(&self) -> (res: Option<&PushKeyAgentOutput>)
        requires
            self.wf(),
        ensures
            res is Some <==> self@.contains_key(StepOutputKind::KeyAgentDirectory),
            res matches Some(k) ==> k.0@ == self@[StepOutputKind::KeyAgentDirectory],
    {
        match self.get(StepOutputKind::KeyAgentDirectory) {
            Some(StepOutput::KeyAgentDirectory(value)) => Some(value),
            _ => None,
        }
    }
}

} // verus!
