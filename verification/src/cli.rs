use std::collections::hash_map::RandomState;
use vstd::prelude::*;

use crate::hive::{Hive, Node};
use crate::agent::{digits_value, is_digit};
use crate::node::{Goal as NodeGoal, Name, SwitchToConfigurationGoal};
use crate::persistent::{set_contains, text_set};
use crate::text::{decimal, u64_to_string};

verus! {

/// What `str::split_whitespace` gives for `text`: its pieces between runs of
/// whitespace, in order.
pub uninterp spec fn whitespace_pieces(text: Seq<char>) -> Seq<Seq<char>>;

/// `str::split_whitespace`, collected. Claimed: the named result.
#[verifier::external_body]
fn split_whitespace(text: &str) -> (res: Vec<String>)
    ensures
        res@.map_values(|s: String| s@) == whitespace_pieces(text@),
{
    text.split_whitespace().map(|s| s.to_string()).collect()
}

/// A node to apply a goal to: by name, or every node with a tag.
#[derive(Debug)]
pub enum ApplyTarget {
    Node(Name),
    Tag(String),
}

/// The model of an apply target.
pub enum TargetView {
    Node(Seq<char>),
    Tag(Seq<char>),
}

impl ApplyTarget {
    pub open spec fn view(&self) -> TargetView {
        match self {
            ApplyTarget::Node(n) => TargetView::Node(n.0@),
            ApplyTarget::Tag(t) => TargetView::Tag(t@),
        }
    }
}

/// The target that `s` names: a tag when it starts with `@`, without the
/// `@`; else a node.
pub open spec fn target_of(s: Seq<char>) -> TargetView {
    if s.len() > 0 && s[0] == '@' {
        TargetView::Tag(s.subrange(1, s.len() as int))
    } else {
        TargetView::Node(s)
    }
}

/// How a target is displayed: the node's name, or `@` and the tag.
pub open spec fn target_display(t: TargetView) -> Seq<char> {
    match t {
        TargetView::Node(n) => n,
        TargetView::Tag(t) => seq!['@'] + t,
    }
}

impl ApplyTarget {
    /// The target that `value` names: `@tag` or a node name.
    pub fn from_string(value: String) -> (res: ApplyTarget)
        ensures
            res.view() == target_of(value@),
    {
        let len = value.as_str().unicode_len();
        if len > 0 && value.as_str().get_char(0) == '@' {
            let tag = value.as_str().substring_char(1, len);
            ApplyTarget::Tag(String::from_str(tag))
        } else {
            ApplyTarget::Node(Name(value))
        }
    }

    /// The target's display: the node name, or `@` and the tag.
    pub fn to_display_string(&self) -> (res: String)
        ensures
            res@ == target_display(self.view()),
    {
        match self {
            ApplyTarget::Node(name) => name.0.clone(),
            ApplyTarget::Tag(tag) => {
                let mut s = String::new();
                crate::text::push_char(&mut s, '@');
                s.append(tag.as_str());
                s
            },
        }
    }
}

/// A target displays as the text it was read from.
pub proof fn target_display_roundtrip(s: Seq<char>)
    ensures
        target_display(target_of(s)) == s,
{
}

/// The targets named by the words of `text`.
pub open spec fn targets_of_text(text: Seq<char>) -> Seq<TargetView> {
    whitespace_pieces(text).map_values(|s: Seq<char>| target_of(s))
}

/// The targets named by the whitespace-separated words of `text` (the
/// targets read from stdin).
pub fn targets_from_text(text: &str) -> (res: Vec<ApplyTarget>)
    ensures
        res@.map_values(|t: ApplyTarget| t.view()) == targets_of_text(text@),
{
    let words = split_whitespace(text);
    let ghost pieces = words@.map_values(|s: String| s@);
    let mut res: Vec<ApplyTarget> = Vec::new();
    let mut i: usize = 0;
    while i < words.len()
        invariant
            0 <= i <= words@.len(),
            pieces == words@.map_values(|s: String| s@),
            pieces == whitespace_pieces(text@),
            res@.map_values(|t: ApplyTarget| t.view()) =~= pieces.take(i as int).map_values(|s: Seq<char>| target_of(s)),
        decreases words@.len() - i,
    {
        let target = ApplyTarget::from_string(words[i].clone());
        let ghost tv = target.view();
        res.push(target);
        proof {
            assert(pieces.take(i + 1).map_values(|s: Seq<char>| target_of(s)) =~= pieces.take(i as int).map_values(|s: Seq<char>| target_of(s)).push(tv));
        }
        i = i + 1;
    }
    res
}

/// Whether some target of `on` names the node `name`.
pub open spec fn names_node(on: Seq<TargetView>, name: Seq<char>) -> bool {
    exists|i: int| 0 <= i < on.len() && on[i] == TargetView::Node(name)
}

/// Whether some target of `on` names one of `tags`.
pub open spec fn names_tag(on: Seq<TargetView>, tags: Set<Seq<char>>) -> bool {
    exists|i: int| 0 <= i < on.len() && (#[trigger] on[i] matches TargetView::Tag(t) && tags.contains(t))
}

/// A node is selected when no target was given, or a target names it or
/// one of its tags.
pub open spec fn is_selected(on: Seq<TargetView>, name: Seq<char>, tags: Set<Seq<char>>) -> bool {
    on.len() == 0 || names_node(on, name) || names_tag(on, tags)
}

/// The names of the nodes of `nodes` that are selected by `on`, in order.
pub open spec fn selected(on: Seq<TargetView>, nodes: Seq<(Name, Node)>) -> Seq<Seq<char>>
    decreases nodes.len(),
{
    if nodes.len() == 0 {
        Seq::empty()
    } else {
        let rest = selected(on, nodes.drop_last());
        let (name, node) = nodes.last();
        if is_selected(on, name.0@, text_set(node.tags)) {
            rest.push(name.0@)
        } else {
            rest
        }
    }
}

/// A node that the targets select is among the selected names.
proof fn chosen_node_is_selected(on: Seq<TargetView>, nodes: Seq<(Name, Node)>, k: int)
    requires
        0 <= k < nodes.len(),
        is_selected(on, nodes[k].0.0@, text_set(nodes[k].1.tags)),
    ensures
        selected(on, nodes).contains(nodes[k].0.0@),
    decreases nodes.len(),
{
    let n = nodes.len() - 1;
    let rest = selected(on, nodes.drop_last());
    if k == n {
        assert(selected(on, nodes) == rest.push(nodes[k].0.0@));
        assert(selected(on, nodes)[rest.len() as int] == nodes[k].0.0@);
    } else {
        assert(nodes.drop_last()[k] == nodes[k]);
        chosen_node_is_selected(on, nodes.drop_last(), k);
        let j = choose|j: int| 0 <= j < rest.len() && rest[j] == nodes[k].0.0@;
        let (name, node) = nodes.last();
        if is_selected(on, name.0@, text_set(node.tags)) {
            assert(selected(on, nodes)[j] == nodes[k].0.0@);
        }
    }
}

/// Every node that any `--on` target names is selected, wherever that
/// target stands among the others.
pub proof fn every_named_node_is_selected(on: Seq<TargetView>, nodes: Seq<(Name, Node)>, i: int, k: int)
    requires
        0 <= k < nodes.len(),
        0 <= i < on.len(),
        on[i] == TargetView::Node(nodes[k].0.0@),
    ensures
        selected(on, nodes).contains(nodes[k].0.0@),
{
    assert(names_node(on, nodes[k].0.0@));
    chosen_node_is_selected(on, nodes, k);
}

/// With no `--on` target, every node is selected.
pub proof fn no_target_selects_every_node(nodes: Seq<(Name, Node)>, k: int)
    requires
        0 <= k < nodes.len(),
    ensures
        selected(Seq::<TargetView>::empty(), nodes).contains(nodes[k].0.0@),
{
    chosen_node_is_selected(Seq::<TargetView>::empty(), nodes, k);
}

/// Whether a target of `on` names the node `name`.
fn on_names_node(on: &Vec<ApplyTarget>, name: &Name) -> (res: bool)
    ensures
        res == names_node(on@.map_values(|t: ApplyTarget| t.view()), name.0@),
{
    let ghost v = on@.map_values(|t: ApplyTarget| t.view());
    let mut i: usize = 0;
    while i < on.len()
        invariant
            0 <= i <= on@.len(),
            v == on@.map_values(|t: ApplyTarget| t.view()),
            forall|k: int| 0 <= k < i ==> v[k] != TargetView::Node(name.0@),
        decreases on@.len() - i,
    {
        match &on[i] {
            ApplyTarget::Node(n) => {
                if n.0 == name.0 {
                    assert(v[i as int] == TargetView::Node(name.0@));
                    return true;
                }
            },
            ApplyTarget::Tag(_) => {},
        }
        i = i + 1;
    }
    false
}

/// Whether a target of `on` names one of `tags`.
fn on_names_tag(on: &Vec<ApplyTarget>, tags: &im::HashSet<String, RandomState>) -> (res: bool)
    ensures
        res == names_tag(on@.map_values(|t: ApplyTarget| t.view()), text_set(*tags)),
{
    let ghost v = on@.map_values(|t: ApplyTarget| t.view());
    let mut i: usize = 0;
    while i < on.len()
        invariant
            0 <= i <= on@.len(),
            v == on@.map_values(|t: ApplyTarget| t.view()),
            forall|k: int| 0 <= k < i ==> !(#[trigger] v[k] matches TargetView::Tag(t) && text_set(*tags).contains(t)),
        decreases on@.len() - i,
    {
        match &on[i] {
            ApplyTarget::Tag(t) => {
                if set_contains(tags, t) {
                    assert(v[i as int] == TargetView::Tag(t@));
                    return true;
                }
            },
            ApplyTarget::Node(_) => {},
        }
        i = i + 1;
    }
    false
}

/// The names of the nodes of the hive that `on` selects, in the hive's
/// order: all nodes when `on` is empty, else the nodes named by a target or
/// carrying a tag that a target names.
pub fn select_nodes(hive: &Hive, on: &Vec<ApplyTarget>) -> (res: Vec<Name>)
    ensures
        res@.map_values(|n: Name| n.0@) == selected(on@.map_values(|t: ApplyTarget| t.view()), hive.nodes@),
{
    let ghost v = on@.map_values(|t: ApplyTarget| t.view());
    let mut res: Vec<Name> = Vec::new();
    let mut i: usize = 0;
    while i < hive.nodes.len()
        invariant
            0 <= i <= hive.nodes@.len(),
            v == on@.map_values(|t: ApplyTarget| t.view()),
            res@.map_values(|n: Name| n.0@) == selected(v, hive.nodes@.take(i as int)),
        decreases hive.nodes@.len() - i,
    {
        let (name, node) = &hive.nodes[i];
        proof {
            assert(hive.nodes@.take(i + 1).drop_last() =~= hive.nodes@.take(i as int));
        }
        let chosen = on.len() == 0 || on_names_node(on, name) || on_names_tag(on, &node.tags);
        if chosen {
            let ghost before = res@.map_values(|n: Name| n.0@);
            res.push(Name(name.0.clone()));
        }
        i = i + 1;
    }
    proof {
        assert(hive.nodes@.take(hive.nodes@.len() as int) =~= hive.nodes@);
    }
    res
}

/// The names of the nodes whose goal was applied, in the order of `results`.
pub open spec fn succeeded_names(results: Seq<(Seq<char>, bool)>) -> Seq<Seq<char>>
    decreases results.len(),
{
    if results.len() == 0 {
        Seq::empty()
    } else if results.last().1 {
        succeeded_names(results.drop_last()).push(results.last().0)
    } else {
        succeeded_names(results.drop_last())
    }
}

/// The names of the nodes whose goal failed, in the order of `results`.
pub open spec fn failed_names(results: Seq<(Seq<char>, bool)>) -> Seq<Seq<char>>
    decreases results.len(),
{
    if results.len() == 0 {
        Seq::empty()
    } else if !results.last().1 {
        failed_names(results.drop_last()).push(results.last().0)
    } else {
        failed_names(results.drop_last())
    }
}

/// The model of the results of applying a goal: each node's name and
/// whether its goal was applied.
pub open spec fn results_view(results: Seq<(Name, bool)>) -> Seq<(Seq<char>, bool)> {
    results.map_values(|r: (Name, bool)| (r.0.0@, r.1))
}

/// Parts the results of applying a goal into the nodes that succeeded and
/// those that failed, each in the order of `results`.
pub fn partition_results(results: &Vec<(Name, bool)>) -> (res: (Vec<Name>, Vec<Name>))
    ensures
        res.0@.map_values(|n: Name| n.0@) == succeeded_names(results_view(results@)),
        res.1@.map_values(|n: Name| n.0@) == failed_names(results_view(results@)),
{
    let ghost v = results_view(results@);
    let mut successful: Vec<Name> = Vec::new();
    let mut failed: Vec<Name> = Vec::new();
    let mut i: usize = 0;
    while i < results.len()
        invariant
            i <= results@.len(),
            v == results_view(results@),
            successful@.map_values(|n: Name| n.0@) == succeeded_names(v.take(i as int)),
            failed@.map_values(|n: Name| n.0@) == failed_names(v.take(i as int)),
        decreases results@.len() - i,
    {
        let (name, ok) = &results[i];
        proof {
            assert(v.take(i + 1).drop_last() =~= v.take(i as int));
        }
        if *ok {
            successful.push(Name(name.0.clone()));
        } else {
            failed.push(Name(name.0.clone()));
        }
        i = i + 1;
    }
    proof {
        assert(v.take(results@.len() as int) =~= v);
    }
    (successful, failed)
}

/// Every node whose goal was applied or failed is reported once: the
/// succeeded and the failed nodes together are as many as the results.
pub proof fn partition_counts_every_result(results: Seq<(Seq<char>, bool)>)
    ensures
        succeeded_names(results).len() + failed_names(results).len() == results.len(),
    decreases results.len(),
{
    if results.len() > 0 {
        partition_counts_every_result(results.drop_last());
    }
}

/// The error of a node whose goal failed.
pub open spec fn node_failure_text(name: Seq<char>) -> Seq<char> {
    "node "@ + name + " failed to apply"@
}

/// The error of a node whose goal failed.
pub fn node_failure_message(name: &Name) -> (res: String)
    ensures
        res@ == node_failure_text(name.0@),
{
    let mut s = String::from_str("node ");
    s.append(name.0.as_str());
    s.append(" failed to apply");
    s
}

/// The error of a deployment in which `failed` nodes failed.
pub open spec fn failures_text(failed: nat) -> Seq<char> {
    decimal(failed) + " node(s) failed to apply."@
}

/// The error of a deployment in which `failed` nodes failed.
pub fn failures_message(failed: usize) -> (res: String)
    ensures
        res@ == failures_text(failed as nat),
{
    let mut s = u64_to_string(failed as u64);
    s.append(" node(s) failed to apply.");
    s
}

/// The goals that the command line offers.
#[derive(Clone, Copy, Debug, PartialEq, Eq, Structural)]
pub enum Goal {
    /// Make the configuration the boot default and activate now
    Switch,
    /// Make the configuration the boot default
    Build,
    /// Copy closures to remote hosts
    Push,
    /// Push deployment keys to remote hosts
    Keys,
    /// Activate system profile on next boot
    Boot,
    /// Activate the configuration, but don't make it the boot default
    Test,
    /// Show what would be done if this configuration were activated.
    DryActivate,
}

/// The node goal that a command line goal stands for.
pub open spec fn node_goal_of(goal: Goal) -> NodeGoal {
    match goal {
        Goal::Build => NodeGoal::Build,
        Goal::Push => NodeGoal::Push,
        Goal::Boot => NodeGoal::SwitchToConfiguration(SwitchToConfigurationGoal::Boot),
        Goal::Switch => NodeGoal::SwitchToConfiguration(SwitchToConfigurationGoal::Switch),
        Goal::Test => NodeGoal::SwitchToConfiguration(SwitchToConfigurationGoal::Test),
        Goal::DryActivate => NodeGoal::SwitchToConfiguration(SwitchToConfigurationGoal::DryActivate),
        Goal::Keys => NodeGoal::Keys,
    }
}

impl Goal {
    /// The default goal: switch.
    pub fn default_goal() -> (res: Goal)
        ensures
            res == Goal::Switch,
    {
        Goal::Switch
    }

    /// The node goal that this goal stands for; every goal has one.
    pub fn to_node_goal(self) -> (res: NodeGoal)
        ensures
            res == node_goal_of(self),
    {
        match self {
            Goal::Build => NodeGoal::Build,
            Goal::Push => NodeGoal::Push,
            Goal::Boot => NodeGoal::SwitchToConfiguration(SwitchToConfigurationGoal::Boot),
            Goal::Switch => NodeGoal::SwitchToConfiguration(SwitchToConfigurationGoal::Switch),
            Goal::Test => NodeGoal::SwitchToConfiguration(SwitchToConfigurationGoal::Test),
            Goal::DryActivate => NodeGoal::SwitchToConfiguration(SwitchToConfigurationGoal::DryActivate),
            Goal::Keys => NodeGoal::Keys,
        }
    }

    /// The goal's display: its name.
    pub fn to_display_string(self) -> (res: String)
        ensures
            res@ == cli_goal_text(self),
    {
        match self {
            Goal::Switch => String::from_str("Switch"),
            Goal::Build => String::from_str("Build"),
            Goal::Push => String::from_str("Push"),
            Goal::Keys => String::from_str("Keys"),
            Goal::Boot => String::from_str("Boot"),
            Goal::Test => String::from_str("Test"),
            Goal::DryActivate => String::from_str("DryActivate"),
        }
    }
}

/// The display of a command line goal: its name.
pub open spec fn cli_goal_text(goal: Goal) -> Seq<char> {
    match goal {
        Goal::Switch => "Switch"@,
        Goal::Build => "Build"@,
        Goal::Push => "Push"@,
        Goal::Keys => "Keys"@,
        Goal::Boot => "Boot"@,
        Goal::Test => "Test"@,
        Goal::DryActivate => "DryActivate"@,
    }
}

/// What `usize::from_str` gives: an optional `+`, then at least one decimal
/// digit, with a value that fits in a `usize`; `None` for anything else.
pub open spec fn decimal_usize(s: Seq<char>) -> Option<usize> {
    let digits = if s.len() > 0 && s[0] == '+' {
        s.subrange(1, s.len() as int)
    } else {
        s
    };
    if digits.len() > 0 && (forall|i: int| 0 <= i < digits.len() ==> is_digit(#[trigger] digits[i]))
        && digits_value(digits) <= usize::MAX {
        Some(digits_value(digits) as usize)
    } else {
        None
    }
}

/// `clap_num::number_range` for a `usize`. Claimed, as its source shows: a
/// number that `usize::from_str` reads and that lies within `min..=max` is
/// accepted; one above `max` or below `min` is refused with a message that
/// names the bound. What a text that is no number is refused with is the
/// message of std's parse error, and is left unsaid.
#[verifier::external_body]
fn number_range(s: &str, min: usize, max: usize) -> (res: Result<usize, String>)
    requires
        min <= max,
    ensures
        res matches Ok(r) ==> decimal_usize(s@) == Some(r) && min <= r && r <= max,
        res matches Err(e) ==> match decimal_usize(s@) {
            Some(v) => if v > max {
                e@ == "exceeds maximum of "@ + decimal(max as nat)
            } else {
                v < min && e@ == "less than minimum of "@ + decimal(min as nat)
            },
            None => true,
        },
{
    clap_num::number_range(s, min, max)
}

/// Reads the number of nodes to deploy in parallel: a whole number of at
/// least one.
pub fn more_than_zero(s: &str) -> (res: Result<usize, String>)
    ensures
        res matches Ok(n) ==> decimal_usize(s@) == Some(n) && n >= 1,
        decimal_usize(s@) is Some && decimal_usize(s@).unwrap() >= 1 ==> res == Ok::<usize, String>(
            decimal_usize(s@).unwrap(),
        ),
        decimal_usize(s@) == Some(0usize) ==> (res matches Err(e) && e@ == "less than minimum of 1"@),
        decimal_usize(s@) is None ==> res is Err,
{
    let res = number_range(s, 1, usize::MAX);
    proof {
        reveal_strlit("less than minimum of 1");
        reveal_strlit("less than minimum of ");
    }
    res
}

/// The subcommands of the command line.
#[derive(Debug)]
pub enum Commands {
    Apply { goal: Goal, on: Vec<ApplyTarget>, parallel: usize, no_keys: bool },
    /// Inspect hive
    Inspect { online: bool, json: bool },
    /// Inspect log of builds
    Log { host: String, index: i32 },
}

} // verus!
