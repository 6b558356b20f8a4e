use wire::cli::{
    failures_message, more_than_zero, node_failure_message, partition_results, select_nodes, targets_from_text,
    ApplyTarget, Goal,
};
use wire::hive::{Hive, Node};
use wire::node::{Goal as NodeGoal, Name, SwitchToConfigurationGoal, Target};

#[test]
fn apply_targets_read_tags_and_names() {
    assert!(matches!(ApplyTarget::from_string("@web".to_string()), ApplyTarget::Tag(t) if t == "web"));
    assert!(matches!(ApplyTarget::from_string("node-a".to_string()), ApplyTarget::Node(n) if n.0 == "node-a"));
    assert!(matches!(ApplyTarget::from_string("@".to_string()), ApplyTarget::Tag(t) if t.is_empty()));
}

#[test]
fn apply_targets_display_as_read() {
    for s in ["@web", "node-a", "@", "", "a@b"] {
        assert_eq!(ApplyTarget::from_string(s.to_string()).to_display_string(), s);
    }
}

#[test]
fn targets_from_stdin_text() {
    let targets = targets_from_text("  node-a\n@db\tnode-b ");
    let shown: Vec<String> = targets.iter().map(|t| t.to_display_string()).collect();
    assert_eq!(shown, vec!["node-a", "@db", "node-b"]);
    assert!(matches!(&targets[1], ApplyTarget::Tag(t) if t == "db"));
}

fn node(tags: &[&str]) -> Node {
    Node {
        target: Target::from_host("10.0.0.1"),
        build_remotely: false,
        allow_local_deployment: true,
        tags: tags.iter().map(|t| t.to_string()).collect::<im::HashSet<String>>(),
        keys: vec![],
        host_platform: "x86_64-linux".to_string(),
    }
}

fn hive() -> Hive {
    Hive {
        nodes: vec![
            (Name("a".to_string()), node(&["web"])),
            (Name("b".to_string()), node(&["db"])),
            (Name("c".to_string()), node(&["web", "db"])),
            (Name("d".to_string()), node(&[])),
        ],
        schema: 0,
    }
}

fn names(v: Vec<Name>) -> Vec<String> {
    v.into_iter().map(|n| n.0).collect()
}

#[test]
fn no_target_selects_every_node() {
    assert_eq!(names(select_nodes(&hive(), &vec![])), vec!["a", "b", "c", "d"]);
}

#[test]
fn targets_select_by_name_and_tag() {
    let on = vec![ApplyTarget::from_string("@db".to_string()), ApplyTarget::from_string("d".to_string())];
    assert_eq!(names(select_nodes(&hive(), &on)), vec!["b", "c", "d"]);
    let on = vec![ApplyTarget::from_string("@nothing".to_string())];
    assert!(select_nodes(&hive(), &on).is_empty());
}

#[test]
fn parallelism_must_be_positive() {
    assert_eq!(more_than_zero("10"), Ok(10));
    assert_eq!(more_than_zero("+3"), Ok(3));
    assert_eq!(more_than_zero("0"), Err("less than minimum of 1".to_string()));
    assert!(more_than_zero("ten").is_err());
    assert!(more_than_zero("").is_err());
    assert!(more_than_zero("-1").is_err());
}

#[test]
fn results_are_parted() {
    let results = vec![
        (Name("a".to_string()), true),
        (Name("b".to_string()), false),
        (Name("c".to_string()), true),
    ];
    let (ok, failed) = partition_results(&results);
    assert_eq!(names(ok), vec!["a", "c"]);
    assert_eq!(names(failed), vec!["b"]);
    assert_eq!(failures_message(1), "1 node(s) failed to apply.");
    assert_eq!(node_failure_message(&Name("b".to_string())), "node b failed to apply");
}

#[test]
fn goals_map_to_node_goals() {
    assert_eq!(Goal::default_goal(), Goal::Switch);
    assert_eq!(Goal::Build.to_node_goal(), NodeGoal::Build);
    assert_eq!(Goal::Push.to_node_goal(), NodeGoal::Push);
    assert_eq!(Goal::Keys.to_node_goal(), NodeGoal::Keys);
    assert_eq!(
        Goal::DryActivate.to_node_goal(),
        NodeGoal::SwitchToConfiguration(SwitchToConfigurationGoal::DryActivate)
    );
    assert_eq!(Goal::Boot.to_node_goal(), NodeGoal::SwitchToConfiguration(SwitchToConfigurationGoal::Boot));
    assert_eq!(Goal::DryActivate.to_display_string(), "DryActivate");
}
