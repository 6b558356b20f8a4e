use wire::node::Name;
use wire::status::Status;

fn names(list: &[&str]) -> Vec<Name> {
    list.iter().map(|n| Name(n.to_string())).collect()
}

#[test]
fn counts_follow_the_nodes() {
    let mut status = Status::new();
    assert_eq!(status.message_after(3), "");
    let nodes = names(&["a", "b", "c"]);
    let refs: Vec<&Name> = nodes.iter().collect();
    status.add_many(&refs);
    assert_eq!(status.num_finished(), 0);
    assert_eq!(status.num_running(), 0);
    assert_eq!(status.message_after(3), "[0 / 3] 3s");
    status.set_node_step(&nodes[0], "Build the node".to_string());
    status.set_node_step(&nodes[1], "Evaluate the node".to_string());
    assert_eq!(status.num_running(), 2);
    status.mark_node_failed(&nodes[1]);
    status.mark_node_succeeded(&nodes[2]);
    assert_eq!(status.num_finished(), 2);
    assert_eq!(status.num_failed(), 1);
    assert_eq!(status.num_running(), 1);
    assert_eq!(
        status.message_after(12),
        "[2 / 3 (\u{1b}[31m1\u{1b}[39m Failed, \u{1b}[34m1\u{1b}[39m Deploying)] 12s"
    );
}

#[test]
fn a_node_is_counted_once() {
    let mut status = Status::new();
    let nodes = names(&["a", "a"]);
    let refs: Vec<&Name> = nodes.iter().collect();
    status.add_many(&refs);
    assert_eq!(status.message_after(0), "[0 / 1] 0s");
    status.mark_node_succeeded(&Name("new".to_string()));
    assert_eq!(status.message_after(0), "[1 / 2] 0s");
}

#[test]
fn status_line_is_written_only_when_shown() {
    let mut status = Status::new();
    let mut out = Vec::new();
    status.write_status(&mut out);
    status.clear(&mut out);
    assert!(out.is_empty());
    status.show_progress(true);
    status.clear(&mut out);
    assert_eq!(out, b"\x1b[s\x1b[999D\x1b[2K".to_vec());
    let mut out = Vec::new();
    status.wipe_out(&mut out);
    assert_eq!(out, b"\x1b[s\x1b[999D\x1b[2K".to_vec());
}

#[test]
fn writes_above_the_status_are_skipped_during_a_prompt() {
    let mut status = Status::new();
    let mut out = Vec::new();
    assert_eq!(status.write_above_status(b"log\n", &mut out, 0), 0);
    assert!(out.is_empty());
    assert_eq!(status.write_above_status(b"log\n", &mut out, 1), 4);
    assert_eq!(out, b"log\n".to_vec());
    let message = status.get_msg();
    assert_eq!(message, "");
}

#[test]
fn failed_and_deploying_details() {
    let mut status = Status::new();
    let nodes = names(&["a"]);
    status.mark_node_failed(&nodes[0]);
    assert_eq!(status.message_after(1), "[1 / 1 (\u{1b}[31m1\u{1b}[39m Failed)] 1s");
    status.set_node_step(&nodes[0], "x".to_string());
    assert_eq!(status.message_after(1), "[0 / 1 (\u{1b}[34m1\u{1b}[39m Deploying)] 1s");
}

#[test]
fn marking_a_node_succeeded_twice_is_marking_it_once() {
    let mut status = Status::new();
    let nodes = names(&["a", "b"]);
    let refs: Vec<&Name> = nodes.iter().collect();
    status.add_many(&refs);
    status.mark_node_succeeded(&nodes[0]);
    let once = (status.num_finished(), status.num_running(), status.num_failed(), status.message_after(5));
    status.mark_node_succeeded(&nodes[0]);
    let twice = (status.num_finished(), status.num_running(), status.num_failed(), status.message_after(5));
    assert_eq!(once, twice);
    assert_eq!(twice.3, "[1 / 2] 5s");
}
