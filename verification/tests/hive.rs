use wire::commands::HiveLocation;
use wire::hive::{
    check_schema_version, find_hive, hive_directory_candidate, search_hive_in, FlakeRefParse, ForceLocalError, Hive,
    HiveLocationError, HiveSearch, Node,
};
use wire::node::{Name, Target};

fn test_dir() -> String {
    "/tmp/wire-tests/test_hive_dot_nix_priority".to_string()
}

// flake should always come before hive.nix
#[test]
fn test_hive_dot_nix_priority() {
    // the test directory holds both `hive.nix` and `flake.nix`
    let path = test_dir();
    let location = find_hive(path.clone(), FlakeRefParse::Path(path), true).unwrap();

    assert!(matches!(location, HiveLocation::Flake(..)));
}

#[test]
fn directory_without_flake_uses_hive_nix() {
    let path = test_dir();
    match find_hive(path.clone(), FlakeRefParse::UrlParseError, false) {
        Ok(HiveLocation::HiveNix(p)) => assert_eq!(p, format!("{path}/hive.nix")),
        _ => panic!("expected hive.nix"),
    }
}

#[test]
fn flake_location_is_the_flake_file() {
    let path = test_dir();
    match find_hive(path.clone(), FlakeRefParse::Path(path.clone()), true) {
        Ok(HiveLocation::Flake(p)) => assert_eq!(p, format!("{path}/flake.nix")),
        _ => panic!("expected a flake"),
    }
}

#[test]
fn hive_nix_file_is_used_as_given() {
    let path = "/srv/deploy/hive.nix".to_string();
    match find_hive(path.clone(), FlakeRefParse::UrlParseError, true) {
        Ok(HiveLocation::HiveNix(p)) => assert_eq!(p, path),
        _ => panic!("expected hive.nix"),
    }
    assert_eq!(hive_directory_candidate(&path, &FlakeRefParse::UrlParseError), None);
}

#[test]
fn remote_flakes_are_used_as_given() {
    let uri = "github:wires-org/wire".to_string();
    match find_hive(uri.clone(), FlakeRefParse::Remote, false) {
        Ok(HiveLocation::Flake(p)) => assert_eq!(p, uri),
        _ => panic!("expected a flake"),
    }
    assert_eq!(hive_directory_candidate(&uri, &FlakeRefParse::Remote), None);
}

#[test]
fn refused_locations() {
    assert!(matches!(
        find_hive("x".to_string(), FlakeRefParse::Malformed("bad".to_string()), false),
        Err(HiveLocationError::Malformed(e)) if e == "bad"
    ));
    assert!(matches!(
        find_hive("x".to_string(), FlakeRefParse::Unsupported("indirect".to_string()), false),
        Err(HiveLocationError::TypeUnsupported(e)) if e == "indirect"
    ));
    assert!(matches!(
        find_hive("/".to_string(), FlakeRefParse::UrlParseError, false),
        Err(HiveLocationError::MalformedPath(p)) if p == "/"
    ));
}

#[test]
fn candidate_directory_is_the_path() {
    let path = test_dir();
    assert_eq!(hive_directory_candidate(&path, &FlakeRefParse::UrlParseError), Some(path.clone()));
}

#[test]
fn schema_versions() {
    assert_eq!(check_schema_version(0), Ok(0));
    assert_eq!(
        check_schema_version(1),
        Err("Version mismatch for Hive. Please ensure the binary and your wire input match!".to_string())
    );
}

fn node(build_remotely: bool) -> Node {
    Node {
        target: Target::from_host("10.0.0.1"),
        build_remotely,
        allow_local_deployment: true,
        tags: im::HashSet::new(),
        keys: vec![],
        host_platform: "x86_64-linux".to_string(),
    }
}

#[test]
fn forcing_local_builds() {
    let mut hive = Hive {
        nodes: vec![
            (Name("a".to_string()), node(true)),
            (Name("b".to_string()), node(true)),
            (Name("c".to_string()), node(true)),
        ],
        schema: 0,
    };
    assert!(hive.force_always_local(vec!["a".to_string(), "c".to_string()]).is_ok());
    let flags: Vec<bool> = hive.nodes.iter().map(|(_, n)| n.build_remotely).collect();
    assert_eq!(flags, vec![false, true, false]);
}

#[test]
fn forcing_a_missing_node_fails_after_the_earlier_ones() {
    let mut hive = Hive {
        nodes: vec![(Name("a".to_string()), node(true)), (Name("b".to_string()), node(true))],
        schema: 0,
    };
    let res = hive.force_always_local(vec!["a".to_string(), "zz".to_string(), "b".to_string()]);
    assert!(matches!(res, Err(ForceLocalError::NodeDoesNotExist(n)) if n == "zz"));
    let flags: Vec<bool> = hive.nodes.iter().map(|(_, n)| n.build_remotely).collect();
    assert_eq!(flags, vec![false, true]);
}

#[test]
fn the_search_for_a_hive_prefers_hive_nix() {
    assert!(matches!(search_hive_in("/a/b", true, true), HiveSearch::Found(p) if p == "/a/b/hive.nix"));
    assert!(matches!(search_hive_in("/a/b", false, true), HiveSearch::Found(p) if p == "/a/b/flake.nix"));
    assert!(matches!(search_hive_in("/a/b", false, false), HiveSearch::Parent(p) if p == "/a"));
    assert!(matches!(search_hive_in("/", false, false), HiveSearch::NotFound));
}
