use wire::keys::{
    decode_key_content, digest_matches, frame_key, get_u32_permission, key_agent_variable, key_spec_for,
    keys_to_upload, mark_last, pretty_keyspec, Key, KeyError, KeySpec, Source, UploadKeyAt,
};

fn key(permissions: &str, upload_at: UploadKeyAt) -> Key {
    Key {
        name: "secret".to_string(),
        dest_dir: "/run/keys/".to_string(),
        path: "/run/keys/secret".to_string(),
        group: "root".to_string(),
        user: "root".to_string(),
        permissions: permissions.to_string(),
        source: Source::String("hello".to_string()),
        upload_at,
        environment: im::HashMap::new(),
    }
}

#[test]
fn permissions_are_octal() {
    assert_eq!(get_u32_permission(&key("0600", UploadKeyAt::NoFilter)), Some(384));
    assert_eq!(get_u32_permission(&key("644", UploadKeyAt::NoFilter)), Some(420));
    assert_eq!(get_u32_permission(&key("0800", UploadKeyAt::NoFilter)), None);
    assert_eq!(get_u32_permission(&key("", UploadKeyAt::NoFilter)), None);
    assert_eq!(get_u32_permission(&key("rw-r--r--", UploadKeyAt::NoFilter)), None);
}

#[test]
fn spec_of_a_key() {
    let content = b"hello".to_vec();
    let spec = key_spec_for(&key("0600", UploadKeyAt::NoFilter), &content).unwrap();
    assert_eq!(spec.destination, "/run/keys/secret");
    assert_eq!(spec.user, "root");
    assert_eq!(spec.group, "root");
    assert_eq!(spec.permissions, 384);
    assert_eq!(spec.length, 5);
    assert!(!spec.last);
    let hex: String = spec.digest.iter().map(|b| format!("{b:02x}")).collect();
    assert_eq!(hex, "2cf24dba5fb0a30e26e83b2ac5b9e29e1b161e5c1fa7425e73043362938b9824");
    assert!(digest_matches(&spec.digest, &content));
    assert!(!digest_matches(&spec.digest, b"hellO"));
    assert_eq!(pretty_keyspec(&spec), "/run/keys/secret root:root 384");
}

#[test]
fn bad_permissions_are_refused() {
    let res = key_spec_for(&key("u=rw", UploadKeyAt::NoFilter), &b"x".to_vec());
    assert!(matches!(res, Err(KeyError::ParseKeyPermissions(p)) if p == "u=rw"));
}

#[test]
fn keys_by_moment() {
    let keys = vec![
        key("600", UploadKeyAt::PreActivation),
        key("600", UploadKeyAt::PostActivation),
        key("600", UploadKeyAt::NoFilter),
        key("600", UploadKeyAt::PreActivation),
    ];
    assert_eq!(keys_to_upload(&keys, UploadKeyAt::NoFilter), vec![0, 1, 2, 3]);
    assert_eq!(keys_to_upload(&keys, UploadKeyAt::PreActivation), vec![1, 2]);
    assert_eq!(keys_to_upload(&keys, UploadKeyAt::PostActivation), vec![0, 2, 3]);
}

fn spec(destination: &str) -> KeySpec {
    KeySpec {
        destination: destination.to_string(),
        user: "u".to_string(),
        group: "g".to_string(),
        permissions: 0,
        length: 0,
        digest: vec![],
        last: false,
    }
}

#[test]
fn only_the_last_key_is_marked() {
    let mut specs = vec![spec("a"), spec("b"), spec("c")];
    mark_last(&mut specs);
    let last: Vec<bool> = specs.iter().map(|s| s.last).collect();
    assert_eq!(last, vec![false, false, true]);
    let mut none: Vec<KeySpec> = vec![];
    mark_last(&mut none);
    assert!(none.is_empty());
}

#[test]
fn frames_carry_base64() {
    let frames = frame_key(b"ab", b"hello").unwrap();
    let mut expected = vec![0, 0, 0, 4];
    expected.extend_from_slice(b"YWI=");
    expected.extend_from_slice(&[0, 0, 0, 8]);
    expected.extend_from_slice(b"aGVsbG8=");
    assert_eq!(frames, expected);
    assert_eq!(decode_key_content(b"aGVsbG8="), Some(b"hello".to_vec()));
    assert_eq!(decode_key_content(b"not base64!"), None);
}

#[test]
fn key_agent_variables() {
    assert_eq!(key_agent_variable("x86_64-linux"), "WIRE_KEY_AGENT_x86_64_linux");
    assert_eq!(key_agent_variable("aarch64-darwin"), "WIRE_KEY_AGENT_aarch64_darwin");
}
