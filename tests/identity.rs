use ssher::identity::{expand_tilde, identity_query, identity_suggestions};

#[test]
fn tilde_expands_with_home() {
    assert_eq!(expand_tilde("~/.ssh/id", Some("/home/me")), "/home/me/.ssh/id");
    assert_eq!(expand_tilde("~/.ssh/id", None), "~/.ssh/id");
    assert_eq!(expand_tilde("/etc/x", Some("/home/me")), "/etc/x");
    assert_eq!(expand_tilde("~x", Some("/home/me")), "~x");
}

#[test]
fn query_splits_directory_and_prefix() {
    let q = identity_query("  ~/.ssh/id_ ", Some("/home/me")).unwrap();
    assert_eq!(q.expanded, "/home/me/.ssh/id_");
    assert_eq!(q.dir, "/home/me/.ssh/");
    assert_eq!(q.prefix, "id_");
    let q = identity_query("/home/me/.ssh/", None).unwrap();
    assert_eq!(q.dir, "/home/me/.ssh/");
    assert_eq!(q.prefix, "");
    let q = identity_query("key", None).unwrap();
    assert_eq!(q.dir, "");
    assert_eq!(q.prefix, "key");
    assert!(identity_query("   ", None).is_none());
}

#[test]
fn suggestions_filter_join_and_sort() {
    let names = vec![
        "id_rsa.pub".to_string(),
        "known_hosts".to_string(),
        "id_ed25519".to_string(),
        "id_rsa".to_string(),
    ];
    assert_eq!(
        identity_suggestions("/k/", "id_", &names),
        vec!["/k/id_ed25519", "/k/id_rsa", "/k/id_rsa.pub"]
    );
    assert!(identity_suggestions("/k/", "zz", &names).is_empty());
}
