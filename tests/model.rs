use ssher::model::{Session, normalize_tags, split_tags};

#[test]
fn target_formats_user_at_host() {
    let session = Session {
        name: "test".to_string(),
        host: "example.com".to_string(),
        user: "alice".to_string(),
        port: 22,
        identity_file: None,
        tags: vec![],
        last_connected_at: None,
    };
    assert_eq!(session.target(), "alice@example.com");
}

#[test]
fn clone_keeps_every_field() {
    let s = Session {
        name: "n".to_string(),
        host: "h".to_string(),
        user: "u".to_string(),
        port: 2222,
        identity_file: Some("/k".to_string()),
        tags: vec!["a".to_string(), "b".to_string()],
        last_connected_at: Some(999),
    };
    assert_eq!(s.clone(), s);
}

#[test]
fn split_tags_trims_and_drops_empty() {
    assert_eq!(split_tags(" a , ,b,a ,"), vec!["a", "b", "a"]);
    assert!(split_tags("").is_empty());
    assert!(split_tags(" , ").is_empty());
}

#[test]
fn normalize_tags_keeps_order() {
    let tags = vec![" prod ".to_string(), "".to_string(), "critical".to_string()];
    assert_eq!(normalize_tags(tags), vec!["prod", "critical"]);
}
