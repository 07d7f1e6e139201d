use ssher::model::Session;
use ssher::store::{
    MemoryStore, SessionStore, StoreError, apply_update, insert_session, remove_session,
    sort_by_name, split_conflicts, touch_session,
};

fn sample_session(name: &str) -> Session {
    Session {
        name: name.to_string(),
        host: "example.com".to_string(),
        user: "me".to_string(),
        port: 22,
        identity_file: None,
        tags: Vec::new(),
        last_connected_at: None,
    }
}

#[test]
fn add_and_remove_session() {
    let mut store = MemoryStore::new();
    store.add(sample_session("office")).expect("add");
    let list = store.list().expect("list");
    assert_eq!(list.len(), 1);
    assert_eq!(list[0].name, "office");
    store.remove("office").expect("remove");
    assert!(store.list().expect("list").is_empty());
}

#[test]
fn list_sorts_by_name() {
    let mut store = MemoryStore::new();
    store.add(sample_session("zeta")).expect("add");
    store.add(sample_session("alpha")).expect("add");
    let list = store.list().expect("list");
    assert_eq!(list[0].name, "alpha");
    assert_eq!(list[1].name, "zeta");
}

#[test]
fn touch_last_connected_updates_timestamp() {
    let mut store = MemoryStore::new();
    store.add(sample_session("office")).expect("add");
    store.touch_last_connected("office", 1234).expect("touch");
    assert_eq!(store.list().expect("list")[0].last_connected_at, Some(1234));
}

#[test]
fn mod_add_duplicate_name_fails() {
    let mut store = MemoryStore::new();
    store.add(sample_session("office")).expect("add");
    let result = store.add(sample_session("office"));
    assert!(result.is_err());
    let err = result.unwrap_err().message();
    assert!(err.contains("already exists"));
}

#[test]
fn remove_nonexistent_session_fails() {
    let mut store = MemoryStore::new();
    let result = store.remove("nonexistent");
    assert!(result.is_err());
    let err = result.unwrap_err().message();
    assert!(err.contains("not found"));
}

#[test]
fn touch_last_connected_nonexistent_fails() {
    let mut store = MemoryStore::new();
    let result = store.touch_last_connected("nonexistent", 1234);
    assert!(result.is_err());
    let err = result.unwrap_err().message();
    assert!(err.contains("not found"));
}

#[test]
fn insert_duplicate_name_fails() {
    let mut sessions = vec![sample_session("office")];
    let err = insert_session(&mut sessions, sample_session("office")).unwrap_err();
    assert_eq!(err, StoreError::AlreadyExists("office".to_string()));
    assert!(err.message().contains("already exists"));
    assert_eq!(err.message(), "session 'office' already exists");
    assert_eq!(sessions.len(), 1);
}

#[test]
fn remove_missing_fails() {
    let mut sessions = vec![sample_session("office")];
    let err = remove_session(&mut sessions, "nonexistent").unwrap_err();
    assert_eq!(err.message(), "session 'nonexistent' not found");
    assert_eq!(sessions.len(), 1);
}

#[test]
fn touch_missing_fails() {
    let mut sessions: Vec<Session> = Vec::new();
    let err = touch_session(&mut sessions, "nonexistent", 1234).unwrap_err();
    assert!(err.message().contains("not found"));
}

#[test]
fn sort_by_name_uses_byte_order() {
    let sessions = vec![
        sample_session("beta"),
        sample_session("Zed"),
        sample_session("alpha"),
        sample_session("été"),
    ];
    let names: Vec<String> = sort_by_name(&sessions).into_iter().map(|s| s.name).collect();
    assert_eq!(names, vec!["Zed", "alpha", "beta", "été"]);
}

#[test]
fn split_conflicts_by_existing_name() {
    let existing = vec![sample_session("office")];
    let imported = vec![sample_session("lab"), sample_session("office"), sample_session("db")];
    let (fresh, taken) = split_conflicts(&imported, &existing);
    let fresh: Vec<String> = fresh.into_iter().map(|s| s.name).collect();
    let taken: Vec<String> = taken.into_iter().map(|s| s.name).collect();
    assert_eq!(fresh, vec!["lab", "db"]);
    assert_eq!(taken, vec!["office"]);
}

#[test]
fn apply_update_replaces_given_fields() {
    let mut s = sample_session("office");
    s.tags = vec!["old".to_string()];
    s.last_connected_at = Some(5);
    let u = apply_update(s.clone(), None, Some("bob".to_string()), Some(2222), None, vec![]);
    assert_eq!(u.user, "bob");
    assert_eq!(u.port, 2222);
    assert_eq!(u.host, "example.com");
    assert_eq!(u.tags, vec!["old"]);
    assert_eq!(u.last_connected_at, Some(5));
    let u = apply_update(s, None, None, None, Some("/k".to_string()), vec![" a ".to_string(), "".to_string()]);
    assert_eq!(u.identity_file, Some("/k".to_string()));
    assert_eq!(u.tags, vec!["a"]);
}
