use ssher::filter::{fields_match, filter_sessions, session_matches};
use ssher::model::Session;

fn session(name: &str, host: &str, user: &str, identity: Option<&str>) -> Session {
    Session {
        name: name.to_string(),
        host: host.to_string(),
        user: user.to_string(),
        port: 22,
        identity_file: identity.map(|p| p.to_string()),
        tags: Vec::new(),
        last_connected_at: None,
    }
}

#[test]
fn filter_matches_name_host_user() {
    let sessions = vec![
        session("office", "office.example.com", "me", None),
        session("prod", "prod.example.com", "deploy", None),
    ];
    assert_eq!(filter_sessions(&sessions, "office"), vec![0]);
    assert_eq!(filter_sessions(&sessions, "deploy"), vec![1]);
    assert_eq!(filter_sessions(&sessions, "example"), vec![0, 1]);
}

#[test]
fn filter_matches_identity_path() {
    let sessions = vec![
        session(
            "office",
            "office.example.com",
            "me",
            Some("/home/me/.ssh/id_rsa"),
        ),
        session("lab", "lab.example.com", "me", None),
    ];
    assert_eq!(filter_sessions(&sessions, "id_rsa"), vec![0]);
}

#[test]
fn filter_matches_tags() {
    let mut tagged = session("office", "office.example.com", "me", None);
    tagged.tags = vec!["prod".to_string(), "critical".to_string()];
    let sessions = vec![tagged, session("lab", "lab.example.com", "me", None)];
    assert_eq!(filter_sessions(&sessions, "critical"), vec![0]);
}

#[test]
fn empty_filter_returns_all_indices() {
    let sessions = vec![
        session("office", "office.example.com", "me", None),
        session("prod", "prod.example.com", "deploy", None),
    ];
    assert_eq!(filter_sessions(&sessions, ""), vec![0, 1]);
}

#[test]
fn whitespace_filter_returns_all_indices() {
    let sessions = vec![
        session("office", "office.example.com", "me", None),
        session("prod", "prod.example.com", "deploy", None),
    ];
    assert_eq!(filter_sessions(&sessions, "   "), vec![0, 1]);
    assert_eq!(filter_sessions(&sessions, "\t"), vec![0, 1]);
}

#[test]
fn filter_no_matches_returns_empty() {
    let sessions = vec![
        session("office", "office.example.com", "me", None),
        session("prod", "prod.example.com", "deploy", None),
    ];
    assert!(filter_sessions(&sessions, "nonexistent").is_empty());
}

#[test]
fn filter_case_insensitive() {
    let sessions = vec![session("Office", "office.example.com", "Me", None)];
    assert_eq!(filter_sessions(&sessions, "OFFICE"), vec![0]);
    assert_eq!(filter_sessions(&sessions, "office"), vec![0]);
    assert_eq!(filter_sessions(&sessions, "Me"), vec![0]);
    assert_eq!(filter_sessions(&sessions, "ME"), vec![0]);
}

#[test]
fn filter_unicode_characters() {
    let sessions = vec![session("сервер", "пример.ком", "пользователь", None)];
    assert_eq!(filter_sessions(&sessions, "сервер"), vec![0]);
    assert_eq!(filter_sessions(&sessions, "пример"), vec![0]);
}

#[test]
fn filter_empty_sessions_list() {
    let sessions: Vec<Session> = vec![];
    assert!(filter_sessions(&sessions, "anything").is_empty());
    assert!(filter_sessions(&sessions, "").is_empty());
}

#[test]
fn filter_special_characters_in_identity() {
    let mut s = session(
        "office",
        "office.example.com",
        "me",
        Some("/home/user/.ssh/id-ed25519"),
    );
    s.tags = vec!["key-2024".to_string()];
    let sessions = vec![s];
    assert_eq!(filter_sessions(&sessions, "ed25519"), vec![0]);
    assert_eq!(filter_sessions(&sessions, "2024"), vec![0]);
}

#[test]
fn filter_unicode_case_folding() {
    let sessions = vec![session("Сервер", "host", "user", None)];
    assert_eq!(filter_sessions(&sessions, "СЕРВЕР"), vec![0]);
}

#[test]
fn filter_critical_tag_scenario() {
    let office = session("office", "office.example.com", "me", None);
    let mut prod = session("prod", "prod.example.com", "deploy", None);
    prod.tags = vec!["critical".to_string()];
    let sessions = vec![office, prod];
    assert_eq!(filter_sessions(&sessions, "critical"), vec![1]);
}

#[test]
fn filter_result_is_increasing_and_in_range() {
    let sessions = vec![
        session("a-web", "a.example.com", "me", None),
        session("db", "db.internal", "me", None),
        session("b-web", "b.example.com", "me", None),
        session("c-web", "c.example.com", "me", None),
    ];
    let r = filter_sessions(&sessions, "web");
    assert_eq!(r, vec![0, 2, 3]);
    assert!(r.windows(2).all(|w| w[0] < w[1]));
    assert!(r.iter().all(|&i| i < sessions.len()));
}

#[test]
fn filter_again_keeps_the_whole_view() {
    let sessions = vec![
        session("a-web", "a.example.com", "me", None),
        session("db", "db.internal", "me", None),
        session("b-web", "b.example.com", "me", None),
    ];
    let first = filter_sessions(&sessions, "WEB");
    let view: Vec<Session> = first.iter().map(|&i| sessions[i].clone()).collect();
    let second = filter_sessions(&view, "WEB");
    assert_eq!(second, (0..view.len()).collect::<Vec<usize>>());
}

#[test]
fn session_matches_lowercases_fields_not_needle() {
    let s = session("Office", "h", "u", None);
    assert!(session_matches(&s, "office"));
    assert!(!session_matches(&s, "OFFICE"));
}

#[test]
fn fields_match_stops_on_any_field() {
    let folded = vec!["alpha".to_string(), "beta".to_string()];
    assert!(fields_match(&folded, "eta"));
    assert!(!fields_match(&folded, "gamma"));
    assert!(fields_match(&folded, ""));
    assert!(!fields_match(&Vec::new(), ""));
}
