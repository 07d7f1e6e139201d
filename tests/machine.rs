use ssher::forms::{AddField, ScpDirection, ScpField};
use ssher::keys::{KeyCode, KeyInput};
use ssher::machine::{
    Effect, finish_add_session, finish_delete, finish_scp, handle_key, scp_args,
};
use ssher::model::Session;
use ssher::state::{AppState, InputMode};

fn session(name: &str, host: &str, user: &str) -> Session {
    Session {
        name: name.to_string(),
        host: host.to_string(),
        user: user.to_string(),
        port: 22,
        identity_file: None,
        tags: Vec::new(),
        last_connected_at: None,
    }
}

fn catalog() -> Vec<Session> {
    let office = session("office", "office.example.com", "me");
    let mut prod = session("prod", "prod.example.com", "deploy");
    prod.tags = vec!["critical".to_string()];
    vec![office, prod]
}

fn key(code: KeyCode) -> KeyInput {
    KeyInput::plain(code)
}

fn ch(c: char) -> KeyInput {
    KeyInput::plain(KeyCode::Char(c))
}

fn press(app: &mut AppState, k: KeyInput) -> Effect {
    handle_key(app, k, &Some("me".to_string()))
}

fn type_text(app: &mut AppState, text: &str) {
    for c in text.chars() {
        assert!(matches!(press(app, ch(c)), Effect::Continue));
    }
}

#[test]
fn chord_other_key_clears_marker() {
    let mut app = AppState::new(&catalog());
    press(&mut app, ch('d'));
    assert_eq!(app.pending(), Some('d'));
    press(&mut app, ch('j'));
    assert_eq!(app.pending(), None);
    assert_eq!(app.mode(), InputMode::Normal);
    press(&mut app, ch('d'));
    assert_eq!(app.mode(), InputMode::Normal);
}

#[test]
fn chord_twice_fires_once() {
    let mut app = AppState::new(&catalog());
    press(&mut app, ch('d'));
    press(&mut app, ch('d'));
    assert_eq!(app.mode(), InputMode::ConfirmDelete);
    assert_eq!(app.delete_target(), Some("office"));
    assert_eq!(app.status(), "Type session name to confirm deletion");
}

#[test]
fn chord_gg_goes_to_top() {
    let mut app = AppState::new(&catalog());
    press(&mut app, ch('G'));
    assert_eq!(app.selected_index(), Some(1));
    press(&mut app, ch('g'));
    assert_eq!(app.selected_index(), Some(1));
    press(&mut app, ch('g'));
    assert_eq!(app.selected_index(), Some(0));
    assert_eq!(app.pending(), None);
}

#[test]
fn chord_other_leader_replaces_marker() {
    let mut app = AppState::new(&catalog());
    press(&mut app, ch('d'));
    press(&mut app, ch('g'));
    assert_eq!(app.pending(), Some('g'));
    press(&mut app, ch('d'));
    assert_eq!(app.mode(), InputMode::Normal);
    assert_eq!(app.pending(), Some('d'));
}

#[test]
fn confirm_delete_exact_name() {
    let mut app = AppState::new(&catalog());
    app.move_next();
    press(&mut app, ch('d'));
    press(&mut app, ch('d'));
    assert_eq!(app.delete_target(), Some("prod"));
    type_text(&mut app, "pro");
    assert!(!app.confirm_delete_matches());
    assert!(matches!(press(&mut app, key(KeyCode::Enter)), Effect::Continue));
    assert_eq!(app.status(), "Delete confirmation does not match session name");
    type_text(&mut app, "d2");
    assert!(!app.confirm_delete_matches());
    press(&mut app, key(KeyCode::Backspace));
    assert_eq!(app.delete_input(), "prod");
    assert!(app.confirm_delete_matches());
    match press(&mut app, key(KeyCode::Enter)) {
        Effect::RemoveSession(name) => assert_eq!(name, "prod"),
        _ => panic!("expected a removal"),
    }
    finish_delete(&mut app, "prod", Ok(()));
    assert_eq!(app.mode(), InputMode::Normal);
    assert_eq!(app.status(), "Deleted session: prod");
    assert_eq!(app.filtered_sessions().len(), 1);
    assert_eq!(app.selected_index(), Some(0));
}

#[test]
fn confirm_delete_escape_discards() {
    let mut app = AppState::new(&catalog());
    press(&mut app, ch('d'));
    press(&mut app, ch('d'));
    type_text(&mut app, "off");
    press(&mut app, key(KeyCode::Esc));
    assert_eq!(app.mode(), InputMode::Normal);
    assert_eq!(app.delete_target(), None);
    assert_eq!(app.delete_input(), "");
    assert_eq!(app.status(), "");
}

#[test]
fn delete_refused_by_store_closes_with_message() {
    let mut app = AppState::new(&catalog());
    press(&mut app, ch('d'));
    press(&mut app, ch('d'));
    finish_delete(&mut app, "office", Err("session 'office' not found".to_string()));
    assert_eq!(app.mode(), InputMode::Normal);
    assert_eq!(app.status(), "Failed to delete session: session 'office' not found");
    assert_eq!(app.filtered_sessions().len(), 2);
}

#[test]
fn add_form_field_cycle_wraps() {
    assert_eq!(AddField::Tags.next(), AddField::Name);
    assert_eq!(AddField::Name.prev(), AddField::Tags);
    let mut app = AppState::new(&catalog());
    press(&mut app, ch('a'));
    assert_eq!(app.mode(), InputMode::AddSession);
    assert_eq!(app.add_form().unwrap().field(), AddField::Name);
    press(&mut app, key(KeyCode::BackTab));
    assert_eq!(app.add_form().unwrap().field(), AddField::Tags);
    press(&mut app, key(KeyCode::Tab));
    assert_eq!(app.add_form().unwrap().field(), AddField::Name);
    press(&mut app, key(KeyCode::Up));
    assert_eq!(app.add_form().unwrap().field(), AddField::Tags);
    press(&mut app, key(KeyCode::Down));
    assert_eq!(app.add_form().unwrap().field(), AddField::Name);
}

#[test]
fn add_form_starts_with_user_and_port() {
    let mut app = AppState::new(&catalog());
    press(&mut app, ch('o'));
    let form = app.add_form().unwrap();
    assert_eq!(form.user, "me");
    assert_eq!(form.port, "22");
    assert_eq!(form.name, "");
    assert_eq!(app.status(), "Add session: Enter/Tab/Up/Down move fields, Esc cancel");
}

#[test]
fn add_form_requires_name_host_user() {
    let mut app = AppState::new(&catalog());
    press(&mut app, ch('a'));
    // Name stays empty; fill Host and User.
    press(&mut app, key(KeyCode::Tab));
    type_text(&mut app, "h");
    press(&mut app, key(KeyCode::Tab));
    for _ in 0..2 {
        press(&mut app, key(KeyCode::Backspace));
    }
    type_text(&mut app, "u");
    for _ in 0..3 {
        press(&mut app, key(KeyCode::Tab));
    }
    assert_eq!(app.add_form().unwrap().field(), AddField::Tags);
    assert!(matches!(press(&mut app, key(KeyCode::Enter)), Effect::Continue));
    assert_eq!(app.mode(), InputMode::AddSession);
    assert_eq!(app.status(), "Name, host, and user are required");
}

#[test]
fn add_form_rejects_bad_port() {
    let mut app = AppState::new(&catalog());
    press(&mut app, ch('a'));
    type_text(&mut app, "lab");
    press(&mut app, key(KeyCode::Enter));
    type_text(&mut app, "lab.example.com");
    press(&mut app, key(KeyCode::Enter));
    press(&mut app, key(KeyCode::Enter));
    type_text(&mut app, "99999");
    press(&mut app, key(KeyCode::Enter));
    press(&mut app, key(KeyCode::Enter));
    assert_eq!(app.add_form().unwrap().field(), AddField::Tags);
    assert!(matches!(press(&mut app, key(KeyCode::Enter)), Effect::Continue));
    assert_eq!(app.status(), "Port must be a valid number");
    assert_eq!(app.mode(), InputMode::AddSession);
}

#[test]
fn add_form_submits_session() {
    let mut app = AppState::new(&catalog());
    press(&mut app, ch('a'));
    type_text(&mut app, " lab ");
    press(&mut app, key(KeyCode::Tab));
    type_text(&mut app, "lab.example.com");
    press(&mut app, key(KeyCode::Tab));
    press(&mut app, key(KeyCode::Tab));
    press(&mut app, key(KeyCode::Backspace));
    press(&mut app, key(KeyCode::Backspace));
    press(&mut app, key(KeyCode::Tab));
    match press(&mut app, ch('~')) {
        Effect::LookupIdentity(path) => assert_eq!(path, "~"),
        _ => panic!("expected a lookup"),
    }
    press(&mut app, key(KeyCode::Tab));
    type_text(&mut app, "x, y ,,x");
    let added = match press(&mut app, key(KeyCode::Enter)) {
        Effect::AddSession(s) => s,
        _ => panic!("expected an add"),
    };
    assert_eq!(added.name, "lab");
    assert_eq!(added.user, "me");
    assert_eq!(added.port, 22);
    assert_eq!(added.identity_file, Some("~".to_string()));
    assert_eq!(added.tags, vec!["x", "y", "x"]);
    assert_eq!(added.last_connected_at, None);
    finish_add_session(&mut app, added.clone(), Err("session 'lab' already exists".to_string()));
    assert_eq!(app.mode(), InputMode::AddSession);
    assert_eq!(app.status(), "Failed to add session: session 'lab' already exists");
    finish_add_session(&mut app, added, Ok(()));
    assert_eq!(app.mode(), InputMode::Normal);
    assert_eq!(app.status(), "Added session: lab");
    assert_eq!(app.filtered_sessions().len(), 3);
}

#[test]
fn scp_needs_a_selection() {
    let mut app = AppState::new(&[]);
    press(&mut app, ch('s'));
    assert_eq!(app.mode(), InputMode::Normal);
    assert_eq!(app.status(), "No session selected for SCP");
}

#[test]
fn scp_upload_arguments() {
    let s = session("prod", "prod.example.com", "deploy");
    let args = scp_args(&s, "/tmp/a", "/r/a", ScpDirection::To, false);
    assert_eq!(args, vec!["-P", "22", "/tmp/a", "deploy@prod.example.com:/r/a"]);
    assert!(!args.iter().any(|a| a == "-r"));
}

#[test]
fn scp_download_recursive_with_identity() {
    let mut s = session("lab", "lab.example.com", "tester");
    s.identity_file = Some("/k".to_string());
    s.port = 2222;
    let args = scp_args(&s, "/tmp/d", "/r/d", ScpDirection::From, true);
    assert_eq!(
        args,
        vec!["-r", "-i", "/k", "-P", "2222", "tester@lab.example.com:/r/d", "/tmp/d"]
    );
}

#[test]
fn scp_form_flow() {
    let mut app = AppState::new(&catalog());
    app.move_next();
    press(&mut app, ch('s'));
    assert_eq!(app.mode(), InputMode::Scp);
    assert_eq!(app.scp_form().unwrap().field(), ScpField::Local);
    type_text(&mut app, "/tmp/a");
    press(&mut app, key(KeyCode::Enter));
    type_text(&mut app, "/r/a");
    press(&mut app, key(KeyCode::Enter));
    assert_eq!(app.scp_form().unwrap().field(), ScpField::Recursive);
    press(&mut app, ch(' '));
    assert!(app.scp_form().unwrap().recursive);
    press(&mut app, ch('r'));
    assert!(!app.scp_form().unwrap().recursive);
    press(&mut app, key(KeyCode::Tab));
    assert_eq!(app.scp_form().unwrap().field(), ScpField::Direction);
    press(&mut app, ch('t'));
    assert_eq!(app.scp_form().unwrap().direction, ScpDirection::From);
    press(&mut app, key(KeyCode::Left));
    assert_eq!(app.scp_form().unwrap().direction, ScpDirection::To);
    press(&mut app, key(KeyCode::BackTab));
    let request = match press(&mut app, key(KeyCode::Enter)) {
        Effect::RunScp(r) => r,
        _ => panic!("expected an scp run"),
    };
    assert_eq!(request.session_name, "prod");
    assert_eq!(request.args, vec!["-P", "22", "/tmp/a", "deploy@prod.example.com:/r/a"]);
    finish_scp(&mut app, Err("exit status: 1".to_string()));
    assert_eq!(app.mode(), InputMode::Scp);
    assert_eq!(app.status(), "scp exited with status exit status: 1");
    finish_scp(&mut app, Ok(()));
    assert_eq!(app.mode(), InputMode::Normal);
    assert_eq!(app.status(), "SCP complete: prod");
}

#[test]
fn scp_requires_both_paths() {
    let mut app = AppState::new(&catalog());
    press(&mut app, ch('s'));
    type_text(&mut app, "  ");
    press(&mut app, key(KeyCode::Tab));
    type_text(&mut app, "/r");
    press(&mut app, key(KeyCode::Tab));
    assert!(matches!(press(&mut app, key(KeyCode::Enter)), Effect::Continue));
    assert_eq!(app.status(), "Local and remote paths are required");
    assert_eq!(app.mode(), InputMode::Scp);
}

#[test]
fn search_mode_types_and_returns() {
    let mut app = AppState::new(&catalog());
    press(&mut app, ch('/'));
    assert_eq!(app.mode(), InputMode::Search);
    type_text(&mut app, "critical");
    assert_eq!(app.filter(), "critical");
    assert_eq!(app.filtered_sessions().len(), 1);
    assert_eq!(app.selected_session().unwrap().name, "prod");
    press(&mut app, key(KeyCode::Enter));
    assert_eq!(app.mode(), InputMode::Normal);
    assert_eq!(app.filter(), "critical");
    press(&mut app, ch('/'));
    assert_eq!(app.filter(), "");
    assert_eq!(app.filtered_sessions().len(), 2);
}

#[test]
fn interrupt_exits_from_any_mode() {
    let mut app = AppState::new(&catalog());
    press(&mut app, ch('a'));
    type_text(&mut app, "draft");
    assert!(matches!(press(&mut app, KeyInput::ctrl('c')), Effect::Exit(None)));
}

#[test]
fn enter_connects_to_selection() {
    let mut app = AppState::new(&catalog());
    app.move_next();
    match press(&mut app, key(KeyCode::Enter)) {
        Effect::Exit(Some(s)) => assert_eq!(s.name, "prod"),
        _ => panic!("expected a connection"),
    }
    assert!(matches!(press(&mut app, ch('q')), Effect::Exit(None)));
}

#[test]
fn paging_wraps_around() {
    let sessions: Vec<Session> = (0..3).map(|i| session(&format!("s{}", i), "h", "u")).collect();
    let mut app = AppState::new(&sessions);
    press(&mut app, KeyInput::ctrl('d'));
    assert_eq!(app.selected_index(), Some(2));
    press(&mut app, KeyInput::ctrl('u'));
    assert_eq!(app.selected_index(), Some(0));
    press(&mut app, key(KeyCode::Up));
    assert_eq!(app.selected_index(), Some(2));
    press(&mut app, ch('j'));
    assert_eq!(app.selected_index(), Some(0));
}

#[test]
fn cursor_resets_when_view_shrinks() {
    let mut app = AppState::new(&catalog());
    app.select_last();
    assert_eq!(app.selected_index(), Some(1));
    app.on_char('o');
    app.on_char('f');
    assert_eq!(app.selected_index(), Some(0));
    app.on_char('z');
    assert_eq!(app.selected_index(), None);
    assert!(app.selected_session().is_none());
    app.backspace();
    assert_eq!(app.selected_index(), Some(0));
}

#[test]
fn monitor_refresh_throttle() {
    let mut app = AppState::new(&catalog());
    assert!(app.monitor_should_refresh(5_000, 1_000));
    app.update_monitor(Vec::new(), 5_000);
    assert!(!app.monitor_should_refresh(5_000, 1_000));
    assert!(!app.monitor_should_refresh(5_999, 1_000));
    assert!(app.monitor_should_refresh(6_000, 1_000));
    press(&mut app, ch('m'));
    assert!(app.monitor_enabled());
}
