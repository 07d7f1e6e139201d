use ssher::display::{
    add_field_index, build_add_form_lines, build_scp_form_lines, field_line,
    format_last_connected, mode_help_text, scp_field_index, ssh_args,
};
use ssher::forms::{AddField, AddSessionForm, ScpField, ScpForm};
use ssher::model::Session;
use ssher::state::InputMode;

fn session() -> Session {
    Session {
        name: "prod".to_string(),
        host: "prod.example.com".to_string(),
        user: "deploy".to_string(),
        port: 2222,
        identity_file: None,
        tags: Vec::new(),
        last_connected_at: None,
    }
}

#[test]
fn field_line_pads_label() {
    assert_eq!(field_line("Name", "x", true), "> Name       x");
    assert_eq!(field_line("Identity", "", false), "  Identity   ");
    assert_eq!(field_line("VeryLongLabel", "v", false), "  VeryLongLabel v");
}

#[test]
fn field_indices() {
    assert_eq!(add_field_index(AddField::Name), 0);
    assert_eq!(add_field_index(AddField::Tags), 5);
    assert_eq!(scp_field_index(ScpField::Direction), 1);
    assert_eq!(scp_field_index(ScpField::Recursive), 4);
}

#[test]
fn help_text_per_mode() {
    assert_eq!(mode_help_text(InputMode::ConfirmDelete), "Type name | Enter confirm | Esc cancel");
    assert!(mode_help_text(InputMode::Normal).contains("dd delete"));
}

#[test]
fn add_form_lines_show_suggestions() {
    let mut form = AddSessionForm::new(Some("me".to_string()));
    form.set_identity_state(
        Some(false),
        vec!["/a".to_string(), "/b".to_string(), "/c".to_string(), "/d".to_string()],
    );
    let lines = build_add_form_lines(&form);
    assert_eq!(lines.len(), 11);
    assert_eq!(lines[0], "> Name       ");
    assert_eq!(lines[2], "  User       me");
    assert_eq!(lines[3], "  Port       22");
    assert_eq!(lines[6], "  Identity exists: missing");
    assert_eq!(lines[7], "  Suggestions:");
    assert_eq!(lines[10], "    /c");
}

#[test]
fn scp_form_lines() {
    let form = ScpForm::new(session());
    let lines = build_scp_form_lines(&form);
    assert_eq!(lines[0], "Session: prod (deploy@prod.example.com)");
    assert_eq!(lines[1], "  Direction  to (local -> remote)");
    assert_eq!(lines[2], "> Local      ");
    assert_eq!(lines[4], "  Recursive  no");
    assert_eq!(lines.len(), 6);
}

#[test]
fn last_connected_units() {
    assert_eq!(format_last_connected(None, 100), "-");
    assert_eq!(format_last_connected(Some(100), 159), "59s ago");
    assert_eq!(format_last_connected(Some(0), 3599), "59m ago");
    assert_eq!(format_last_connected(Some(0), 7200), "2h ago");
    assert_eq!(format_last_connected(Some(0), 86_400 * 3), "3d ago");
    assert_eq!(format_last_connected(Some(10), 5), "-5s ago");
}

#[test]
fn ssh_arguments() {
    let mut s = session();
    assert_eq!(ssh_args(&s), vec!["-p", "2222", "deploy@prod.example.com"]);
    s.identity_file = Some("/k".to_string());
    assert_eq!(ssh_args(&s), vec!["-i", "/k", "-p", "2222", "deploy@prod.example.com"]);
}
