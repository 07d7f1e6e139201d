use ssher::export::{escape_csv, export_to_csv, export_to_ssh_config};
use ssher::import::import_from_ssh_config;
use ssher::model::Session;

fn session(name: &str, host: &str, user: &str, port: u16) -> Session {
    Session {
        name: name.to_string(),
        host: host.to_string(),
        user: user.to_string(),
        port,
        identity_file: None,
        tags: Vec::new(),
        last_connected_at: None,
    }
}

#[test]
fn escape_csv_quotes_when_needed() {
    assert_eq!(escape_csv("plain"), "plain");
    assert_eq!(escape_csv("a,b"), "\"a,b\"");
    assert_eq!(escape_csv("say \"hi\""), "\"say \"\"hi\"\"\"");
    assert_eq!(escape_csv("two\nlines"), "\"two\nlines\"");
}

#[test]
fn csv_export_rows() {
    let mut s = session("office", "office.example.com", "bob", 2222);
    s.identity_file = Some("/k".to_string());
    s.tags = vec!["work".to_string(), "prod".to_string()];
    let csv = export_to_csv(&[s, session("lab,1", "lab", "me", 22)]);
    assert_eq!(
        csv,
        "name,host,user,port,identity_file,tags\noffice,office.example.com,bob,2222,/k,work;prod\n\"lab,1\",lab,me,22,,\n"
    );
}

#[test]
fn ssh_config_export_blocks() {
    let mut s = session("office", "office.example.com", "bob", 2222);
    s.identity_file = Some("/k".to_string());
    s.tags = vec!["work".to_string(), "prod".to_string()];
    let text = export_to_ssh_config(&[s]);
    assert_eq!(
        text,
        "# Generated by ssher\n\nHost office\n    HostName office.example.com\n    User bob\n    Port 2222\n    IdentityFile /k\n    # Tags: work, prod\n\n"
    );
}

#[test]
fn ssh_config_import() {
    let content = "# comment\nHost office\n    HostName office.example.com\n    User bob\n    Port 2222\n    IdentityFile ~/.ssh/id\n\nHost nohostname\n    User x\nHost lab\n  hostname lab.example.com\n  port nope\n";
    let sessions = import_from_ssh_config(content);
    assert_eq!(sessions.len(), 2);
    assert_eq!(sessions[0].name, "office");
    assert_eq!(sessions[0].host, "office.example.com");
    assert_eq!(sessions[0].user, "bob");
    assert_eq!(sessions[0].port, 2222);
    assert_eq!(sessions[0].identity_file, Some("~/.ssh/id".to_string()));
    assert_eq!(sessions[1].name, "lab");
    assert_eq!(sessions[1].host, "lab.example.com");
    assert_eq!(sessions[1].user, "root");
    assert_eq!(sessions[1].port, 22);
    assert_eq!(sessions[1].identity_file, None);
}

#[test]
fn ssh_config_round_trip() {
    let mut s = session("office", "office.example.com", "bob", 2222);
    s.identity_file = Some("/k".to_string());
    let back = import_from_ssh_config(&export_to_ssh_config(&[s.clone()]));
    assert_eq!(back, vec![s]);
}
