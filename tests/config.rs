use party_bot::config::{join_path, Cli, Config};

fn cli(data: &str) -> Cli {
    Cli {
        homeserver_url: "https://matrix.example.org".to_string(),
        username: "bot".to_string(),
        password: "hunter2".to_string(),
        client_data_path: data.to_string(),
        default_federation_invite_code: "fed11abc".to_string(),
    }
}

#[test]
fn paths_are_derived_from_data_dir() {
    let c = Config::from_cli(cli("/var/lib/bot"));
    assert_eq!(c.multimint_path, "/var/lib/bot/multimint");
    assert_eq!(c.session_file, "/var/lib/bot/matrix/session.json");
    assert_eq!(c.data_dir, "/var/lib/bot");
    assert_eq!(c.homeserver_url, "https://matrix.example.org");
    assert_eq!(c.username, "bot");
    assert_eq!(c.password, "hunter2");
    assert_eq!(c.default_federation_invite_code, "fed11abc");
}

#[test]
fn trailing_separator_is_not_doubled() {
    let c = Config::from_cli(cli("data/"));
    assert_eq!(c.multimint_path, "data/multimint");
    assert_eq!(c.session_file, "data/matrix/session.json");
}

#[test]
fn join_onto_empty_base() {
    assert_eq!(join_path("", "matrix"), "matrix");
    assert_eq!(join_path("a", "b"), "a/b");
    assert_eq!(join_path("/", "b"), "/b");
}
