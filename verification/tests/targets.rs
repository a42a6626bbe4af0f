use nat_greeter::program::{ClientAction, ClientRun, ClientStage};
use nat_greeter::quic::Profile;
use nat_greeter::target::{CmdOptions, TargetError, UriParts};

fn options(target: &str) -> CmdOptions {
    CmdOptions { target: target.to_string() }
}

fn https(authority: &str, path_and_query: &str) -> Result<UriParts, TargetError> {
    Ok(UriParts {
        scheme: Some("https".to_string()),
        authority: Some(authority.to_string()),
        path_and_query: Some(path_and_query.to_string()),
    })
}

#[test]
fn default_target_is_the_local_server() {
    let options = CmdOptions::default();
    assert_eq!(options.target, "127.0.0.1:5047");
    assert_eq!(options.server_uri_text(), "https://127.0.0.1:5047");
    assert_eq!(options.server_uri(), https("127.0.0.1:5047", "/"));
}

#[test]
fn host_and_port_are_the_authority() {
    assert_eq!(options("example.com").server_uri(), https("example.com", "/"));
    assert_eq!(options("a-b.example.com:443").server_uri(), https("a-b.example.com:443", "/"));
    assert_eq!(options("EXAMPLE.com:").server_uri(), https("EXAMPLE.com:", "/"));
    assert_eq!(options(":").server_uri(), https(":", "/"));
    assert_eq!(options("[::1]:5047").server_uri(), https("[::1]:5047", "/"));
    assert_eq!(options("user@host:1").server_uri(), https("user@host:1", "/"));
}

#[test]
fn the_authority_ends_at_the_path_the_query_and_the_fragment() {
    assert_eq!(options("h:1/a/b?c=d").server_uri(), https("h:1", "/a/b?c=d"));
    assert_eq!(options("h?c=d").server_uri(), https("h", "?c=d"));
    assert_eq!(options("h#top").server_uri(), https("h", "/"));
    assert_eq!(options("h/a?b#c?d/e").server_uri(), https("h", "/a?b"));
    assert_eq!(options("h/a#b#c").server_uri(), https("h", "/a"));
    assert_eq!(options("h/\u{e9}?\u{e9}#\u{e9}").server_uri(), https("h", "/\u{e9}?\u{e9}"));
}

#[test]
fn targets_that_make_no_uri() {
    for target in ["", "/", "?", "#", "/path", "a:1:2", "a b", "\u{e9}", "[::1", "a@", "a%"] {
        assert_eq!(options(target).server_uri(), Err(TargetError::InvalidUri), "{target}");
    }
}

#[test]
fn the_longest_target() {
    let longest = "a".repeat(65526);
    assert_eq!(options(&longest).server_uri(), https(&longest, "/"));
    let longer = "a".repeat(65527);
    assert_eq!(options(&longer).server_uri(), Err(TargetError::InvalidUri));
}

#[test]
fn every_host_character_is_accepted() {
    let mut host = String::new();
    for c in ('a'..='z').chain('A'..='Z').chain('0'..='9').chain(['.', '-']) {
        host.push(c);
        assert_eq!(options(&c.to_string()).server_uri(), https(&c.to_string(), "/"));
    }
    assert_eq!(options(&host).server_uri(), https(&host, "/"));
}

#[test]
fn different_targets_have_different_uris() {
    assert_ne!(options("a").server_uri_text(), options("b").server_uri_text());
    assert_eq!(options("").server_uri_text(), "https://");
}

#[test]
fn a_client_starts_with_its_uri() {
    let (run, uri, action) = ClientRun::start_public_ip(&options("example.com:7")).unwrap();
    assert_eq!(run, ClientRun { public_ip: true, stage: ClientStage::MakingConfiguration });
    assert_eq!(Ok(uri), https("example.com:7", "/"));
    assert_eq!(action, ClientAction::MakeConfiguration(Profile::ClientPublicIp));

    let (run, uri, action) = ClientRun::start_plain();
    assert!(!run.public_ip);
    assert_eq!(Ok(uri), https("127.0.0.1:5047", "/"));
    assert_eq!(action, ClientAction::MakeConfiguration(Profile::Client));

    assert_eq!(ClientRun::start_public_ip(&options("a b")), Err(TargetError::InvalidUri));
}
