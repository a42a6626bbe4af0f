use nat_greeter::addr::SocketAddr;
use nat_greeter::program::{
    listen_addr, proxy_addr, ClientAction, ClientRun, ClientStage, Reply, ServerAction, ServerReply,
    ServerRun,
};
use nat_greeter::quic::{Credential, CredentialConfig, Profile, Settings};
use nat_greeter::setup::{
    credential_source, CertAdd, CredentialFile, KeySpec, Platform, ProviderType, Setup,
    SetupAction, SetupEvent, Stage,
};
use nat_greeter::trace::Outcome;

fn settings(server_migration_enabled: bool) -> Settings {
    Settings {
        idle_timeout_ms: 10000,
        peer_bidi_stream_count: 100,
        peer_unidi_stream_count: 100,
        datagram_receive_enabled: true,
        stream_multi_receive_enabled: true,
        server_migration_enabled,
    }
}

fn server() -> Profile {
    Profile::ServerBehindNat { addr: Some(listen_addr()) }
}

fn remove(path: &str) -> SetupAction {
    SetupAction::RemoveTempFile(path.to_string())
}

fn written(path: &str) -> SetupEvent {
    SetupEvent::Written(path.to_string())
}

/// Runs a setup over events that it must all accept.
fn actions(profile: Profile, platform: Platform, events: Vec<SetupEvent>) -> Vec<SetupAction> {
    let (mut setup, first) = Setup::start(profile, platform);
    let mut actions = vec![first];
    for event in events {
        actions.push(setup.step(event).unwrap());
    }
    actions
}

#[test]
fn settings_differ_in_migration_only() {
    assert_eq!(Profile::Client.settings(), settings(false));
    assert_eq!(Profile::ClientPublicIp.settings(), settings(true));
    assert_eq!(server().settings(), settings(true));
}

#[test]
fn plain_client_setup() {
    for platform in [Platform::Windows, Platform::Other] {
        let events = vec![SetupEvent::Done, SetupEvent::Done, SetupEvent::Done];
        assert_eq!(
            actions(Profile::Client, platform, events),
            vec![
                SetupAction::OpenRegistration,
                SetupAction::OpenConfiguration { alpn: "h3", settings: settings(false) },
                SetupAction::LoadCredential(CredentialConfig {
                    client: true,
                    no_certificate_validation: true,
                    credential: Credential::Anonymous,
                    ca_certificate_file: None,
                }),
                SetupAction::Return(Outcome::Completed),
            ],
        );
    }
}

#[test]
fn public_ip_client_setup_with_files() {
    let events = vec![
        SetupEvent::Done,
        SetupEvent::Done,
        written("/tmp/cert"),
        written("/tmp/key"),
        written("/tmp/ca"),
        SetupEvent::Done,
        SetupEvent::Done,
        SetupEvent::Done,
        SetupEvent::Done,
    ];
    assert_eq!(
        actions(Profile::ClientPublicIp, Platform::Other, events),
        vec![
            SetupAction::OpenRegistration,
            SetupAction::OpenConfiguration { alpn: "h3", settings: settings(true) },
            SetupAction::WriteTempFile(CredentialFile::Certificate),
            SetupAction::WriteTempFile(CredentialFile::PrivateKey),
            SetupAction::WriteTempFile(CredentialFile::CaCertificate),
            SetupAction::LoadCredential(CredentialConfig {
                client: true,
                no_certificate_validation: false,
                credential: Credential::CertificateFile {
                    private_key_file: "/tmp/key".to_string(),
                    certificate_file: "/tmp/cert".to_string(),
                },
                ca_certificate_file: Some("/tmp/ca".to_string()),
            }),
            remove("/tmp/ca"),
            remove("/tmp/key"),
            remove("/tmp/cert"),
            SetupAction::Return(Outcome::Completed),
        ],
    );
}

#[test]
fn public_ip_client_setup_with_a_store() {
    let container = "msquic-async-example-client";
    let provider = ProviderType::RsaFull;
    let events = vec![
        SetupEvent::Done,
        SetupEvent::Done,
        SetupEvent::Done,
        SetupEvent::Done,
        SetupEvent::Failed,
        SetupEvent::Done,
        SetupEvent::Done,
        SetupEvent::Done,
        SetupEvent::Done,
        SetupEvent::Done,
    ];
    assert_eq!(
        actions(Profile::ClientPublicIp, Platform::Windows, events),
        vec![
            SetupAction::OpenRegistration,
            SetupAction::OpenConfiguration { alpn: "h3", settings: settings(true) },
            SetupAction::OpenStore,
            SetupAction::ReadCertificate(CredentialFile::Certificate),
            SetupAction::AcquireContainer { container, provider, new_keyset: false },
            SetupAction::AcquireContainer { container, provider, new_keyset: true },
            SetupAction::ImportPrivateKey(CredentialFile::PrivateKey),
            SetupAction::BindPrivateKey {
                container,
                provider,
                keep_open: true,
                key_spec: KeySpec::KeyExchange,
            },
            SetupAction::AddCertificate(CertAdd::Always),
            SetupAction::LoadCredential(CredentialConfig {
                client: true,
                no_certificate_validation: false,
                credential: Credential::CertificateContext,
                ca_certificate_file: None,
            }),
            SetupAction::Return(Outcome::Completed),
        ],
    );
}

#[test]
fn server_setup() {
    for platform in [Platform::Windows, Platform::Other] {
        let events = vec![
            SetupEvent::Done,
            SetupEvent::Done,
            written("c"),
            written("k"),
            SetupEvent::Done,
            SetupEvent::Done,
            SetupEvent::Done,
            SetupEvent::Done,
            SetupEvent::Done,
        ];
        assert_eq!(
            actions(server(), platform, events),
            vec![
                SetupAction::OpenRegistration,
                SetupAction::OpenConfiguration { alpn: "h3", settings: settings(true) },
                SetupAction::WriteTempFile(CredentialFile::Certificate),
                SetupAction::WriteTempFile(CredentialFile::PrivateKey),
                SetupAction::LoadCredential(CredentialConfig {
                    client: false,
                    no_certificate_validation: false,
                    credential: Credential::CertificateFile {
                        private_key_file: "k".to_string(),
                        certificate_file: "c".to_string(),
                    },
                    ca_certificate_file: None,
                }),
                SetupAction::CreateListener,
                SetupAction::StartListener { alpn: "h3", addr: Some(listen_addr()) },
                remove("k"),
                remove("c"),
                SetupAction::Return(Outcome::Completed),
            ],
        );
    }
    let (mut setup, _) = Setup::start(Profile::ServerBehindNat { addr: None }, Platform::Other);
    for event in [SetupEvent::Done, SetupEvent::Done, written("c"), written("k"), SetupEvent::Done] {
        setup.step(event);
    }
    assert_eq!(
        setup.step(SetupEvent::Done),
        Some(SetupAction::StartListener { alpn: "h3", addr: None }),
    );
}

#[test]
fn a_failed_setup_gives_the_error() {
    // The server: each of its seven actions in turn.
    for n in 0..7 {
        let mut events = vec![
            SetupEvent::Done,
            SetupEvent::Done,
            written("c"),
            written("k"),
            SetupEvent::Done,
            SetupEvent::Done,
            SetupEvent::Done,
        ];
        events.truncate(n);
        events.push(SetupEvent::Failed);
        // The files written so far are removed; that one cannot be is nothing.
        let mut ending = Vec::new();
        if n > 3 {
            ending.push(remove("k"));
            events.push(SetupEvent::Failed);
        }
        if n > 2 {
            ending.push(remove("c"));
            events.push(SetupEvent::Done);
        }
        ending.push(SetupAction::Return(Outcome::Failed));
        let actions = actions(server(), Platform::Other, events);
        assert_eq!(actions[n + 1..], ending[..]);
    }
}

#[test]
fn a_file_that_cannot_be_removed_is_passed_over() {
    let events = vec![
        SetupEvent::Done,
        SetupEvent::Done,
        written("c"),
        written("k"),
        written("a"),
        SetupEvent::Done,
        SetupEvent::Failed,
        SetupEvent::Failed,
        SetupEvent::Failed,
    ];
    let actions = actions(Profile::ClientPublicIp, Platform::Other, events);
    assert_eq!(
        actions[6..],
        [remove("a"), remove("k"), remove("c"), SetupAction::Return(Outcome::Completed)],
    );
}

#[test]
fn files_of_the_credentials() {
    let files =
        [CredentialFile::Certificate, CredentialFile::PrivateKey, CredentialFile::CaCertificate];
    assert_eq!(files.map(|file| credential_source(Profile::Client, file)), [None, None, None]);
    assert_eq!(
        files.map(|file| credential_source(Profile::ClientPublicIp, file)),
        [Some("certs/client.crt"), Some("certs/client.key"), Some("certs/ca.crt")],
    );
    assert_eq!(
        files.map(|file| credential_source(server(), file)),
        [Some("cert.pem"), Some("key.pem"), None],
    );
}

#[test]
fn a_failed_store_panics() {
    // From the opening of the store to the adding of the certificate; a first
    // container that cannot be acquired is tried again.
    for n in [2, 3, 5, 6, 7] {
        let mut events = Vec::new();
        for _ in 0..n {
            events.push(SetupEvent::Done);
        }
        events.push(SetupEvent::Failed);
        let last = actions(Profile::ClientPublicIp, Platform::Windows, events).pop();
        assert_eq!(last, Some(SetupAction::Panic));
    }
    let events = vec![
        SetupEvent::Done,
        SetupEvent::Done,
        SetupEvent::Done,
        SetupEvent::Done,
        SetupEvent::Failed,
        SetupEvent::Failed,
    ];
    let last = actions(Profile::ClientPublicIp, Platform::Windows, events).pop();
    assert_eq!(last, Some(SetupAction::Panic));
    // The credential itself gives the error.
    let mut events = Vec::new();
    for _ in 0..8 {
        events.push(SetupEvent::Done);
    }
    events.push(SetupEvent::Failed);
    let last = actions(Profile::ClientPublicIp, Platform::Windows, events).pop();
    assert_eq!(last, Some(SetupAction::Return(Outcome::Failed)));
}

#[test]
fn a_setup_takes_only_its_answers() {
    let (mut setup, _) = Setup::start(server(), Platform::Other);
    assert_eq!(setup.step(written("early")), None);
    assert_eq!(setup.stage, Stage::OpeningRegistration);
    setup.step(SetupEvent::Done);
    setup.step(SetupEvent::Done);
    assert_eq!(setup.step(SetupEvent::Done), None);
    assert_eq!(setup.stage, Stage::WritingCertificate);
    setup.step(SetupEvent::Failed);
    assert_eq!(setup.step(SetupEvent::Failed), None);
    assert_eq!(setup.stage, Stage::Ended);
}

fn client(public_ip: bool) -> ClientRun {
    ClientRun { public_ip, stage: ClientStage::MakingConfiguration }
}

#[test]
fn plain_client_course() {
    let mut run = client(false);
    assert_eq!(run.step(Reply::Done), Some(ClientAction::Call { watch_connections: false }));
    assert_eq!(run.step(Reply::Done), Some(ClientAction::Return(Outcome::Completed)));
    assert_eq!(run.step(Reply::Done), None);
}

#[test]
fn public_ip_client_course() {
    let mut run = client(true);
    assert_eq!(run.step(Reply::Done), Some(ClientAction::Call { watch_connections: true }));
    assert_eq!(run.step(Reply::Done), Some(ClientAction::Linger { seconds: 10 }));
    assert_eq!(run.step(Reply::Failed), None);
    assert_eq!(run.step(Reply::Done), Some(ClientAction::Return(Outcome::Completed)));
}

#[test]
fn a_client_that_fails() {
    for public_ip in [false, true] {
        let mut run = client(public_ip);
        assert_eq!(run.step(Reply::Failed), Some(ClientAction::Return(Outcome::Failed)));
        assert_eq!(run.step(Reply::Done), None);
        let mut run = client(public_ip);
        run.step(Reply::Done);
        assert_eq!(run.step(Reply::Failed), Some(ClientAction::Panic));
    }
}

#[test]
fn server_course() {
    let (mut run, first) = ServerRun::start();
    assert_eq!(first, ServerAction::MakeListener(server()));
    for expected in [
        ServerAction::ReadLocalAddr,
        ServerAction::ConnectProxy {
            local_bind_addr: SocketAddr::new_v4(127, 0, 0, 1, 5047),
            server_addr: proxy_addr(),
            target_addr: None,
        },
        ServerAction::StartTasks,
        ServerAction::AwaitInterrupt,
        ServerAction::CancelService,
        ServerAction::AwaitService,
        ServerAction::AbortProxy,
        ServerAction::Return(Outcome::Completed),
    ] {
        assert_eq!(run.step(ServerReply::Done), Some(expected));
    }
    assert_eq!(run.step(ServerReply::Done), None);
    assert_eq!(run, ServerRun::Ended);
}

#[test]
fn a_server_that_fails() {
    // What comes of a failure after so many successes.
    let returned = Some(ServerAction::Return(Outcome::Failed));
    for (n, expected) in [
        (0, returned),
        (1, returned),
        (2, returned),
        (3, None),
        (4, Some(ServerAction::Panic)),
        (5, None),
        (6, returned),
        (7, None),
    ] {
        let (mut run, _) = ServerRun::start();
        for _ in 0..n {
            assert!(run.step(ServerReply::Done).is_some());
        }
        assert_eq!(run.step(ServerReply::Failed), expected);
    }
}

#[test]
fn an_error_of_the_service_is_dropped() {
    let (mut run, _) = ServerRun::start();
    for _ in 0..6 {
        assert_eq!(run.step(ServerReply::ServiceFailed), None);
        assert!(run.step(ServerReply::Done).is_some());
    }
    assert_eq!(run, ServerRun::AwaitingService);
    assert_eq!(run.step(ServerReply::ServiceFailed), Some(ServerAction::AbortProxy));
    assert_eq!(
        run.step(ServerReply::Done),
        Some(ServerAction::Return(Outcome::Completed)),
    );
}
