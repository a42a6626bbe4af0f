//! How a program sets QUIC up.
//!
//! A registration and a configuration are opened, the credential is made and
//! loaded, and the server's listener is started.  The certificates are written
//! to temporary files, whose paths the credential names, and which are removed
//! however the setup ends; on Windows the client puts its certificate into a
//! store of the system instead.
use vstd::prelude::*;

use crate::addr::SocketAddr;
use crate::quic::{Credential, CredentialConfig, Profile, Settings, ALPN};
use crate::trace::Outcome;

verus! {

/// The name of the key container that holds the client's private key.
pub const KEY_CONTAINER: &'static str = "msquic-async-example-client";

/// Where the program runs.
#[derive(Clone, Copy, Debug, PartialEq, Eq, Structural)]
pub enum Platform {
    Windows,
    Other,
}

/// One of the files that make up a credential.
#[derive(Clone, Copy, Debug, PartialEq, Eq, Structural)]
pub enum CredentialFile {
    Certificate,
    PrivateKey,
    CaCertificate,
}

/// The kind of a provider of key containers on Windows.
#[derive(Clone, Copy, Debug, PartialEq, Eq, Structural)]
pub enum ProviderType {
    /// RSA, for signing and for encrypting.
    RsaFull,
    /// RSA, with AES.
    RsaAes,
}

/// What a private key is used for on Windows.
#[derive(Clone, Copy, Debug, PartialEq, Eq, Structural)]
pub enum KeySpec {
    KeyExchange,
    Signature,
}

/// What is done where a certificate store on Windows has a certificate already.
#[derive(Clone, Copy, Debug, PartialEq, Eq, Structural)]
pub enum CertAdd {
    /// It is added all the same.
    Always,
    /// It is refused.
    New,
}

/// The paths of the temporary files that are there.
#[derive(Debug, PartialEq, Eq)]
pub struct TempFiles {
    pub certificate: Option<String>,
    pub private_key: Option<String>,
    pub ca_certificate: Option<String>,
}

/// What the setup waits for.
#[derive(Clone, Copy, Debug, PartialEq, Eq, Structural)]
pub enum Stage {
    OpeningRegistration,
    OpeningConfiguration,
    WritingCertificate,
    WritingPrivateKey,
    WritingCaCertificate,
    OpeningStore,
    ReadingCertificate,
    AcquiringContainer { new_keyset: bool },
    ImportingPrivateKey,
    BindingPrivateKey,
    AddingCertificate,
    LoadingCredential,
    CreatingListener,
    StartingListener,
    /// A temporary file to be removed; then the setup ends with `outcome`.
    RemovingFiles { outcome: Outcome },
    /// Nothing: the setup is over.
    Ended,
}

/// The setup of a program.
#[derive(Debug, PartialEq, Eq)]
pub struct Setup {
    pub profile: Profile,
    pub platform: Platform,
    pub files: TempFiles,
    pub stage: Stage,
}

/// What comes of an action.
#[derive(Debug, PartialEq, Eq)]
pub enum SetupEvent {
    /// It succeeded.
    Done,
    /// It wrote a file, to this path.
    Written(String),
    /// It failed.
    Failed,
}

/// What the setup asks for.
#[derive(Debug, PartialEq, Eq)]
pub enum SetupAction {
    OpenRegistration,
    OpenConfiguration { alpn: &'static str, settings: Settings },
    /// Write one of the program's files to a new temporary file.  Where that
    /// fails, nothing is left of it.
    WriteTempFile(CredentialFile),
    /// Remove the temporary file at a path.
    RemoveTempFile(String),
    /// Open a certificate store in memory.
    OpenStore,
    /// Read a certificate from one of the program's files.
    ReadCertificate(CredentialFile),
    /// Acquire a key container, one with a new key set where `new_keyset`.
    AcquireContainer { container: &'static str, provider: ProviderType, new_keyset: bool },
    /// Import a private key from one of the program's files into the container.
    ImportPrivateKey(CredentialFile),
    /// Name the container as the place of the certificate's private key.
    BindPrivateKey {
        container: &'static str,
        provider: ProviderType,
        keep_open: bool,
        key_spec: KeySpec,
    },
    /// Add the certificate to the store.
    AddCertificate(CertAdd),
    LoadCredential(CredentialConfig),
    CreateListener,
    StartListener { alpn: &'static str, addr: Option<SocketAddr> },
    /// Give back what was set up, or the error.
    Return(Outcome),
    /// Abandon the program.
    Panic,
}

/// The file that the program keeps a part of its credential in, where it has
/// that part.
pub open spec fn source_name(profile: Profile, file: CredentialFile) -> Option<Seq<char>> {
    match (profile, file) {
        (Profile::ClientPublicIp, CredentialFile::Certificate) => Some("certs/client.crt"@),
        (Profile::ClientPublicIp, CredentialFile::PrivateKey) => Some("certs/client.key"@),
        (Profile::ClientPublicIp, CredentialFile::CaCertificate) => Some("certs/ca.crt"@),
        (Profile::ServerBehindNat { .. }, CredentialFile::Certificate) => Some("cert.pem"@),
        (Profile::ServerBehindNat { .. }, CredentialFile::PrivateKey) => Some("key.pem"@),
        _ => None,
    }
}

/// The file that the program keeps a part of its credential in.  The plain
/// client has none, and the server none with the certificates of an authority.
pub fn credential_source(profile: Profile, file: CredentialFile) -> (r: Option<&'static str>)
    ensures
        match r {
            Some(name) => source_name(profile, file) == Some(name@),
            None => source_name(profile, file) is None,
        },
{
    match (profile, file) {
        (Profile::ClientPublicIp, CredentialFile::Certificate) => Some("certs/client.crt"),
        (Profile::ClientPublicIp, CredentialFile::PrivateKey) => Some("certs/client.key"),
        (Profile::ClientPublicIp, CredentialFile::CaCertificate) => Some("certs/ca.crt"),
        (Profile::ServerBehindNat { .. }, CredentialFile::Certificate) => Some("cert.pem"),
        (Profile::ServerBehindNat { .. }, CredentialFile::PrivateKey) => Some("key.pem"),
        _ => None,
    }
}

/// The credential of the plain client: it shows none, and checks none.
pub open spec fn unchecked_credential() -> CredentialConfig {
    CredentialConfig {
        client: true,
        no_certificate_validation: true,
        credential: Credential::Anonymous,
        ca_certificate_file: None,
    }
}

/// A credential in files.
pub open spec fn file_credential(
    client: bool,
    certificate_file: String,
    private_key_file: String,
    ca_certificate_file: Option<String>,
) -> CredentialConfig {
    CredentialConfig {
        client,
        no_certificate_validation: false,
        credential: Credential::CertificateFile { private_key_file, certificate_file },
        ca_certificate_file,
    }
}

/// The credential of the client on Windows: a certificate in the store.
pub open spec fn store_credential() -> CredentialConfig {
    CredentialConfig {
        client: true,
        no_certificate_validation: false,
        credential: Credential::CertificateContext,
        ca_certificate_file: None,
    }
}

/// The request for the client's key container.
pub open spec fn acquire(new_keyset: bool) -> SetupAction {
    SetupAction::AcquireContainer {
        container: KEY_CONTAINER,
        provider: ProviderType::RsaFull,
        new_keyset,
    }
}

impl TempFiles {
    /// No files.
    pub open spec fn none(self) -> bool {
        self.certificate is None && self.private_key is None && self.ca_certificate is None
    }

    /// The paths, in the order in which the files are written.
    pub open spec fn paths(self) -> Seq<String> {
        one(self.certificate) + one(self.private_key) + one(self.ca_certificate)
    }
}

/// The sequence of the string, where there is one.
pub open spec fn one(s: Option<String>) -> Seq<String> {
    match s {
        Some(s) => seq![s],
        None => seq![],
    }
}

/// Whether a failure while the setup waits for this abandons the program: so it
/// is with the certificate store, where nothing is left to try.
pub open spec fn panics_on_failure(stage: Stage) -> bool {
    match stage {
        Stage::OpeningStore
        | Stage::ReadingCertificate
        | Stage::ImportingPrivateKey
        | Stage::BindingPrivateKey
        | Stage::AddingCertificate => true,
        Stage::AcquiringContainer { new_keyset } => new_keyset,
        _ => false,
    }
}

/// The way to the end: the file written last is removed, as long as there is
/// one, and then the setup returns.
pub open spec fn finish(setup: Setup, outcome: Outcome) -> (Setup, SetupAction) {
    let stage = Stage::RemovingFiles { outcome };
    match (setup.files.ca_certificate, setup.files.private_key, setup.files.certificate) {
        (Some(path), _, _) => (
            Setup { files: TempFiles { ca_certificate: None, ..setup.files }, stage, ..setup },
            SetupAction::RemoveTempFile(path),
        ),
        (None, Some(path), _) => (
            Setup { files: TempFiles { private_key: None, ..setup.files }, stage, ..setup },
            SetupAction::RemoveTempFile(path),
        ),
        (None, None, Some(path)) => (
            Setup { files: TempFiles { certificate: None, ..setup.files }, stage, ..setup },
            SetupAction::RemoveTempFile(path),
        ),
        (None, None, None) => (
            Setup { stage: Stage::Ended, ..setup },
            SetupAction::Return(outcome),
        ),
    }
}

/// What a failure leads to.  That a file could not be removed is of no
/// consequence.
pub open spec fn after_failure(setup: Setup) -> Option<(Setup, SetupAction)> {
    match setup.stage {
        Stage::Ended => None,
        Stage::RemovingFiles { outcome } => Some(finish(setup, outcome)),
        Stage::AcquiringContainer { new_keyset: false } => Some(
            (Setup { stage: Stage::AcquiringContainer { new_keyset: true }, ..setup }, acquire(true)),
        ),
        _ => if panics_on_failure(setup.stage) {
            Some((Setup { stage: Stage::Ended, ..setup }, SetupAction::Panic))
        } else {
            Some(finish(setup, Outcome::Failed))
        },
    }
}

/// What follows the opening of the configuration: the credential is made.
pub open spec fn make_credential(profile: Profile, platform: Platform) -> (Stage, SetupAction) {
    match (profile, platform) {
        (Profile::Client, _) => (
            Stage::LoadingCredential,
            SetupAction::LoadCredential(unchecked_credential()),
        ),
        (Profile::ClientPublicIp, Platform::Windows) => (
            Stage::OpeningStore,
            SetupAction::OpenStore,
        ),
        _ => (
            Stage::WritingCertificate,
            SetupAction::WriteTempFile(CredentialFile::Certificate),
        ),
    }
}

/// The stage and the action that success leads to, where it leaves no path
/// behind and the setup goes on.
pub open spec fn go_on(profile: Profile, platform: Platform, stage: Stage) -> Option<
    (Stage, SetupAction),
> {
    match stage {
        Stage::OpeningRegistration => Some(
            (
                Stage::OpeningConfiguration,
                SetupAction::OpenConfiguration { alpn: ALPN, settings: profile.quic_settings() },
            ),
        ),
        Stage::OpeningConfiguration => Some(make_credential(profile, platform)),
        Stage::OpeningStore => Some(
            (
                Stage::ReadingCertificate,
                SetupAction::ReadCertificate(CredentialFile::Certificate),
            ),
        ),
        Stage::ReadingCertificate => Some(
            (Stage::AcquiringContainer { new_keyset: false }, acquire(false)),
        ),
        Stage::AcquiringContainer { .. } => Some(
            (
                Stage::ImportingPrivateKey,
                SetupAction::ImportPrivateKey(CredentialFile::PrivateKey),
            ),
        ),
        Stage::ImportingPrivateKey => Some(
            (
                Stage::BindingPrivateKey,
                SetupAction::BindPrivateKey {
                    container: KEY_CONTAINER,
                    provider: ProviderType::RsaFull,
                    keep_open: true,
                    key_spec: KeySpec::KeyExchange,
                },
            ),
        ),
        Stage::BindingPrivateKey => Some(
            (Stage::AddingCertificate, SetupAction::AddCertificate(CertAdd::Always)),
        ),
        Stage::AddingCertificate => Some(
            (Stage::LoadingCredential, SetupAction::LoadCredential(store_credential())),
        ),
        Stage::LoadingCredential => if profile is ServerBehindNat {
            Some((Stage::CreatingListener, SetupAction::CreateListener))
        } else {
            None
        },
        Stage::CreatingListener => match profile {
            Profile::ServerBehindNat { addr } => Some(
                (Stage::StartingListener, SetupAction::StartListener { alpn: ALPN, addr }),
            ),
            _ => None,
        },
        _ => None,
    }
}

/// What success leads to, where it leaves no path behind.
pub open spec fn after_success(setup: Setup) -> Option<(Setup, SetupAction)> {
    match go_on(setup.profile, setup.platform, setup.stage) {
        Some((stage, action)) => Some((Setup { stage, ..setup }, action)),
        None => match setup.stage {
            Stage::LoadingCredential | Stage::StartingListener => Some(
                finish(setup, Outcome::Completed),
            ),
            Stage::RemovingFiles { outcome } => Some(finish(setup, outcome)),
            _ => None,
        },
    }
}

/// What the writing of a file leads to.
pub open spec fn after_writing(setup: Setup, path: String) -> Option<(Setup, SetupAction)> {
    match (setup.stage, setup.files.certificate, setup.files.private_key) {
        (Stage::WritingCertificate, _, _) => Some(
            (
                Setup {
                    files: TempFiles { certificate: Some(path), ..setup.files },
                    stage: Stage::WritingPrivateKey,
                    ..setup
                },
                SetupAction::WriteTempFile(CredentialFile::PrivateKey),
            ),
        ),
        (Stage::WritingPrivateKey, Some(certificate_file), _) => {
            let files = TempFiles { private_key: Some(path), ..setup.files };
            if setup.profile is ServerBehindNat {
                Some(
                    (
                        Setup { files, stage: Stage::LoadingCredential, ..setup },
                        SetupAction::LoadCredential(
                            file_credential(false, certificate_file, path, None),
                        ),
                    ),
                )
            } else {
                Some(
                    (
                        Setup { files, stage: Stage::WritingCaCertificate, ..setup },
                        SetupAction::WriteTempFile(CredentialFile::CaCertificate),
                    ),
                )
            }
        },
        (Stage::WritingCaCertificate, Some(certificate_file), Some(private_key_file)) => Some(
            (
                Setup {
                    files: TempFiles { ca_certificate: Some(path), ..setup.files },
                    stage: Stage::LoadingCredential,
                    ..setup
                },
                SetupAction::LoadCredential(
                    file_credential(true, certificate_file, private_key_file, Some(path)),
                ),
            ),
        ),
        _ => None,
    }
}

/// The machine of the setup.
pub open spec fn next(setup: Setup, event: SetupEvent) -> Option<(Setup, SetupAction)> {
    match event {
        SetupEvent::Done => after_success(setup),
        SetupEvent::Written(path) => after_writing(setup, path),
        SetupEvent::Failed => after_failure(setup),
    }
}

/// A setup that has not asked for anything but its registration.
pub open spec fn fresh(profile: Profile, platform: Platform) -> Setup {
    Setup {
        profile,
        platform,
        files: TempFiles { certificate: None, private_key: None, ca_certificate: None },
        stage: Stage::OpeningRegistration,
    }
}

impl Setup {
    /// Whether the program's credential is written to temporary files.
    pub open spec fn writes_files(self) -> bool {
        match self.profile {
            Profile::Client => false,
            Profile::ClientPublicIp => self.platform == Platform::Other,
            Profile::ServerBehindNat { .. } => true,
        }
    }

    /// The stage is one that the profile comes to on the platform, and the
    /// files are those that are written by then.
    pub open spec fn wf(self) -> bool {
        let files = self.files;
        match self.stage {
            Stage::OpeningRegistration | Stage::OpeningConfiguration | Stage::Ended => files.none(),
            Stage::WritingCertificate => self.writes_files() && files.none(),
            Stage::WritingPrivateKey => {
                &&& self.writes_files()
                &&& files.certificate is Some
                &&& files.private_key is None
                &&& files.ca_certificate is None
            },
            Stage::WritingCaCertificate => {
                &&& self.writes_files()
                &&& self.profile == Profile::ClientPublicIp
                &&& files.certificate is Some
                &&& files.private_key is Some
                &&& files.ca_certificate is None
            },
            Stage::OpeningStore
            | Stage::ReadingCertificate
            | Stage::AcquiringContainer { .. }
            | Stage::ImportingPrivateKey
            | Stage::BindingPrivateKey
            | Stage::AddingCertificate => {
                &&& self.profile == Profile::ClientPublicIp
                &&& self.platform == Platform::Windows
                &&& files.none()
            },
            Stage::LoadingCredential => self.all_written(),
            Stage::CreatingListener | Stage::StartingListener => self.profile is ServerBehindNat
                && self.all_written(),
            Stage::RemovingFiles { .. } => {
                &&& self.writes_files()
                &&& files.private_key is Some ==> files.certificate is Some
                &&& files.ca_certificate is None
            },
        }
    }

    /// The files that the credential needs are there, and no others.
    pub open spec fn all_written(self) -> bool {
        if self.writes_files() {
            &&& self.files.certificate is Some
            &&& self.files.private_key is Some
            &&& self.files.ca_certificate is Some <==> self.profile == Profile::ClientPublicIp
        } else {
            self.files.none()
        }
    }

    /// Starts the setup: the first thing it asks for is a registration.
    pub fn start(profile: Profile, platform: Platform) -> (r: (Setup, SetupAction))
        ensures
            r == (fresh(profile, platform), SetupAction::OpenRegistration),
            r.0.wf(),
    {
        let files = TempFiles { certificate: None, private_key: None, ca_certificate: None };
        (
            Setup { profile, platform, files, stage: Stage::OpeningRegistration },
            SetupAction::OpenRegistration,
        )
    }

    /// Takes in what came of the last action and gives the next.  An event that
    /// does not answer the last action changes nothing and gives none.
    pub fn step(&mut self, event: SetupEvent) -> (action: Option<SetupAction>)
        ensures
            crate::trace::stepped(*old(self), *final(self), action, next(*old(self), event)),
            old(self).wf() ==> final(self).wf(),
    {
        match event {
            SetupEvent::Done => self.success(),
            SetupEvent::Written(path) => self.written(path),
            SetupEvent::Failed => self.failure(),
        }
    }

    fn end(&mut self, outcome: Outcome) -> (action: SetupAction)
        ensures
            (*final(self), action) == finish(*old(self), outcome),
    {
        let removed = match self.files.ca_certificate.take() {
            Some(path) => Some(path),
            None => match self.files.private_key.take() {
                Some(path) => Some(path),
                None => self.files.certificate.take(),
            },
        };
        match removed {
            Some(path) => {
                self.stage = Stage::RemovingFiles { outcome };
                SetupAction::RemoveTempFile(path)
            },
            None => {
                self.stage = Stage::Ended;
                SetupAction::Return(outcome)
            },
        }
    }

    fn failure(&mut self) -> (action: Option<SetupAction>)
        ensures
            crate::trace::stepped(*old(self), *final(self), action, after_failure(*old(self))),
    {
        match self.stage {
            Stage::Ended => None,
            Stage::RemovingFiles { outcome } => Some(self.end(outcome)),
            Stage::OpeningStore
            | Stage::ReadingCertificate
            | Stage::AcquiringContainer { new_keyset: true }
            | Stage::ImportingPrivateKey
            | Stage::BindingPrivateKey
            | Stage::AddingCertificate => {
                self.stage = Stage::Ended;
                Some(SetupAction::Panic)
            },
            Stage::AcquiringContainer { new_keyset: false } => {
                self.stage = Stage::AcquiringContainer { new_keyset: true };
                Some(
                    SetupAction::AcquireContainer {
                        container: KEY_CONTAINER,
                        provider: ProviderType::RsaFull,
                        new_keyset: true,
                    },
                )
            },
            _ => Some(self.end(Outcome::Failed)),
        }
    }

    fn success(&mut self) -> (action: Option<SetupAction>)
        ensures
            crate::trace::stepped(*old(self), *final(self), action, after_success(*old(self))),
    {
        let (stage, action) = match self.stage {
            Stage::OpeningRegistration => (
                Stage::OpeningConfiguration,
                SetupAction::OpenConfiguration { alpn: ALPN, settings: self.profile.settings() },
            ),
            Stage::OpeningConfiguration => match (self.profile, self.platform) {
                (Profile::Client, _) => (
                    Stage::LoadingCredential,
                    SetupAction::LoadCredential(
                        CredentialConfig {
                            client: true,
                            no_certificate_validation: true,
                            credential: Credential::Anonymous,
                            ca_certificate_file: None,
                        },
                    ),
                ),
                (Profile::ClientPublicIp, Platform::Windows) => (
                    Stage::OpeningStore,
                    SetupAction::OpenStore,
                ),
                _ => (
                    Stage::WritingCertificate,
                    SetupAction::WriteTempFile(CredentialFile::Certificate),
                ),
            },
            Stage::OpeningStore => (
                Stage::ReadingCertificate,
                SetupAction::ReadCertificate(CredentialFile::Certificate),
            ),
            Stage::ReadingCertificate => (
                Stage::AcquiringContainer { new_keyset: false },
                SetupAction::AcquireContainer {
                    container: KEY_CONTAINER,
                    provider: ProviderType::RsaFull,
                    new_keyset: false,
                },
            ),
            Stage::AcquiringContainer { .. } => (
                Stage::ImportingPrivateKey,
                SetupAction::ImportPrivateKey(CredentialFile::PrivateKey),
            ),
            Stage::ImportingPrivateKey => (
                Stage::BindingPrivateKey,
                SetupAction::BindPrivateKey {
                    container: KEY_CONTAINER,
                    provider: ProviderType::RsaFull,
                    keep_open: true,
                    key_spec: KeySpec::KeyExchange,
                },
            ),
            Stage::BindingPrivateKey => (
                Stage::AddingCertificate,
                SetupAction::AddCertificate(CertAdd::Always),
            ),
            Stage::AddingCertificate => (
                Stage::LoadingCredential,
                SetupAction::LoadCredential(
                    CredentialConfig {
                        client: true,
                        no_certificate_validation: false,
                        credential: Credential::CertificateContext,
                        ca_certificate_file: None,
                    },
                ),
            ),
            Stage::LoadingCredential => match self.profile {
                Profile::ServerBehindNat { .. } => (
                    Stage::CreatingListener,
                    SetupAction::CreateListener,
                ),
                _ => {
                    return Some(self.end(Outcome::Completed));
                },
            },
            Stage::CreatingListener => match self.profile {
                Profile::ServerBehindNat { addr } => (
                    Stage::StartingListener,
                    SetupAction::StartListener { alpn: ALPN, addr },
                ),
                _ => {
                    return None;
                },
            },
            Stage::StartingListener => {
                return Some(self.end(Outcome::Completed));
            },
            Stage::RemovingFiles { outcome } => {
                return Some(self.end(outcome));
            },
            _ => {
                return None;
            },
        };
        self.stage = stage;
        Some(action)
    }

    fn written(&mut self, path: String) -> (action: Option<SetupAction>)
        ensures
            crate::trace::stepped(*old(self), *final(self), action, after_writing(*old(self), path)),
    {
        match (self.stage, &self.files.certificate, &self.files.private_key) {
            (Stage::WritingCertificate, _, _) => {
                self.files.certificate = Some(path);
                self.stage = Stage::WritingPrivateKey;
                Some(SetupAction::WriteTempFile(CredentialFile::PrivateKey))
            },
            (Stage::WritingPrivateKey, Some(certificate_file), _) => {
                let action = match self.profile {
                    Profile::ServerBehindNat { .. } => SetupAction::LoadCredential(
                        CredentialConfig {
                            client: false,
                            no_certificate_validation: false,
                            credential: Credential::CertificateFile {
                                private_key_file: path.clone(),
                                certificate_file: certificate_file.clone(),
                            },
                            ca_certificate_file: None,
                        },
                    ),
                    _ => SetupAction::WriteTempFile(CredentialFile::CaCertificate),
                };
                self.files.private_key = Some(path);
                self.stage = match self.profile {
                    Profile::ServerBehindNat { .. } => Stage::LoadingCredential,
                    _ => Stage::WritingCaCertificate,
                };
                Some(action)
            },
            (Stage::WritingCaCertificate, Some(certificate_file), Some(private_key_file)) => {
                let action = SetupAction::LoadCredential(
                    CredentialConfig {
                        client: true,
                        no_certificate_validation: false,
                        credential: Credential::CertificateFile {
                            private_key_file: private_key_file.clone(),
                            certificate_file: certificate_file.clone(),
                        },
                        ca_certificate_file: Some(path.clone()),
                    },
                );
                self.files.ca_certificate = Some(path);
                self.stage = Stage::LoadingCredential;
                Some(action)
            },
            _ => None,
        }
    }
}

/// The run of a fresh setup over a sequence of events.
pub open spec fn setup_run(
    profile: Profile,
    platform: Platform,
    events: Seq<SetupEvent>,
) -> Option<(Setup, Seq<SetupAction>)> {
    crate::trace::run(
        |setup: Setup, event: SetupEvent| next(setup, event),
        fresh(profile, platform),
        events,
    )
}

proof fn lemma_run_len(profile: Profile, platform: Platform, events: Seq<SetupEvent>)
    ensures
        setup_run(profile, platform, events) matches Some((_, actions)) ==> actions.len()
            == events.len(),
{
    crate::trace::lemma_run_len(
        |setup: Setup, event: SetupEvent| next(setup, event),
        fresh(profile, platform),
        events,
    );
}

proof fn lemma_run_push(
    profile: Profile,
    platform: Platform,
    events: Seq<SetupEvent>,
    event: SetupEvent,
)
    ensures
        setup_run(profile, platform, events.push(event)) == match setup_run(
            profile,
            platform,
            events,
        ) {
            Some((setup, actions)) => match next(setup, event) {
                Some((after, action)) => Some((after, actions.push(action))),
                None => None,
            },
            None => None,
        },
{
    crate::trace::lemma_run_push(
        |setup: Setup, event: SetupEvent| next(setup, event),
        fresh(profile, platform),
        events,
        event,
    );
}

/// Every run stays within the stages of its profile on its platform.
pub proof fn law_runs_stay_well_formed(
    profile: Profile,
    platform: Platform,
    events: Seq<SetupEvent>,
)
    ensures
        setup_run(profile, platform, events) matches Some((setup, _)) ==> setup.wf()
            && setup.profile == profile && setup.platform == platform,
    decreases events.len(),
{
    if events.len() > 0 {
        law_runs_stay_well_formed(profile, platform, events.drop_last());
    }
}

/// A setup that is not over waits for the answer to its last action: a failure,
/// or one kind of success, which is a path exactly where a file is written.
/// One that is over waits for nothing.
pub proof fn law_each_stage_takes_its_answers(setup: Setup, path: String)
    requires
        setup.wf(),
    ensures
        next(setup, SetupEvent::Failed) is Some <==> setup.stage != Stage::Ended,
        next(setup, SetupEvent::Written(path)) is Some <==> (setup.stage is WritingCertificate
            || setup.stage is WritingPrivateKey || setup.stage is WritingCaCertificate),
        next(setup, SetupEvent::Done) is Some <==> setup.stage != Stage::Ended && next(
            setup,
            SetupEvent::Written(path),
        ) is None,
{
}

/// A failure turns the setup to its end: it returns the error, once its files
/// are removed, or panics, in the certificate store of Windows.  There are two
/// exceptions.  For a key container that cannot be acquired a new key set is
/// tried, once; and a file that cannot be removed leaves the outcome as it is.
pub proof fn law_failure_ends_the_setup(setup: Setup)
    requires
        setup.wf(),
        setup.stage != Stage::Ended,
    ensures
        match setup.stage {
            Stage::AcquiringContainer { new_keyset: false } => next(setup, SetupEvent::Failed)
                == Some(
                (
                    Setup { stage: Stage::AcquiringContainer { new_keyset: true }, ..setup },
                    acquire(true),
                ),
            ),
            Stage::RemovingFiles { outcome } => {
                &&& next(setup, SetupEvent::Failed) == next(setup, SetupEvent::Done)
                &&& next(setup, SetupEvent::Failed) == Some(finish(setup, outcome))
            },
            _ => next(setup, SetupEvent::Failed) == Some(finish(setup, Outcome::Failed)) || (next(
                setup,
                SetupEvent::Failed,
            ) == Some((Setup { stage: Stage::Ended, ..setup }, SetupAction::Panic)) && setup.profile
                == Profile::ClientPublicIp && setup.platform == Platform::Windows),
        },
{
}

/// The most answers that a setup can still take in.
pub open spec fn answers_left(setup: Setup) -> nat {
    let listener = if setup.profile is ServerBehindNat {
        2nat
    } else {
        0nat
    };
    let files = one(setup.files.certificate).len() + one(setup.files.private_key).len() + one(
        setup.files.ca_certificate,
    ).len();
    match setup.stage {
        Stage::OpeningRegistration => 10,
        Stage::OpeningConfiguration => 9,
        Stage::OpeningStore => 8,
        Stage::ReadingCertificate => 7,
        Stage::AcquiringContainer { new_keyset } => if new_keyset {
            5
        } else {
            6
        },
        Stage::ImportingPrivateKey => 4,
        Stage::BindingPrivateKey => 3,
        Stage::AddingCertificate => 2,
        Stage::WritingCertificate => 7,
        Stage::WritingPrivateKey => 6,
        Stage::WritingCaCertificate => 5,
        Stage::LoadingCredential => 1 + listener + files,
        Stage::CreatingListener => 2 + files,
        Stage::StartingListener => 1 + files,
        Stage::RemovingFiles { .. } => 1 + files,
        Stage::Ended => 0,
    }
}

proof fn lemma_answers_step(setup: Setup, event: SetupEvent)
    requires
        setup.wf(),
    ensures
        next(setup, event) matches Some((after, _)) ==> answers_left(after) < answers_left(setup),
{
}

/// A setup ends: the answers that a run has taken in and those that it can still
/// take in are never more than ten.
pub proof fn law_setup_ends(profile: Profile, platform: Platform, events: Seq<SetupEvent>)
    ensures
        setup_run(profile, platform, events) matches Some((setup, _)) ==> events.len()
            + answers_left(setup) <= 10,
    decreases events.len(),
{
    if events.len() > 0 {
        let before = events.drop_last();
        law_setup_ends(profile, platform, before);
        law_runs_stay_well_formed(profile, platform, before);
        lemma_run_push(profile, platform, before, events.last());
        assert(events =~= before.push(events.last()));
        if let Some((setup, _)) = setup_run(profile, platform, before) {
            lemma_answers_step(setup, events.last());
        }
    }
}

/// The paths of the temporary files that were written, in order.
pub open spec fn written_paths(events: Seq<SetupEvent>) -> Seq<String>
    decreases events.len(),
{
    if events.len() == 0 {
        Seq::empty()
    } else {
        let before = written_paths(events.drop_last());
        match events.last() {
            SetupEvent::Written(path) => before.push(path),
            _ => before,
        }
    }
}

/// The paths whose removal the actions ask for, in order.
pub open spec fn removed_paths(actions: Seq<SetupAction>) -> Seq<String>
    decreases actions.len(),
{
    if actions.len() == 0 {
        Seq::empty()
    } else {
        let before = removed_paths(actions.drop_last());
        match actions.last() {
            SetupAction::RemoveTempFile(path) => before.push(path),
            _ => before,
        }
    }
}

/// Whether the setup is on its way to the end, or there.
pub open spec fn ending(stage: Stage) -> bool {
    stage is RemovingFiles || stage is Ended
}

proof fn lemma_paths_step(setup: Setup, event: SetupEvent)
    requires
        setup.wf(),
    ensures
        next(setup, event) matches Some((after, action)) ==> {
            let was = setup.files.paths();
            let is = after.files.paths();
            &&& event matches SetupEvent::Written(path) ==> is == was.push(path) && !ending(
                setup.stage,
            ) && !(action is RemoveTempFile)
            &&& action matches SetupAction::RemoveTempFile(path) ==> was == is.push(path)
                && ending(after.stage)
            &&& !(event is Written || action is RemoveTempFile) ==> is == was
            &&& ending(setup.stage) ==> ending(after.stage)
        },
{
    if let Some((after, action)) = next(setup, event) {
        let was = setup.files.paths();
        let is = after.files.paths();
        if let SetupEvent::Written(path) = event {
            assert(is =~= was.push(path));
        } else if let SetupAction::RemoveTempFile(path) = action {
            assert(was =~= is.push(path));
        } else {
            assert(is =~= was);
        }
    }
}

proof fn lemma_account_step(
    was: Seq<String>,
    removed: Seq<String>,
    is: Seq<String>,
    path: String,
)
    ensures
        was == is.push(path) ==> was + removed.reverse() == is + removed.push(path).reverse(),
{
    if was == is.push(path) {
        assert(was + removed.reverse() =~= is + removed.push(path).reverse());
    }
}

proof fn lemma_files_accounted(profile: Profile, platform: Platform, events: Seq<SetupEvent>)
    ensures
        setup_run(profile, platform, events) matches Some((setup, actions)) ==> {
            &&& written_paths(events) == setup.files.paths() + removed_paths(actions).reverse()
            &&& !ending(setup.stage) ==> removed_paths(actions).len() == 0
        },
    decreases events.len(),
{
    if events.len() == 0 {
        assert(written_paths(events) =~= fresh(profile, platform).files.paths() + removed_paths(
            Seq::empty(),
        ).reverse());
    } else {
        let before = events.drop_last();
        let event = events.last();
        lemma_files_accounted(profile, platform, before);
        law_runs_stay_well_formed(profile, platform, before);
        lemma_run_push(profile, platform, before, event);
        assert(events =~= before.push(event));
        if let Some((was, asked)) = setup_run(profile, platform, before) {
            lemma_paths_step(was, event);
            if let Some((is, action)) = next(was, event) {
                assert(asked.push(action).drop_last() =~= asked);
                if let SetupEvent::Written(path) = event {
                    assert(removed_paths(asked).reverse() =~= Seq::<String>::empty());
                    assert(written_paths(events) =~= is.files.paths() + removed_paths(
                        asked,
                    ).reverse());
                } else if let SetupAction::RemoveTempFile(path) = action {
                    lemma_account_step(
                        was.files.paths(),
                        removed_paths(asked),
                        is.files.paths(),
                        path,
                    );
                }
            }
        }
    }
}

/// No temporary file outlasts the setup: in every run that has ended, with
/// whatever outcome, the removal of each file written was asked for, once, the
/// last written first, and of nothing else.
pub proof fn law_written_files_are_removed(
    profile: Profile,
    platform: Platform,
    events: Seq<SetupEvent>,
)
    ensures
        setup_run(profile, platform, events) matches Some((setup, actions)) ==> setup.stage
            == Stage::Ended ==> removed_paths(actions) == written_paths(events).reverse(),
{
    lemma_files_accounted(profile, platform, events);
    law_runs_stay_well_formed(profile, platform, events);
    if let Some((setup, actions)) = setup_run(profile, platform, events) {
        if setup.stage == Stage::Ended {
            assert(removed_paths(actions) =~= written_paths(events).reverse());
        }
    }
}

/// No temporary file is removed while the setup goes on: up to the answer to
/// the loading of the credential and, with the server, to the start of the
/// listener, every file written is there.
pub proof fn law_files_last_until_the_end(
    profile: Profile,
    platform: Platform,
    events: Seq<SetupEvent>,
)
    ensures
        setup_run(profile, platform, events) matches Some((setup, actions)) ==> !ending(
            setup.stage,
        ) ==> {
            &&& removed_paths(actions) == Seq::<String>::empty()
            &&& setup.files.paths() == written_paths(events)
        },
{
    lemma_files_accounted(profile, platform, events);
    if let Some((setup, actions)) = setup_run(profile, platform, events) {
        if !ending(setup.stage) {
            assert(setup.files.paths() =~= written_paths(events));
        }
    }
}

/// Every file that a setup writes, reads or imports is one that its program
/// has.
pub proof fn law_used_files_have_a_source(setup: Setup, event: SetupEvent)
    requires
        setup.wf(),
    ensures
        next(setup, event) matches Some((_, action)) ==> match action {
            SetupAction::WriteTempFile(file)
            | SetupAction::ReadCertificate(file)
            | SetupAction::ImportPrivateKey(file) => source_name(setup.profile, file) is Some,
            _ => true,
        },
{
}

/// Whether an action that `which` picks was answered with success.
pub open spec fn succeeded(
    actions: Seq<SetupAction>,
    events: Seq<SetupEvent>,
    which: spec_fn(SetupAction) -> bool,
) -> bool {
    exists|j: int|
        0 <= j < actions.len() - 1 && j + 1 < events.len() && #[trigger] which(actions[j])
            && events[j + 1] == SetupEvent::Done
}

/// Whether the credential was loaded.
pub open spec fn credential_loaded(actions: Seq<SetupAction>, events: Seq<SetupEvent>) -> bool {
    succeeded(actions, events, |a: SetupAction| a is LoadCredential)
}

/// Whether the listener was started.
pub open spec fn listener_started(actions: Seq<SetupAction>, events: Seq<SetupEvent>) -> bool {
    succeeded(actions, events, |a: SetupAction| a is StartListener)
}

proof fn lemma_succeeded_push(
    actions: Seq<SetupAction>,
    events: Seq<SetupEvent>,
    which: spec_fn(SetupAction) -> bool,
    action: SetupAction,
    event: SetupEvent,
)
    requires
        actions.len() == events.len(),
    ensures
        succeeded(actions, events, which) ==> succeeded(
            actions.push(action),
            events.push(event),
            which,
        ),
        actions.len() > 0 && which(actions.last()) && event == SetupEvent::Done ==> succeeded(
            actions.push(action),
            events.push(event),
            which,
        ),
{
    let a = actions.push(action);
    let e = events.push(event);
    if succeeded(actions, events, which) {
        let j = choose|j: int|
            0 <= j < actions.len() - 1 && j + 1 < events.len() && #[trigger] which(actions[j])
                && events[j + 1] == SetupEvent::Done;
        assert(which(a[j]) && e[j + 1] == SetupEvent::Done);
    }
    if actions.len() > 0 && which(actions.last()) && event == SetupEvent::Done {
        let j = actions.len() - 1;
        assert(which(a[j]) && e[j + 1] == SetupEvent::Done);
    }
}

proof fn lemma_progress(profile: Profile, platform: Platform, events: Seq<SetupEvent>)
    ensures
        setup_run(profile, platform, events) matches Some((setup, actions)) ==> {
            let completed = setup.stage == (Stage::RemovingFiles { outcome: Outcome::Completed })
                || (actions.len() > 0 && actions.last() == SetupAction::Return(Outcome::Completed));
            &&& setup.stage is LoadingCredential ==> actions.len() > 0 && actions.last()
                is LoadCredential
            &&& setup.stage is CreatingListener || setup.stage is StartingListener || completed
                ==> credential_loaded(actions, events)
            &&& setup.stage is StartingListener ==> actions.len() > 0 && actions.last()
                is StartListener
            &&& completed && profile is ServerBehindNat ==> listener_started(actions, events)
        },
    decreases events.len(),
{
    if events.len() > 0 {
        let before = events.drop_last();
        lemma_progress(profile, platform, before);
        lemma_run_len(profile, platform, before);
        law_runs_stay_well_formed(profile, platform, before);
        if let Some((setup, actions)) = setup_run(profile, platform, events) {
            let (was, asked) = setup_run(profile, platform, before)->Some_0;
            assert(events =~= before.push(events.last()));
            lemma_succeeded_push(
                asked,
                before,
                |a: SetupAction| a is LoadCredential,
                actions.last(),
                events.last(),
            );
            lemma_succeeded_push(
                asked,
                before,
                |a: SetupAction| a is StartListener,
                actions.last(),
                events.last(),
            );
        }
    }
}

/// No setup is completed without its credential: in every run that returns
/// successfully the credential was loaded before, and where the program is the
/// server the listener was started.
pub proof fn law_completed_setup_has_its_credential(
    profile: Profile,
    platform: Platform,
    events: Seq<SetupEvent>,
)
    requires
        setup_run(profile, platform, events) is Some,
        events.len() > 0,
        setup_run(profile, platform, events)->Some_0.1.last() == SetupAction::Return(
            Outcome::Completed,
        ),
    ensures
        credential_loaded(setup_run(profile, platform, events)->Some_0.1, events),
        profile is ServerBehindNat ==> listener_started(
            setup_run(profile, platform, events)->Some_0.1,
            events,
        ),
{
    lemma_progress(profile, platform, events);
    lemma_run_len(profile, platform, events);
}

/// A setup in which nothing fails is completed: a run that has ended with no
/// failure among its answers has returned successfully.
pub proof fn law_setup_without_failure_completes(
    profile: Profile,
    platform: Platform,
    events: Seq<SetupEvent>,
)
    requires
        forall|i: int| 0 <= i < events.len() ==> #[trigger] events[i] != SetupEvent::Failed,
    ensures
        setup_run(profile, platform, events) matches Some((setup, actions)) ==> {
            &&& setup.stage is RemovingFiles ==> setup.stage == (Stage::RemovingFiles {
                outcome: Outcome::Completed,
            })
            &&& setup.stage == Stage::Ended ==> actions.len() > 0 && actions.last()
                == SetupAction::Return(Outcome::Completed)
        },
    decreases events.len(),
{
    if events.len() > 0 {
        let before = events.drop_last();
        assert(forall|i: int| 0 <= i < before.len() ==> #[trigger] before[i] == events[i]);
        law_setup_without_failure_completes(profile, platform, before);
        law_runs_stay_well_formed(profile, platform, before);
        assert(events.last() == events[events.len() - 1]);
    }
}

/// The client with a public address, where nothing fails and the system is not
/// Windows: it writes its certificate, its key and the certificates of its
/// authority, in that order, loads a credential that names the three paths, each
/// in its own place, and removes the three files again.
pub proof fn law_client_credential_names_its_files(
    certificate_file: String,
    private_key_file: String,
    ca_certificate_file: String,
)
    ensures
        setup_run(
            Profile::ClientPublicIp,
            Platform::Other,
            seq![
                SetupEvent::Done,
                SetupEvent::Done,
                SetupEvent::Written(certificate_file),
                SetupEvent::Written(private_key_file),
                SetupEvent::Written(ca_certificate_file),
                SetupEvent::Done,
                SetupEvent::Done,
                SetupEvent::Done,
                SetupEvent::Done,
            ],
        ) matches Some((_, actions)) && actions == seq![
            SetupAction::OpenConfiguration {
                alpn: ALPN,
                settings: Profile::ClientPublicIp.quic_settings(),
            },
            SetupAction::WriteTempFile(CredentialFile::Certificate),
            SetupAction::WriteTempFile(CredentialFile::PrivateKey),
            SetupAction::WriteTempFile(CredentialFile::CaCertificate),
            SetupAction::LoadCredential(
                CredentialConfig {
                    client: true,
                    no_certificate_validation: false,
                    credential: Credential::CertificateFile { private_key_file, certificate_file },
                    ca_certificate_file: Some(ca_certificate_file),
                },
            ),
            SetupAction::RemoveTempFile(ca_certificate_file),
            SetupAction::RemoveTempFile(private_key_file),
            SetupAction::RemoveTempFile(certificate_file),
            SetupAction::Return(Outcome::Completed),
        ],
{
    let profile = Profile::ClientPublicIp;
    let platform = Platform::Other;
    let e0 = Seq::<SetupEvent>::empty();
    let e1 = e0.push(SetupEvent::Done);
    let e2 = e1.push(SetupEvent::Done);
    let e3 = e2.push(SetupEvent::Written(certificate_file));
    let e4 = e3.push(SetupEvent::Written(private_key_file));
    let e5 = e4.push(SetupEvent::Written(ca_certificate_file));
    let e6 = e5.push(SetupEvent::Done);
    let e7 = e6.push(SetupEvent::Done);
    let e8 = e7.push(SetupEvent::Done);
    let e9 = e8.push(SetupEvent::Done);
    lemma_run_push(profile, platform, e0, SetupEvent::Done);
    lemma_run_push(profile, platform, e1, SetupEvent::Done);
    lemma_run_push(profile, platform, e2, SetupEvent::Written(certificate_file));
    lemma_run_push(profile, platform, e3, SetupEvent::Written(private_key_file));
    lemma_run_push(profile, platform, e4, SetupEvent::Written(ca_certificate_file));
    lemma_run_push(profile, platform, e5, SetupEvent::Done);
    lemma_run_push(profile, platform, e6, SetupEvent::Done);
    lemma_run_push(profile, platform, e7, SetupEvent::Done);
    lemma_run_push(profile, platform, e8, SetupEvent::Done);
    assert(e9 =~= seq![
        SetupEvent::Done,
        SetupEvent::Done,
        SetupEvent::Written(certificate_file),
        SetupEvent::Written(private_key_file),
        SetupEvent::Written(ca_certificate_file),
        SetupEvent::Done,
        SetupEvent::Done,
        SetupEvent::Done,
        SetupEvent::Done,
    ]);
}

/// The server, where nothing fails: it writes its certificate and its key, loads
/// a credential that names the two paths, each in its own place, listens on the
/// address that it was given, and removes the two files again.
pub proof fn law_server_credential_names_its_files(
    addr: Option<SocketAddr>,
    platform: Platform,
    certificate_file: String,
    private_key_file: String,
)
    ensures
        setup_run(
            Profile::ServerBehindNat { addr },
            platform,
            seq![
                SetupEvent::Done,
                SetupEvent::Done,
                SetupEvent::Written(certificate_file),
                SetupEvent::Written(private_key_file),
                SetupEvent::Done,
                SetupEvent::Done,
                SetupEvent::Done,
                SetupEvent::Done,
                SetupEvent::Done,
            ],
        ) matches Some((_, actions)) && actions == seq![
            SetupAction::OpenConfiguration {
                alpn: ALPN,
                settings: (Profile::ServerBehindNat { addr }).quic_settings(),
            },
            SetupAction::WriteTempFile(CredentialFile::Certificate),
            SetupAction::WriteTempFile(CredentialFile::PrivateKey),
            SetupAction::LoadCredential(
                CredentialConfig {
                    client: false,
                    no_certificate_validation: false,
                    credential: Credential::CertificateFile { private_key_file, certificate_file },
                    ca_certificate_file: None,
                },
            ),
            SetupAction::CreateListener,
            SetupAction::StartListener { alpn: ALPN, addr },
            SetupAction::RemoveTempFile(private_key_file),
            SetupAction::RemoveTempFile(certificate_file),
            SetupAction::Return(Outcome::Completed),
        ],
{
    let profile = Profile::ServerBehindNat { addr };
    let e0 = Seq::<SetupEvent>::empty();
    let e1 = e0.push(SetupEvent::Done);
    let e2 = e1.push(SetupEvent::Done);
    let e3 = e2.push(SetupEvent::Written(certificate_file));
    let e4 = e3.push(SetupEvent::Written(private_key_file));
    let e5 = e4.push(SetupEvent::Done);
    let e6 = e5.push(SetupEvent::Done);
    let e7 = e6.push(SetupEvent::Done);
    let e8 = e7.push(SetupEvent::Done);
    let e9 = e8.push(SetupEvent::Done);
    lemma_run_push(profile, platform, e0, SetupEvent::Done);
    lemma_run_push(profile, platform, e1, SetupEvent::Done);
    lemma_run_push(profile, platform, e2, SetupEvent::Written(certificate_file));
    lemma_run_push(profile, platform, e3, SetupEvent::Written(private_key_file));
    lemma_run_push(profile, platform, e4, SetupEvent::Done);
    lemma_run_push(profile, platform, e5, SetupEvent::Done);
    lemma_run_push(profile, platform, e6, SetupEvent::Done);
    lemma_run_push(profile, platform, e7, SetupEvent::Done);
    lemma_run_push(profile, platform, e8, SetupEvent::Done);
    assert(e9 =~= seq![
        SetupEvent::Done,
        SetupEvent::Done,
        SetupEvent::Written(certificate_file),
        SetupEvent::Written(private_key_file),
        SetupEvent::Done,
        SetupEvent::Done,
        SetupEvent::Done,
        SetupEvent::Done,
        SetupEvent::Done,
    ]);
}

/// Only the plain client leaves the certificate of its peer unchecked, and only
/// the server's credential is not a client's.
pub proof fn law_who_checks_certificates(setup: Setup, event: SetupEvent)
    requires
        setup.wf(),
    ensures
        next(setup, event) matches Some((_, SetupAction::LoadCredential(config))) ==> {
            &&& config.no_certificate_validation <==> setup.profile == Profile::Client
            &&& config.client <==> !(setup.profile is ServerBehindNat)
        },
{
}

/// The plain client, where nothing fails, on either system: it loads a
/// credential with no certificate that checks none, and needs no file.
pub proof fn law_plain_client_course(platform: Platform)
    ensures
        setup_run(
            Profile::Client,
            platform,
            seq![
                SetupEvent::Done,
                SetupEvent::Done,
                SetupEvent::Done,
            ],
        ) matches Some((setup, actions)) && setup.stage == Stage::Ended && actions == seq![
            SetupAction::OpenConfiguration {
                alpn: "h3",
                settings: Settings {
                    idle_timeout_ms: 10000,
                    peer_bidi_stream_count: 100,
                    peer_unidi_stream_count: 100,
                    datagram_receive_enabled: true,
                    stream_multi_receive_enabled: true,
                    server_migration_enabled: false,
                },
            },
            SetupAction::LoadCredential(
                CredentialConfig {
                    client: true,
                    no_certificate_validation: true,
                    credential: Credential::Anonymous,
                    ca_certificate_file: None,
                },
            ),
            SetupAction::Return(Outcome::Completed),
        ],
{
    let profile = Profile::Client;
    let e0 = Seq::<SetupEvent>::empty();
    let e1 = e0.push(SetupEvent::Done);
    let e2 = e1.push(SetupEvent::Done);
    let e3 = e2.push(SetupEvent::Done);
    lemma_run_push(profile, platform, e0, SetupEvent::Done);
    lemma_run_push(profile, platform, e1, SetupEvent::Done);
    lemma_run_push(profile, platform, e2, SetupEvent::Done);
    assert(e3 =~= seq![
        SetupEvent::Done,
        SetupEvent::Done,
        SetupEvent::Done,
    ]);
}

/// The client with a public address on Windows, where nothing fails: it reads its
/// certificate, imports its private key into the container, which it finds, binds
/// the one to the other, adds the certificate to the store, and loads it from
/// there.
pub proof fn law_client_course_with_a_container()
    ensures
        setup_run(
            Profile::ClientPublicIp,
            Platform::Windows,
            seq![
                SetupEvent::Done,
                SetupEvent::Done,
                SetupEvent::Done,
                SetupEvent::Done,
                SetupEvent::Done,
                SetupEvent::Done,
                SetupEvent::Done,
                SetupEvent::Done,
                SetupEvent::Done,
            ],
        ) matches Some((setup, actions)) && setup.stage == Stage::Ended && actions == seq![
            SetupAction::OpenConfiguration {
                alpn: "h3",
                settings: Settings {
                    idle_timeout_ms: 10000,
                    peer_bidi_stream_count: 100,
                    peer_unidi_stream_count: 100,
                    datagram_receive_enabled: true,
                    stream_multi_receive_enabled: true,
                    server_migration_enabled: true,
                },
            },
            SetupAction::OpenStore,
            SetupAction::ReadCertificate(CredentialFile::Certificate),
            SetupAction::AcquireContainer {
                container: "msquic-async-example-client",
                provider: ProviderType::RsaFull,
                new_keyset: false,
            },
            SetupAction::ImportPrivateKey(CredentialFile::PrivateKey),
            SetupAction::BindPrivateKey {
                container: "msquic-async-example-client",
                provider: ProviderType::RsaFull,
                keep_open: true,
                key_spec: KeySpec::KeyExchange,
            },
            SetupAction::AddCertificate(CertAdd::Always),
            SetupAction::LoadCredential(
                CredentialConfig {
                    client: true,
                    no_certificate_validation: false,
                    credential: Credential::CertificateContext,
                    ca_certificate_file: None,
                },
            ),
            SetupAction::Return(Outcome::Completed),
        ],
{
    let profile = Profile::ClientPublicIp;
    let platform = Platform::Windows;
    let e0 = Seq::<SetupEvent>::empty();
    let e1 = e0.push(SetupEvent::Done);
    let e2 = e1.push(SetupEvent::Done);
    let e3 = e2.push(SetupEvent::Done);
    let e4 = e3.push(SetupEvent::Done);
    let e5 = e4.push(SetupEvent::Done);
    let e6 = e5.push(SetupEvent::Done);
    let e7 = e6.push(SetupEvent::Done);
    let e8 = e7.push(SetupEvent::Done);
    let e9 = e8.push(SetupEvent::Done);
    lemma_run_push(profile, platform, e0, SetupEvent::Done);
    lemma_run_push(profile, platform, e1, SetupEvent::Done);
    lemma_run_push(profile, platform, e2, SetupEvent::Done);
    lemma_run_push(profile, platform, e3, SetupEvent::Done);
    lemma_run_push(profile, platform, e4, SetupEvent::Done);
    lemma_run_push(profile, platform, e5, SetupEvent::Done);
    lemma_run_push(profile, platform, e6, SetupEvent::Done);
    lemma_run_push(profile, platform, e7, SetupEvent::Done);
    lemma_run_push(profile, platform, e8, SetupEvent::Done);
    assert(e9 =~= seq![
        SetupEvent::Done,
        SetupEvent::Done,
        SetupEvent::Done,
        SetupEvent::Done,
        SetupEvent::Done,
        SetupEvent::Done,
        SetupEvent::Done,
        SetupEvent::Done,
        SetupEvent::Done,
    ]);
}

/// The same where the container is not found: one with a new key set is acquired,
/// and from there on nothing differs.
pub proof fn law_client_course_with_a_new_container()
    ensures
        setup_run(
            Profile::ClientPublicIp,
            Platform::Windows,
            seq![
                SetupEvent::Done,
                SetupEvent::Done,
                SetupEvent::Done,
                SetupEvent::Done,
                SetupEvent::Failed,
                SetupEvent::Done,
                SetupEvent::Done,
                SetupEvent::Done,
                SetupEvent::Done,
                SetupEvent::Done,
            ],
        ) matches Some((setup, actions)) && setup.stage == Stage::Ended && actions == seq![
            SetupAction::OpenConfiguration {
                alpn: "h3",
                settings: Settings {
                    idle_timeout_ms: 10000,
                    peer_bidi_stream_count: 100,
                    peer_unidi_stream_count: 100,
                    datagram_receive_enabled: true,
                    stream_multi_receive_enabled: true,
                    server_migration_enabled: true,
                },
            },
            SetupAction::OpenStore,
            SetupAction::ReadCertificate(CredentialFile::Certificate),
            SetupAction::AcquireContainer {
                container: "msquic-async-example-client",
                provider: ProviderType::RsaFull,
                new_keyset: false,
            },
            SetupAction::AcquireContainer {
                container: "msquic-async-example-client",
                provider: ProviderType::RsaFull,
                new_keyset: true,
            },
            SetupAction::ImportPrivateKey(CredentialFile::PrivateKey),
            SetupAction::BindPrivateKey {
                container: "msquic-async-example-client",
                provider: ProviderType::RsaFull,
                keep_open: true,
                key_spec: KeySpec::KeyExchange,
            },
            SetupAction::AddCertificate(CertAdd::Always),
            SetupAction::LoadCredential(
                CredentialConfig {
                    client: true,
                    no_certificate_validation: false,
                    credential: Credential::CertificateContext,
                    ca_certificate_file: None,
                },
            ),
            SetupAction::Return(Outcome::Completed),
        ],
{
    let profile = Profile::ClientPublicIp;
    let platform = Platform::Windows;
    let e0 = Seq::<SetupEvent>::empty();
    let e1 = e0.push(SetupEvent::Done);
    let e2 = e1.push(SetupEvent::Done);
    let e3 = e2.push(SetupEvent::Done);
    let e4 = e3.push(SetupEvent::Done);
    let e5 = e4.push(SetupEvent::Failed);
    let e6 = e5.push(SetupEvent::Done);
    let e7 = e6.push(SetupEvent::Done);
    let e8 = e7.push(SetupEvent::Done);
    let e9 = e8.push(SetupEvent::Done);
    let e10 = e9.push(SetupEvent::Done);
    lemma_run_push(profile, platform, e0, SetupEvent::Done);
    lemma_run_push(profile, platform, e1, SetupEvent::Done);
    lemma_run_push(profile, platform, e2, SetupEvent::Done);
    lemma_run_push(profile, platform, e3, SetupEvent::Done);
    lemma_run_push(profile, platform, e4, SetupEvent::Failed);
    lemma_run_push(profile, platform, e5, SetupEvent::Done);
    lemma_run_push(profile, platform, e6, SetupEvent::Done);
    lemma_run_push(profile, platform, e7, SetupEvent::Done);
    lemma_run_push(profile, platform, e8, SetupEvent::Done);
    lemma_run_push(profile, platform, e9, SetupEvent::Done);
    assert(e10 =~= seq![
        SetupEvent::Done,
        SetupEvent::Done,
        SetupEvent::Done,
        SetupEvent::Done,
        SetupEvent::Failed,
        SetupEvent::Done,
        SetupEvent::Done,
        SetupEvent::Done,
        SetupEvent::Done,
        SetupEvent::Done,
    ]);
}

/// In the store a certificate is always read from the certificate's file and a
/// private key always imported from the key's; and the files are written in
/// turn, each when its own stage comes.  So it is in every step of every setup.
pub proof fn law_each_file_is_used_as_what_it_is(setup: Setup, event: SetupEvent)
    ensures
        next(setup, event) matches Some((after, action)) ==> {
            &&& action matches SetupAction::ImportPrivateKey(file) ==> file
                == CredentialFile::PrivateKey && after.stage == Stage::ImportingPrivateKey
            &&& action matches SetupAction::ReadCertificate(file) ==> file
                == CredentialFile::Certificate && after.stage == Stage::ReadingCertificate
            &&& action matches SetupAction::WriteTempFile(file) ==> after.stage == match file {
                CredentialFile::Certificate => Stage::WritingCertificate,
                CredentialFile::PrivateKey => Stage::WritingPrivateKey,
                CredentialFile::CaCertificate => Stage::WritingCaCertificate,
            }
        },
{
}

/// Which file holds what, wherever the server listens.
pub proof fn law_sources_of_the_files(file: CredentialFile, addr: Option<SocketAddr>)
    ensures
        source_name(Profile::Client, file) is None,
        source_name(Profile::ClientPublicIp, file) == Some(
            match file {
                CredentialFile::Certificate => "certs/client.crt"@,
                CredentialFile::PrivateKey => "certs/client.key"@,
                CredentialFile::CaCertificate => "certs/ca.crt"@,
            },
        ),
        source_name(Profile::ServerBehindNat { addr }, file) == match file {
            CredentialFile::Certificate => Some("cert.pem"@),
            CredentialFile::PrivateKey => Some("key.pem"@),
            CredentialFile::CaCertificate => None,
        },
{
}

/// What each stage takes, whatever the setup holds: a failure, unless it is over;
/// a path where a file is written, once the files before it are; and a plain
/// success everywhere else, a listener being the server's alone.
pub proof fn law_what_each_stage_takes(setup: Setup, path: String)
    ensures
        next(setup, SetupEvent::Failed) is None <==> setup.stage == Stage::Ended,
        next(setup, SetupEvent::Written(path)) is Some <==> {
            ||| setup.stage == Stage::WritingCertificate
            ||| setup.stage == Stage::WritingPrivateKey && setup.files.certificate is Some
            ||| setup.stage == Stage::WritingCaCertificate && setup.files.certificate is Some
                && setup.files.private_key is Some
        },
        next(setup, SetupEvent::Done) is None <==> {
            ||| setup.stage == Stage::Ended
            ||| setup.stage == Stage::WritingCertificate
            ||| setup.stage == Stage::WritingPrivateKey
            ||| setup.stage == Stage::WritingCaCertificate
            ||| setup.stage == Stage::CreatingListener && !(setup.profile is ServerBehindNat)
        },
{
}

/// No step changes which program is set up, or where; a step changes the paths
/// only by adding one that was written or by taking out one that is removed; and
/// a setup starts with none.
pub proof fn law_steps_keep_the_rest(setup: Setup, event: SetupEvent)
    ensures
        fresh(setup.profile, setup.platform).profile == setup.profile,
        fresh(setup.profile, setup.platform).platform == setup.platform,
        fresh(setup.profile, setup.platform).stage == Stage::OpeningRegistration,
        fresh(setup.profile, setup.platform).files == (TempFiles {
            certificate: None,
            private_key: None,
            ca_certificate: None,
        }),
        next(setup, event) matches Some((after, action)) ==> {
            &&& after.profile == setup.profile
            &&& after.platform == setup.platform
            &&& !(event is Written || action is RemoveTempFile) ==> after.files == setup.files
            &&& event matches SetupEvent::Written(path) ==> after.files == match setup.stage {
                Stage::WritingCertificate => TempFiles {
                    certificate: Some(path),
                    private_key: setup.files.private_key,
                    ca_certificate: setup.files.ca_certificate,
                },
                Stage::WritingPrivateKey => TempFiles {
                    certificate: setup.files.certificate,
                    private_key: Some(path),
                    ca_certificate: setup.files.ca_certificate,
                },
                _ => TempFiles {
                    certificate: setup.files.certificate,
                    private_key: setup.files.private_key,
                    ca_certificate: Some(path),
                },
            }
        },
{
}

/// The paths of a setup, in the order in which the files are written.
pub proof fn law_paths_are_those_of_the_files(
    certificate: String,
    private_key: String,
    ca_certificate: String,
)
    ensures
        ({
            let none = TempFiles { certificate: None, private_key: None, ca_certificate: None };
            let one = TempFiles { certificate: Some(certificate), ..none };
            let two = TempFiles { private_key: Some(private_key), ..one };
            let three = TempFiles { ca_certificate: Some(ca_certificate), ..two };
            &&& none.paths() == Seq::<String>::empty()
            &&& one.paths() == seq![certificate]
            &&& two.paths() == seq![certificate, private_key]
            &&& three.paths() == seq![certificate, private_key, ca_certificate]
        }),
{
    let none = TempFiles { certificate: None, private_key: None, ca_certificate: None };
    let one = TempFiles { certificate: Some(certificate), ..none };
    let two = TempFiles { private_key: Some(private_key), ..one };
    let three = TempFiles { ca_certificate: Some(ca_certificate), ..two };
    assert(none.paths() =~= Seq::<String>::empty());
    assert(one.paths() =~= seq![certificate]);
    assert(two.paths() =~= seq![certificate, private_key]);
    assert(three.paths() =~= seq![certificate, private_key, ca_certificate]);
}

/// While files are removed, it does not matter whether a removal succeeds.  The
/// file written last of those that are left is removed next, and forgotten, and
/// no other; where none is left the setup returns with the outcome that was
/// fixed before the first removal.
pub proof fn law_removal_goes_backwards(setup: Setup, outcome: Outcome)
    requires
        setup.stage == (Stage::RemovingFiles { outcome }),
    ensures
        next(setup, SetupEvent::Failed) == next(setup, SetupEvent::Done),
        next(setup, SetupEvent::Done) matches Some((after, action)) && match (
            setup.files.certificate,
            setup.files.private_key,
            setup.files.ca_certificate,
        ) {
            (None, None, None) => {
                &&& action == SetupAction::Return(outcome)
                &&& after.stage == Stage::Ended
                &&& after.files == setup.files
            },
            (Some(path), None, None) => {
                &&& action == SetupAction::RemoveTempFile(path)
                &&& after.stage == setup.stage
                &&& after.files.certificate is None
                &&& after.files.private_key is None
                &&& after.files.ca_certificate is None
            },
            (_, Some(path), None) => {
                &&& action == SetupAction::RemoveTempFile(path)
                &&& after.stage == setup.stage
                &&& after.files.certificate == setup.files.certificate
                &&& after.files.private_key is None
                &&& after.files.ca_certificate is None
            },
            (_, _, Some(path)) => {
                &&& action == SetupAction::RemoveTempFile(path)
                &&& after.stage == setup.stage
                &&& after.files.certificate == setup.files.certificate
                &&& after.files.private_key == setup.files.private_key
                &&& after.files.ca_certificate is None
            },
        },
{
}

/// What a failure leads to, whatever the setup holds.  In the certificate store
/// it panics, but for a container that is not found, for which one with a new key
/// set is tried.  Anywhere else the setup goes the way of one that removes its
/// files and then returns the failure.
pub proof fn law_what_a_failure_leads_to(setup: Setup)
    ensures
        setup.stage == Stage::OpeningStore || setup.stage == Stage::ReadingCertificate
            || setup.stage == (Stage::AcquiringContainer { new_keyset: true }) || setup.stage
            == Stage::ImportingPrivateKey || setup.stage == Stage::BindingPrivateKey || setup.stage
            == Stage::AddingCertificate ==> next(setup, SetupEvent::Failed) == Some(
            (Setup { stage: Stage::Ended, ..setup }, SetupAction::Panic),
        ),
        setup.stage == (Stage::AcquiringContainer { new_keyset: false }) ==> next(
            setup,
            SetupEvent::Failed,
        ) == Some(
            (
                Setup { stage: Stage::AcquiringContainer { new_keyset: true }, ..setup },
                SetupAction::AcquireContainer {
                    container: "msquic-async-example-client",
                    provider: ProviderType::RsaFull,
                    new_keyset: true,
                },
            ),
        ),
        setup.stage == Stage::OpeningRegistration || setup.stage == Stage::OpeningConfiguration
            || setup.stage == Stage::WritingCertificate || setup.stage == Stage::WritingPrivateKey
            || setup.stage == Stage::WritingCaCertificate || setup.stage == Stage::LoadingCredential
            || setup.stage == Stage::CreatingListener || setup.stage == Stage::StartingListener
            ==> next(setup, SetupEvent::Failed) == next(
            Setup { stage: Stage::RemovingFiles { outcome: Outcome::Failed }, ..setup },
            SetupEvent::Done,
        ),
{
}

/// What a success leads to at the end of the work: a client whose credential is
/// loaded, and the server whose listener is started, go the way of one that
/// removes its files and then returns successfully.
pub proof fn law_what_the_last_success_leads_to(setup: Setup)
    ensures
        setup.stage == Stage::StartingListener || (setup.stage == Stage::LoadingCredential
            && !(setup.profile is ServerBehindNat)) ==> next(setup, SetupEvent::Done) == next(
            Setup { stage: Stage::RemovingFiles { outcome: Outcome::Completed }, ..setup },
            SetupEvent::Done,
        ),
{
}

} // verus!
