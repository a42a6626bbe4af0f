//! The configuration that the programs hand to QUIC.
use vstd::prelude::*;

use crate::addr::SocketAddr;

verus! {

/// The application protocol: HTTP/3.
pub const ALPN: &'static str = "h3";

/// Which program is set up.
#[derive(Clone, Copy, Debug, PartialEq, Eq, Structural)]
pub enum Profile {
    /// The plain client.
    Client,
    /// The client that announces a public address.
    ClientPublicIp,
    /// The server behind a NAT, listening on `addr`.
    ServerBehindNat { addr: Option<SocketAddr> },
}

/// The settings of a QUIC configuration.
#[derive(Clone, Copy, Debug, PartialEq, Eq, Structural)]
pub struct Settings {
    pub idle_timeout_ms: u64,
    pub peer_bidi_stream_count: u16,
    pub peer_unidi_stream_count: u16,
    pub datagram_receive_enabled: bool,
    pub stream_multi_receive_enabled: bool,
    pub server_migration_enabled: bool,
}

/// The certificate that one end shows to the other.
#[derive(Debug, PartialEq, Eq)]
pub enum Credential {
    /// No certificate.
    Anonymous,
    /// One in a file, with its private key in another.
    CertificateFile { private_key_file: String, certificate_file: String },
    /// One in the certificate store of the system.
    CertificateContext,
}

/// How one end shows who it is and checks who the other is.
#[derive(Debug, PartialEq, Eq)]
pub struct CredentialConfig {
    /// Whether this is for a client.
    pub client: bool,
    /// Whether the certificate of the peer is accepted unchecked.
    pub no_certificate_validation: bool,
    pub credential: Credential,
    /// The file with the certificates by which the peer's is checked, where it
    /// is not the system that knows them.
    pub ca_certificate_file: Option<String>,
}

impl Profile {
    /// The settings of each program: they are the same but for the migration of
    /// the server, which the plain client does not follow.
    pub open spec fn quic_settings(self) -> Settings {
        Settings {
            idle_timeout_ms: 10000,
            peer_bidi_stream_count: 100,
            peer_unidi_stream_count: 100,
            datagram_receive_enabled: true,
            stream_multi_receive_enabled: true,
            server_migration_enabled: self != Profile::Client,
        }
    }

    /// The settings of the program.
    pub fn settings(&self) -> (r: Settings)
        ensures
            r == self.quic_settings(),
            r.server_migration_enabled <==> *self != Profile::Client,
    {
        let server_migration_enabled = match self {
            Profile::Client => false,
            _ => true,
        };
        Settings {
            idle_timeout_ms: 10000,
            peer_bidi_stream_count: 100,
            peer_unidi_stream_count: 100,
            datagram_receive_enabled: true,
            stream_multi_receive_enabled: true,
            server_migration_enabled,
        }
    }
}

/// Any two programs differ in nothing but the migration of the server, and the
/// client with a public address and the server in nothing at all.
pub proof fn law_settings_differ_in_migration_only(one: Profile, other: Profile)
    ensures
        one.quic_settings() == (Settings {
            server_migration_enabled: one.quic_settings().server_migration_enabled,
            ..other.quic_settings()
        }),
        one != Profile::Client && other != Profile::Client ==> one.quic_settings()
            == other.quic_settings(),
{
}

/// Every program has the same limits and takes datagrams and several receives
/// on one stream; all but the plain client follow the migration of the server,
/// wherever the server listens.
pub proof fn law_settings_of_every_program(profile: Profile)
    ensures
        profile.quic_settings().idle_timeout_ms == 10000,
        profile.quic_settings().peer_bidi_stream_count == 100,
        profile.quic_settings().peer_unidi_stream_count == 100,
        profile.quic_settings().datagram_receive_enabled,
        profile.quic_settings().stream_multi_receive_enabled,
        profile.quic_settings().server_migration_enabled <==> profile is ClientPublicIp
            || profile is ServerBehindNat,
{
}

} // verus!
