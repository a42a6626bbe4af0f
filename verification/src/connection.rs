//! What a QUIC connection reports about its paths.
use vstd::prelude::*;

use crate::addr::SocketAddr;

verus! {

/// An event of a connection.
#[derive(Clone, Copy, Debug, PartialEq, Eq, Structural)]
pub enum ConnectionEvent {
    /// The peer sees packets from `local_address` come from `observed_address`.
    NotifyObservedAddress { local_address: SocketAddr, observed_address: SocketAddr },
    /// The peer has offered another address of its own.
    NotifyRemoteAddressAdded { address: SocketAddr, sequence_number: u64 },
    /// Packets pass between the two addresses, both ways.
    PathValidated { local_address: SocketAddr, remote_address: SocketAddr },
    /// The peer has withdrawn an address that it had offered.
    NotifyRemoteAddressRemoved { sequence_number: u64 },
}

} // verus!
