//! Socket addresses as plain values.
use vstd::prelude::*;

verus! {

/// An IPv4 address: its octets, most significant first.
#[derive(Clone, Copy, Debug, PartialEq, Eq, Structural)]
pub struct Ipv4Addr {
    pub a: u8,
    pub b: u8,
    pub c: u8,
    pub d: u8,
}

/// An IPv6 address: its bits, most significant first.
#[derive(Clone, Copy, Debug, PartialEq, Eq, Structural)]
pub struct Ipv6Addr {
    pub bits: u128,
}

/// An IP address of either family.
#[derive(Clone, Copy, Debug, PartialEq, Eq, Structural)]
pub enum IpAddr {
    V4(Ipv4Addr),
    V6(Ipv6Addr),
}

/// An IPv4 socket address.
#[derive(Clone, Copy, Debug, PartialEq, Eq, Structural)]
pub struct SocketAddrV4 {
    pub ip: Ipv4Addr,
    pub port: u16,
}

/// An IPv6 socket address, with its flow information and its scope.
#[derive(Clone, Copy, Debug, PartialEq, Eq, Structural)]
pub struct SocketAddrV6 {
    pub ip: Ipv6Addr,
    pub port: u16,
    pub flowinfo: u32,
    pub scope_id: u32,
}

/// A socket address of either family.
#[derive(Clone, Copy, Debug, PartialEq, Eq, Structural)]
pub enum SocketAddr {
    V4(SocketAddrV4),
    V6(SocketAddrV6),
}

impl IpAddr {
    /// The loopback addresses are those of `127.0.0.0/8`, and `::1`.
    pub open spec fn loopback(self) -> bool {
        match self {
            IpAddr::V4(v4) => v4.a == 127,
            IpAddr::V6(v6) => v6.bits == 1,
        }
    }

    /// Whether this is a loopback address.
    pub fn is_loopback(&self) -> (r: bool)
        ensures
            match *self {
                IpAddr::V4(v4) => r <==> v4.a == 127,
                IpAddr::V6(v6) => r <==> v6.bits == 1,
            },
            r == self.loopback(),
    {
        match self {
            IpAddr::V4(v4) => v4.a == 127,
            IpAddr::V6(v6) => v6.bits == 1,
        }
    }
}

impl SocketAddr {
    /// The host part.
    pub open spec fn host(self) -> IpAddr {
        match self {
            SocketAddr::V4(v4) => IpAddr::V4(v4.ip),
            SocketAddr::V6(v6) => IpAddr::V6(v6.ip),
        }
    }

    /// The port part.
    pub open spec fn port_number(self) -> u16 {
        match self {
            SocketAddr::V4(v4) => v4.port,
            SocketAddr::V6(v6) => v6.port,
        }
    }

    /// The same address on another port: every other part is kept.
    pub open spec fn on_port(self, port: u16) -> SocketAddr {
        match self {
            SocketAddr::V4(v4) => SocketAddr::V4(SocketAddrV4 { port, ..v4 }),
            SocketAddr::V6(v6) => SocketAddr::V6(SocketAddrV6 { port, ..v6 }),
        }
    }

    /// The IPv4 socket address `a.b.c.d:port`.
    pub fn new_v4(a: u8, b: u8, c: u8, d: u8, port: u16) -> (r: SocketAddr)
        ensures
            r == SocketAddr::V4(SocketAddrV4 { ip: Ipv4Addr { a, b, c, d }, port }),
    {
        SocketAddr::V4(SocketAddrV4 { ip: Ipv4Addr { a, b, c, d }, port })
    }

    /// The host part of this address.
    pub fn ip(&self) -> (r: IpAddr)
        ensures
            r == self.host(),
            match *self {
                SocketAddr::V4(v4) => r == IpAddr::V4(v4.ip),
                SocketAddr::V6(v6) => r == IpAddr::V6(v6.ip),
            },
    {
        match self {
            SocketAddr::V4(v4) => IpAddr::V4(v4.ip),
            SocketAddr::V6(v6) => IpAddr::V6(v6.ip),
        }
    }

    /// Changes the port, and nothing else.
    pub fn set_port(&mut self, port: u16)
        ensures
            *final(self) == old(self).on_port(port),
            match *old(self) {
                SocketAddr::V4(v4) => *final(self) == SocketAddr::V4(
                    SocketAddrV4 { ip: v4.ip, port },
                ),
                SocketAddr::V6(v6) => *final(self) == SocketAddr::V6(
                    SocketAddrV6 { ip: v6.ip, port, flowinfo: v6.flowinfo, scope_id: v6.scope_id },
                ),
            },
    {
        match self {
            SocketAddr::V4(v4) => {
                v4.port = port;
            },
            SocketAddr::V6(v6) => {
                v6.port = port;
            },
        }
    }
}

/// Changing the port leaves the host as it is, so it turns no loopback address
/// into another one and no other one into a loopback address.  The new port
/// reads back, the last change wins, and setting the port that an address has
/// changes nothing.
pub proof fn law_only_the_port_changes(addr: SocketAddr, first: u16, second: u16)
    ensures
        addr.on_port(first).host() == addr.host(),
        addr.on_port(first).host().loopback() == addr.host().loopback(),
        addr.on_port(first).port_number() == first,
        addr.on_port(first).on_port(second) == addr.on_port(second),
        addr.on_port(addr.port_number()) == addr,
{
}

/// A socket address is known by the port and by what it is on any one port.
pub proof fn law_port_and_rest_identify(x: SocketAddr, y: SocketAddr, port: u16)
    ensures
        x == y <==> x.port_number() == y.port_number() && x.on_port(port) == y.on_port(port),
{
}

/// The IPv4 loopback addresses are those from `127.0.0.0` to `127.255.255.255`,
/// whatever the last three octets are; the one of IPv6 is `::1`.  No address
/// that a private network or the public one has is among them.
pub proof fn law_loopback_is_the_network_127(a: u8, b: u8, c: u8, d: u8, bits: u128)
    ensures
        IpAddr::V4(Ipv4Addr { a, b, c, d }).loopback() <==> a == 127,
        IpAddr::V4(Ipv4Addr { a, b, c, d }).loopback() <==> 127 * 0x100_0000 <= a * 0x100_0000 + b
            * 0x1_0000 + c * 0x100 + d < 128 * 0x100_0000,
        IpAddr::V6(Ipv6Addr { bits }).loopback() <==> bits == 1,
{
}

/// A socket address is made of its parts: each reads back as it was put in, and
/// on another port the address has that port and every other part unchanged.
pub proof fn law_parts_read_back(
    v4: Ipv4Addr,
    v6: Ipv6Addr,
    port: u16,
    flowinfo: u32,
    scope_id: u32,
    other: u16,
)
    ensures
        ({
            let addr = SocketAddr::V4(SocketAddrV4 { ip: v4, port });
            &&& addr.host() == IpAddr::V4(v4)
            &&& addr.port_number() == port
            &&& addr.on_port(other) == SocketAddr::V4(SocketAddrV4 { ip: v4, port: other })
        }),
        ({
            let addr = SocketAddr::V6(SocketAddrV6 { ip: v6, port, flowinfo, scope_id });
            &&& addr.host() == IpAddr::V6(v6)
            &&& addr.port_number() == port
            &&& addr.on_port(other) == SocketAddr::V6(
                SocketAddrV6 { ip: v6, port: other, flowinfo, scope_id },
            )
        }),
{
}

} // verus!
