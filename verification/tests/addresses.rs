use nat_greeter::addr::{IpAddr, Ipv4Addr, Ipv6Addr, SocketAddr, SocketAddrV6};
use nat_greeter::program::{listen_addr, proxy_addr};

fn v6(bits: u128, port: u16) -> SocketAddr {
    SocketAddr::V6(SocketAddrV6 { ip: Ipv6Addr { bits }, port, flowinfo: 7, scope_id: 9 })
}

#[test]
fn loopback_is_the_whole_of_127_and_one_v6_address() {
    let v4 = |a, b, c, d| IpAddr::V4(Ipv4Addr { a, b, c, d });
    assert!(v4(127, 0, 0, 1).is_loopback());
    assert!(v4(127, 255, 255, 255).is_loopback());
    assert!(!v4(126, 255, 255, 255).is_loopback());
    assert!(!v4(128, 0, 0, 0).is_loopback());
    assert!(!v4(0, 0, 0, 0).is_loopback());
    assert!(IpAddr::V6(Ipv6Addr { bits: 1 }).is_loopback());
    assert!(!IpAddr::V6(Ipv6Addr { bits: 0 }).is_loopback());
    // ::ffff:127.0.0.1
    assert!(!IpAddr::V6(Ipv6Addr { bits: 0xffff_7f00_0001 }).is_loopback());
}

#[test]
fn set_port_changes_only_the_port() {
    let mut addr = SocketAddr::new_v4(192, 168, 0, 7, 80);
    addr.set_port(40000);
    assert_eq!(addr, SocketAddr::new_v4(192, 168, 0, 7, 40000));
    addr.set_port(80);
    assert_eq!(addr, SocketAddr::new_v4(192, 168, 0, 7, 80));

    let mut addr = v6(0xfe80, 1);
    addr.set_port(65535);
    assert_eq!(addr, v6(0xfe80, 65535));
    assert_eq!(addr.ip(), IpAddr::V6(Ipv6Addr { bits: 0xfe80 }));
}

#[test]
fn addresses_of_the_server() {
    assert_eq!(listen_addr(), SocketAddr::new_v4(127, 0, 0, 1, 5047));
    assert!(listen_addr().ip().is_loopback());
    assert_eq!(proxy_addr(), SocketAddr::new_v4(153, 127, 33, 247, 4443));
    assert!(!proxy_addr().ip().is_loopback());
}
