use nat_greeter::addr::{Ipv6Addr, SocketAddr, SocketAddrV6};
use nat_greeter::client_task::{ClientTask, ClientTaskAction, ClientTaskEvent};
use nat_greeter::connection::ConnectionEvent;
use nat_greeter::proxy_watch::{BoundProxyEvent, ProxyWatch, ProxyWatchAction, ProxyWatchEvent};
use nat_greeter::server_task::{ServerTask, ServerTaskAction, ServerTaskEvent};
use nat_greeter::supervisor::{Supervisor, SupervisorAction, SupervisorEvent};
use nat_greeter::trace::Outcome;

fn lan(port: u16) -> SocketAddr {
    SocketAddr::new_v4(192, 168, 0, 7, port)
}

fn peer() -> SocketAddr {
    SocketAddr::new_v4(203, 0, 113, 5, 4443)
}

fn local(port: u16) -> SocketAddr {
    SocketAddr::new_v4(127, 0, 0, 1, port)
}

fn observed(local_address: SocketAddr, observed_address: SocketAddr) -> ClientTaskEvent {
    ClientTaskEvent::Connection(ConnectionEvent::NotifyObservedAddress {
        local_address,
        observed_address,
    })
}

fn validated(local_address: SocketAddr, remote_address: SocketAddr) -> ConnectionEvent {
    ConnectionEvent::PathValidated { local_address, remote_address }
}

#[test]
fn client_binds_and_announces() {
    let (mut task, action) = ClientTask::start();
    assert_eq!(action, ClientTaskAction::PollEvent);
    assert_eq!(
        task.step_on_port(observed(lan(5), peer()), 40000),
        Some(ClientTaskAction::AddBoundAddr(lan(40000))),
    );
    assert_eq!(
        task.step_on_port(ClientTaskEvent::BoundAddrRefused, 50000),
        Some(ClientTaskAction::AddBoundAddr(lan(50000))),
    );
    assert_eq!(
        task.step_on_port(ClientTaskEvent::BoundAddrAdded, 60000),
        Some(ClientTaskAction::AddObservedAddr {
            local_address: lan(50000),
            observed_address: lan(50000),
        }),
    );
    assert_eq!(
        task.step_on_port(ClientTaskEvent::ObservedAddrAdded, 60000),
        Some(ClientTaskAction::PollEvent),
    );
    assert_eq!(
        task.step_on_port(ClientTaskEvent::ConnectionGone, 60000),
        Some(ClientTaskAction::Return(Outcome::Completed)),
    );
    assert_eq!(task, ClientTask::Ended);
}

#[test]
fn client_keeps_the_rest_of_a_v6_address() {
    let at = |port| {
        SocketAddr::V6(SocketAddrV6 {
            ip: Ipv6Addr { bits: 0xfe80 << 112 },
            port,
            flowinfo: 3,
            scope_id: 4,
        })
    };
    let (mut task, _) = ClientTask::start();
    assert_eq!(
        task.step_on_port(observed(at(1), peer()), 33000),
        Some(ClientTaskAction::AddBoundAddr(at(33000))),
    );
}

#[test]
fn client_does_not_use_the_observed_address() {
    let (mut one, _) = ClientTask::start();
    let (mut other, _) = ClientTask::start();
    assert_eq!(
        one.step_on_port(observed(lan(5), peer()), 40000),
        other.step_on_port(observed(lan(5), local(1)), 40000),
    );
    assert_eq!(one, other);
}

#[test]
fn client_draws_high_ports() {
    let mut ports = Vec::new();
    let (mut task, _) = ClientTask::start();
    let mut action = task.step(observed(lan(5), peer()));
    for _ in 0..200 {
        match action {
            Some(ClientTaskAction::AddBoundAddr(SocketAddr::V4(v4))) => {
                assert!(v4.port >= 32768);
                assert_eq!(SocketAddr::V4(v4), lan(v4.port));
                ports.push(v4.port);
            }
            other => panic!("{other:?}"),
        }
        action = task.step(ClientTaskEvent::BoundAddrRefused);
    }
    ports.sort();
    ports.dedup();
    assert!(ports.len() > 100);
}

#[test]
fn client_only_notes_other_events() {
    let (mut task, _) = ClientTask::start();
    for event in [
        ConnectionEvent::NotifyRemoteAddressAdded { address: peer(), sequence_number: 1 },
        ConnectionEvent::NotifyRemoteAddressRemoved { sequence_number: 1 },
        validated(lan(1), peer()),
    ] {
        assert_eq!(
            task.step(ClientTaskEvent::Connection(event)),
            Some(ClientTaskAction::PollEvent),
        );
        assert_eq!(task, ClientTask::Polling);
    }
}

#[test]
fn client_fails_where_the_announcement_is_refused() {
    let (mut task, _) = ClientTask::start();
    task.step(observed(lan(5), peer()));
    task.step(ClientTaskEvent::BoundAddrAdded);
    assert_eq!(
        task.step(ClientTaskEvent::ObservedAddrRefused),
        Some(ClientTaskAction::Return(Outcome::Failed)),
    );
    assert_eq!(task.step(ClientTaskEvent::ConnectionGone), None);
    assert_eq!(task, ClientTask::Ended);
}

#[test]
fn client_takes_no_other_event_while_it_binds() {
    let (mut task, _) = ClientTask::start();
    assert_eq!(task.step(ClientTaskEvent::BoundAddrAdded), None);
    task.step_on_port(observed(lan(5), peer()), 40000);
    let before = task;
    assert_eq!(task.step(observed(lan(6), peer())), None);
    assert_eq!(task.step(ClientTaskEvent::ConnectionGone), None);
    assert_eq!(task.step(ClientTaskEvent::ObservedAddrAdded), None);
    assert_eq!(task, before);
}

#[test]
fn each_report_is_answered_once() {
    let (mut task, _) = ClientTask::start();
    let mut announced = 0;
    for port in [40000u16, 40001, 40002] {
        task.step_on_port(observed(lan(5), peer()), port);
        match task.step(ClientTaskEvent::BoundAddrAdded) {
            Some(ClientTaskAction::AddObservedAddr { local_address, observed_address }) => {
                assert_eq!(local_address, lan(port));
                assert_eq!(observed_address, lan(port));
                announced += 1;
            }
            other => panic!("{other:?}"),
        }
        task.step(ClientTaskEvent::ObservedAddrAdded);
    }
    assert_eq!(announced, 3);
}

#[test]
fn server_activates_usable_paths_in_order() {
    let (mut task, action) = ServerTask::start();
    assert_eq!(action, ServerTaskAction::AddLocalAddr(SocketAddr::new_v4(0, 0, 0, 0, 0)));
    assert_eq!(task.step(ServerTaskEvent::LocalAddrAdded), Some(ServerTaskAction::PollEvent));
    let mut activated = Vec::new();
    for event in [
        validated(lan(1), peer()),
        validated(local(2), peer()),
        ConnectionEvent::NotifyObservedAddress {
            local_address: lan(1),
            observed_address: peer(),
        },
        ConnectionEvent::NotifyRemoteAddressAdded { address: peer(), sequence_number: 0 },
        ConnectionEvent::NotifyRemoteAddressRemoved { sequence_number: 0 },
        validated(peer(), lan(3)),
    ] {
        match task.step(ServerTaskEvent::Connection(event)) {
            Some(ServerTaskAction::ActivatePath { local_address, remote_address }) => {
                activated.push((local_address, remote_address));
                assert_eq!(
                    task.step(ServerTaskEvent::PathActivated),
                    Some(ServerTaskAction::PollEvent),
                );
            }
            other => assert_eq!(other, Some(ServerTaskAction::PollEvent)),
        }
    }
    assert_eq!(activated, vec![(lan(1), peer()), (peer(), lan(3))]);
    assert_eq!(
        task.step(ServerTaskEvent::ConnectionGone),
        Some(ServerTaskAction::Return(Outcome::Completed)),
    );
    assert_eq!(task.step(ServerTaskEvent::ConnectionGone), None);
}

#[test]
fn server_needs_its_local_address_first() {
    let (mut task, _) = ServerTask::start();
    assert_eq!(task.step(ServerTaskEvent::Connection(validated(lan(1), peer()))), None);
    assert_eq!(task, ServerTask::AddingLocalAddr);
    assert_eq!(
        task.step(ServerTaskEvent::LocalAddrRefused),
        Some(ServerTaskAction::Return(Outcome::Failed)),
    );
    assert_eq!(task, ServerTask::Ended);
}

#[test]
fn server_fails_where_a_path_is_refused() {
    let (mut task, _) = ServerTask::start();
    task.step(ServerTaskEvent::LocalAddrAdded);
    task.step(ServerTaskEvent::Connection(validated(lan(1), peer())));
    assert_eq!(
        task.step(ServerTaskEvent::PathRefused),
        Some(ServerTaskAction::Return(Outcome::Failed)),
    );
}

#[test]
fn proxy_reports_are_forwarded_in_order() {
    let (mut watch, action) = ProxyWatch::start();
    assert_eq!(action, ProxyWatchAction::ReceiveEvent);
    assert_eq!(
        watch.step(ProxyWatchEvent::Proxy(BoundProxyEvent::NotifyPublicAddress(peer()))),
        Some(ProxyWatchAction::ReceiveEvent),
    );
    for (local_address, observed_address) in [(lan(1), peer()), (lan(2), local(3))] {
        let report = BoundProxyEvent::NotifyObservedAddress { local_address, observed_address };
        assert_eq!(
            watch.step(ProxyWatchEvent::Proxy(report)),
            Some(ProxyWatchAction::Forward { local_address, observed_address }),
        );
        assert_eq!(watch.step(ProxyWatchEvent::ProxyClosed), None);
        assert_eq!(
            watch.step(ProxyWatchEvent::Forwarded),
            Some(ProxyWatchAction::ReceiveEvent),
        );
    }
    assert_eq!(
        watch.step(ProxyWatchEvent::ProxyClosed),
        Some(ProxyWatchAction::Return(Outcome::Completed)),
    );
    assert_eq!(watch.step(ProxyWatchEvent::ProxyClosed), None);
}

#[test]
fn proxy_watch_fails_where_nobody_listens() {
    let (mut watch, _) = ProxyWatch::start();
    watch.step(ProxyWatchEvent::Proxy(BoundProxyEvent::NotifyObservedAddress {
        local_address: lan(1),
        observed_address: peer(),
    }));
    assert_eq!(
        watch.step(ProxyWatchEvent::ForwardRefused),
        Some(ProxyWatchAction::Return(Outcome::Failed)),
    );
    assert_eq!(watch, ProxyWatch::Ended);
}

#[test]
fn every_connection_is_watched() {
    let (mut supervisor, action) = Supervisor::start_client();
    assert_eq!(action, SupervisorAction::ReceiveConnection);
    for _ in 0..3 {
        assert_eq!(
            supervisor.step(SupervisorEvent::ConnectionOpened),
            Some(SupervisorAction::WatchConnection),
        );
    }
    assert_eq!(supervisor.step(SupervisorEvent::TasksJoined), None);
    assert_eq!(
        supervisor.step(SupervisorEvent::ConnectionsClosed),
        Some(SupervisorAction::JoinTasks),
    );
    assert_eq!(supervisor.step(SupervisorEvent::ConnectionOpened), None);
    assert_eq!(
        supervisor.step(SupervisorEvent::TasksJoined),
        Some(SupervisorAction::Return(Outcome::Completed)),
    );
    assert_eq!(supervisor.step(SupervisorEvent::TasksJoined), None);
}

#[test]
fn server_waits_for_an_observed_address() {
    let (mut supervisor, action) = Supervisor::start_server();
    assert_eq!(action, SupervisorAction::AwaitAddress);
    assert_eq!(supervisor.step(SupervisorEvent::ConnectionOpened), None);
    assert_eq!(
        supervisor.step(SupervisorEvent::AddressObserved {
            local_address: lan(1),
            observed_address: peer(),
        }),
        Some(SupervisorAction::ReceiveConnection),
    );
    assert_eq!(supervisor, Supervisor::start_client().0);
    assert_eq!(
        supervisor.step(SupervisorEvent::ConnectionOpened),
        Some(SupervisorAction::WatchConnection),
    );
}

#[test]
fn server_gives_up_without_an_observed_address() {
    let (mut supervisor, _) = Supervisor::start_server();
    assert_eq!(
        supervisor.step(SupervisorEvent::AddressClosed),
        Some(SupervisorAction::Return(Outcome::Completed)),
    );
    assert_eq!(supervisor.step(SupervisorEvent::ConnectionOpened), None);
    assert_eq!(supervisor, Supervisor::Ended);
}
