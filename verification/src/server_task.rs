//! The task that the server runs for each connection.
//!
//! It asks the connection to listen on every local address, and then moves the
//! connection to each path that is validated on an address other than
//! loopback.
use vstd::prelude::*;

use crate::addr::{Ipv4Addr, SocketAddr, SocketAddrV4, SocketAddrV6};
use crate::connection::ConnectionEvent;
use crate::trace::Outcome;

verus! {

/// What the task waits for.
#[derive(Clone, Copy, Debug, PartialEq, Eq, Structural)]
pub enum ServerTask {
    /// For the local address to be added.
    AddingLocalAddr,
    /// For the next event of the connection.
    Polling,
    /// For a path to be activated.
    Activating,
    /// For nothing: the task has ended.
    Ended,
}

/// What happens to the task.
#[derive(Clone, Copy, Debug, PartialEq, Eq, Structural)]
pub enum ServerTaskEvent {
    LocalAddrAdded,
    LocalAddrRefused,
    /// The connection reports an event.
    Connection(ConnectionEvent),
    /// The connection reports no more events.
    ConnectionGone,
    PathActivated,
    PathRefused,
}

/// What the task asks for.
#[derive(Clone, Copy, Debug, PartialEq, Eq, Structural)]
pub enum ServerTaskAction {
    /// Add a local address to the connection.
    AddLocalAddr(SocketAddr),
    /// Wait for the next event of the connection.
    PollEvent,
    /// Move the connection to a path.
    ActivatePath { local_address: SocketAddr, remote_address: SocketAddr },
    /// End the task.
    Return(Outcome),
}

/// `0.0.0.0:0`: every local address, on a port that the system picks.
pub open spec fn unspecified() -> SocketAddr {
    SocketAddr::V4(SocketAddrV4 { ip: Ipv4Addr { a: 0, b: 0, c: 0, d: 0 }, port: 0 })
}

/// The machine of the task.
pub open spec fn next(
    task: ServerTask,
    event: ServerTaskEvent,
) -> Option<(ServerTask, ServerTaskAction)> {
    match (task, event) {
        (ServerTask::AddingLocalAddr, ServerTaskEvent::LocalAddrAdded) => Some(
            (ServerTask::Polling, ServerTaskAction::PollEvent),
        ),
        (ServerTask::AddingLocalAddr, ServerTaskEvent::LocalAddrRefused) => Some(
            (ServerTask::Ended, ServerTaskAction::Return(Outcome::Failed)),
        ),
        (ServerTask::Polling, ServerTaskEvent::ConnectionGone) => Some(
            (ServerTask::Ended, ServerTaskAction::Return(Outcome::Completed)),
        ),
        (
            ServerTask::Polling,
            ServerTaskEvent::Connection(
                ConnectionEvent::PathValidated { local_address, remote_address },
            ),
        ) => if local_address.host().loopback() {
            Some((ServerTask::Polling, ServerTaskAction::PollEvent))
        } else {
            Some(
                (
                    ServerTask::Activating,
                    ServerTaskAction::ActivatePath { local_address, remote_address },
                ),
            )
        },
        (ServerTask::Polling, ServerTaskEvent::Connection(_)) => Some(
            (ServerTask::Polling, ServerTaskAction::PollEvent),
        ),
        (ServerTask::Activating, ServerTaskEvent::PathActivated) => Some(
            (ServerTask::Polling, ServerTaskAction::PollEvent),
        ),
        (ServerTask::Activating, ServerTaskEvent::PathRefused) => Some(
            (ServerTask::Ended, ServerTaskAction::Return(Outcome::Failed)),
        ),
        _ => None,
    }
}

impl ServerTask {
    /// Starts the task: the first thing it asks for is to be reachable on
    /// every local address.
    pub fn start() -> (r: (ServerTask, ServerTaskAction))
        ensures
            r == (ServerTask::AddingLocalAddr, ServerTaskAction::AddLocalAddr(unspecified())),
            r.1 == ServerTaskAction::AddLocalAddr(
                SocketAddr::V4(
                    SocketAddrV4 { ip: Ipv4Addr { a: 0, b: 0, c: 0, d: 0 }, port: 0 },
                ),
            ),
    {
        (
            ServerTask::AddingLocalAddr,
            ServerTaskAction::AddLocalAddr(SocketAddr::new_v4(0, 0, 0, 0, 0)),
        )
    }

    /// Takes in an event and gives the next action.  An event that the task
    /// does not wait for changes nothing and gives none.
    pub fn step(&mut self, event: ServerTaskEvent) -> (action: Option<ServerTaskAction>)
        ensures
            crate::trace::stepped(*old(self), *final(self), action, next(*old(self), event)),
    {
        let (task, action) = match (*self, event) {
            (ServerTask::AddingLocalAddr, ServerTaskEvent::LocalAddrAdded) => (
                ServerTask::Polling,
                ServerTaskAction::PollEvent,
            ),
            (ServerTask::AddingLocalAddr, ServerTaskEvent::LocalAddrRefused) => (
                ServerTask::Ended,
                ServerTaskAction::Return(Outcome::Failed),
            ),
            (ServerTask::Polling, ServerTaskEvent::ConnectionGone) => (
                ServerTask::Ended,
                ServerTaskAction::Return(Outcome::Completed),
            ),
            (
                ServerTask::Polling,
                ServerTaskEvent::Connection(
                    ConnectionEvent::PathValidated { local_address, remote_address },
                ),
            ) => if !local_address.ip().is_loopback() {
                (
                    ServerTask::Activating,
                    ServerTaskAction::ActivatePath { local_address, remote_address },
                )
            } else {
                (ServerTask::Polling, ServerTaskAction::PollEvent)
            },
            (ServerTask::Polling, ServerTaskEvent::Connection(_)) => (
                ServerTask::Polling,
                ServerTaskAction::PollEvent,
            ),
            (ServerTask::Activating, ServerTaskEvent::PathActivated) => (
                ServerTask::Polling,
                ServerTaskAction::PollEvent,
            ),
            (ServerTask::Activating, ServerTaskEvent::PathRefused) => (
                ServerTask::Ended,
                ServerTaskAction::Return(Outcome::Failed),
            ),
            _ => {
                return None;
            },
        };
        *self = task;
        Some(action)
    }
}

/// The run of a fresh task over a sequence of events.
pub open spec fn task_run(events: Seq<ServerTaskEvent>) -> Option<
    (ServerTask, Seq<ServerTaskAction>),
> {
    crate::trace::run(
        |task: ServerTask, event: ServerTaskEvent| next(task, event),
        ServerTask::AddingLocalAddr,
        events,
    )
}

/// The paths that are validated on an address other than loopback, in order.
pub open spec fn usable_paths(events: Seq<ServerTaskEvent>) -> Seq<(SocketAddr, SocketAddr)>
    decreases events.len(),
{
    if events.len() == 0 {
        Seq::empty()
    } else {
        let before = usable_paths(events.drop_last());
        match events.last() {
            ServerTaskEvent::Connection(
                ConnectionEvent::PathValidated { local_address, remote_address },
            ) => if local_address.host().loopback() {
                before
            } else {
                before.push((local_address, remote_address))
            },
            _ => before,
        }
    }
}

/// The paths that the actions activate, in order.
pub open spec fn activated_paths(actions: Seq<ServerTaskAction>) -> Seq<(SocketAddr, SocketAddr)>
    decreases actions.len(),
{
    if actions.len() == 0 {
        Seq::empty()
    } else {
        let before = activated_paths(actions.drop_last());
        match actions.last() {
            ServerTaskAction::ActivatePath { local_address, remote_address } => before.push(
                (local_address, remote_address),
            ),
            _ => before,
        }
    }
}

/// In every run the task activates the paths that were validated on an address
/// other than loopback: all of them, no others, in that order.
pub proof fn law_usable_paths_are_activated(events: Seq<ServerTaskEvent>)
    ensures
        task_run(events) matches Some((_, actions)) ==> activated_paths(actions) == usable_paths(
            events,
        ),
    decreases events.len(),
{
    if events.len() > 0 {
        law_usable_paths_are_activated(events.drop_last());
        if let Some((_, actions)) = task_run(events) {
            assert(actions.drop_last() =~= task_run(events.drop_last())->Some_0.1);
        }
    }
}

/// No run activates a path on a loopback address.
pub proof fn law_no_loopback_path_is_activated(events: Seq<ServerTaskEvent>, i: int)
    requires
        task_run(events) is Some,
        0 <= i < task_run(events)->Some_0.1.len(),
    ensures
        task_run(events)->Some_0.1[i] matches ServerTaskAction::ActivatePath { local_address, .. }
            ==> !local_address.host().loopback(),
    decreases events.len(),
{
    crate::trace::lemma_run_len(
        |task: ServerTask, event: ServerTaskEvent| next(task, event),
        ServerTask::AddingLocalAddr,
        events,
    );
    let before = task_run(events.drop_last())->Some_0.1;
    let actions = task_run(events)->Some_0.1;
    if i < before.len() {
        assert(actions[i] == before[i]);
        law_no_loopback_path_is_activated(events.drop_last(), i);
    }
}

/// The task does nothing before its local address is added: the first event
/// of every run says how that went, and where it was refused the run is over.
pub proof fn law_local_addr_comes_first(events: Seq<ServerTaskEvent>)
    requires
        task_run(events) is Some,
        events.len() > 0,
    ensures
        events[0] == ServerTaskEvent::LocalAddrAdded || (events
            == seq![ServerTaskEvent::LocalAddrRefused] && task_run(events)->Some_0.1
            == seq![ServerTaskAction::Return(Outcome::Failed)]),
    decreases events.len(),
{
    let before = events.drop_last();
    reveal_with_fuel(crate::trace::run, 3);
    if before.len() > 0 {
        law_local_addr_comes_first(before);
    } else {
        assert(events =~= seq![events[0]]);
        assert(task_run(before) == Some(
            (ServerTask::AddingLocalAddr, Seq::<ServerTaskAction>::empty()),
        ));
    }
}

/// The task ends once, and nothing follows: in every run only the last action
/// can be a return, and the task has ended exactly if it is one.
pub proof fn law_return_comes_last(events: Seq<ServerTaskEvent>, i: int)
    requires
        task_run(events) is Some,
        0 <= i < events.len(),
    ensures
        (task_run(events)->Some_0.1[i] is Return) == (i == events.len() - 1
            && task_run(events)->Some_0.0 == ServerTask::Ended),
    decreases events.len(),
{
    crate::trace::lemma_run_len(
        |task: ServerTask, event: ServerTaskEvent| next(task, event),
        ServerTask::AddingLocalAddr,
        events.drop_last(),
    );
    if i < events.len() - 1 {
        law_return_comes_last(events.drop_last(), i);
        law_return_comes_last(events.drop_last(), events.len() - 2);
    }
}

/// A path validated on an IPv4 address is activated exactly if the first octet
/// of the address is not 127, and one on an IPv6 address exactly if the address
/// is not `::1`; neither the ports nor the remote address matter.  A path is
/// activated as it was validated, and one that is not is passed over.
pub proof fn law_path_is_activated_unless_on_loopback(
    v4: SocketAddrV4,
    v6: SocketAddrV6,
    remote_address: SocketAddr,
)
    ensures
        next(
            ServerTask::Polling,
            ServerTaskEvent::Connection(
                ConnectionEvent::PathValidated { local_address: SocketAddr::V4(v4), remote_address },
            ),
        ) == Some(
            if v4.ip.a == 127 {
                (ServerTask::Polling, ServerTaskAction::PollEvent)
            } else {
                (
                    ServerTask::Activating,
                    ServerTaskAction::ActivatePath {
                        local_address: SocketAddr::V4(v4),
                        remote_address,
                    },
                )
            },
        ),
        next(
            ServerTask::Polling,
            ServerTaskEvent::Connection(
                ConnectionEvent::PathValidated { local_address: SocketAddr::V6(v6), remote_address },
            ),
        ) == Some(
            if v6.ip.bits == 1 {
                (ServerTask::Polling, ServerTaskAction::PollEvent)
            } else {
                (
                    ServerTask::Activating,
                    ServerTaskAction::ActivatePath {
                        local_address: SocketAddr::V6(v6),
                        remote_address,
                    },
                )
            },
        ),
{
}

/// The task is never stuck, and never takes what it does not wait for: in each
/// state it takes exactly the events that can answer its last action, whatever
/// addresses they hold.
pub proof fn law_each_state_takes_its_answers(task: ServerTask, event: ServerTaskEvent)
    ensures
        task == ServerTask::AddingLocalAddr ==> (next(task, event) is Some <==> event
            is LocalAddrAdded || event is LocalAddrRefused),
        task == ServerTask::Polling ==> (next(task, event) is Some <==> event is Connection
            || event is ConnectionGone),
        task == ServerTask::Activating ==> (next(task, event) is Some <==> event is PathActivated
            || event is PathRefused),
        task == ServerTask::Ended ==> next(task, event) is None,
{
}

/// Whatever a connection reports but a validated path is passed over, and once
/// the local address is added or a path is activated the task polls on.
pub proof fn law_the_task_polls_on(report: ConnectionEvent)
    ensures
        !(report is PathValidated) ==> next(
            ServerTask::Polling,
            ServerTaskEvent::Connection(report),
        ) == Some((ServerTask::Polling, ServerTaskAction::PollEvent)),
        next(ServerTask::AddingLocalAddr, ServerTaskEvent::LocalAddrAdded) == Some(
            (ServerTask::Polling, ServerTaskAction::PollEvent),
        ),
        next(ServerTask::Activating, ServerTaskEvent::PathActivated) == Some(
            (ServerTask::Polling, ServerTaskAction::PollEvent),
        ),
{
}

/// Only three things end the task: the end of the connection, with success, and
/// the refusal of the local address or of a path, with failure.  In every run
/// the actions that answer these, and no others, are returns.
pub proof fn law_what_ends_the_task(events: Seq<ServerTaskEvent>, i: int)
    requires
        task_run(events) is Some,
        0 <= i < events.len(),
    ensures
        task_run(events)->Some_0.1[i] == ServerTaskAction::Return(Outcome::Completed) <==> events[i]
            == ServerTaskEvent::ConnectionGone,
        task_run(events)->Some_0.1[i] == ServerTaskAction::Return(Outcome::Failed) <==> events[i]
            == ServerTaskEvent::LocalAddrRefused || events[i] == ServerTaskEvent::PathRefused,
    decreases events.len(),
{
    crate::trace::lemma_run_len(
        |task: ServerTask, event: ServerTaskEvent| next(task, event),
        ServerTask::AddingLocalAddr,
        events.drop_last(),
    );
    if i < events.len() - 1 {
        law_what_ends_the_task(events.drop_last(), i);
    }
}

/// A fresh task waits to hear of its local address.
pub proof fn law_fresh_task_awaits_its_address()
    ensures
        task_run(Seq::empty()) == Some(
            (ServerTask::AddingLocalAddr, Seq::<ServerTaskAction>::empty()),
        ),
{
    reveal_with_fuel(crate::trace::run, 1);
}

} // verus!
