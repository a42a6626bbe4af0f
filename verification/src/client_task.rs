//! The task that the client with a public address runs for each connection.
//!
//! Whenever the peer reports the address that it observes, the task binds the
//! connection to the same local address on a random high port, draws another
//! port as long as it is refused, and then announces the address that it bound.
use vstd::prelude::*;

use crate::addr::SocketAddr;
use crate::connection::ConnectionEvent;
use crate::trace::Outcome;
use rand::Rng;

verus! {

/// The lowest port that the task picks.
pub const FIRST_PORT: u16 = 32768;

/// The highest port that the task picks.
pub const LAST_PORT: u16 = 65535;

/// What the task waits for.
#[derive(Clone, Copy, Debug, PartialEq, Eq, Structural)]
pub enum ClientTask {
    /// For the next event of the connection.
    Polling,
    /// For `candidate`, the local address on some port, to be bound.
    Binding { local_address: SocketAddr, candidate: SocketAddr },
    /// For the bound address to be announced.
    Announcing,
    /// For nothing: the task has ended.
    Ended,
}

/// What happens to the task.
#[derive(Clone, Copy, Debug, PartialEq, Eq, Structural)]
pub enum ClientTaskEvent {
    /// The connection reports an event.
    Connection(ConnectionEvent),
    /// The connection reports no more events.
    ConnectionGone,
    BoundAddrAdded,
    BoundAddrRefused,
    ObservedAddrAdded,
    ObservedAddrRefused,
}

/// What the task asks for.
#[derive(Clone, Copy, Debug, PartialEq, Eq, Structural)]
pub enum ClientTaskAction {
    /// Wait for the next event of the connection.
    PollEvent,
    /// Bind the connection to one more local address.
    AddBoundAddr(SocketAddr),
    /// Announce `observed_address` as the address under which `local_address`
    /// is reached.
    AddObservedAddr { local_address: SocketAddr, observed_address: SocketAddr },
    /// End the task.
    Return(Outcome),
}

/// The machine of the task.  `port` is the port to try next, where one is
/// tried.
pub open spec fn next(
    task: ClientTask,
    event: ClientTaskEvent,
    port: u16,
) -> Option<(ClientTask, ClientTaskAction)> {
    match (task, event) {
        (
            ClientTask::Polling,
            ClientTaskEvent::Connection(
                ConnectionEvent::NotifyObservedAddress { local_address, .. },
            ),
        ) => Some(bind(local_address, port)),
        (ClientTask::Polling, ClientTaskEvent::Connection(_)) => Some(
            (ClientTask::Polling, ClientTaskAction::PollEvent),
        ),
        (ClientTask::Polling, ClientTaskEvent::ConnectionGone) => Some(
            (ClientTask::Ended, ClientTaskAction::Return(Outcome::Completed)),
        ),
        (ClientTask::Binding { local_address, .. }, ClientTaskEvent::BoundAddrRefused) => Some(
            bind(local_address, port),
        ),
        (ClientTask::Binding { candidate, .. }, ClientTaskEvent::BoundAddrAdded) => Some(
            (
                ClientTask::Announcing,
                ClientTaskAction::AddObservedAddr {
                    local_address: candidate,
                    observed_address: candidate,
                },
            ),
        ),
        (ClientTask::Announcing, ClientTaskEvent::ObservedAddrAdded) => Some(
            (ClientTask::Polling, ClientTaskAction::PollEvent),
        ),
        (ClientTask::Announcing, ClientTaskEvent::ObservedAddrRefused) => Some(
            (ClientTask::Ended, ClientTaskAction::Return(Outcome::Failed)),
        ),
        _ => None,
    }
}

/// The attempt to bind a local address on a port.
pub open spec fn bind(local_address: SocketAddr, port: u16) -> (ClientTask, ClientTaskAction) {
    let candidate = local_address.on_port(port);
    (ClientTask::Binding { local_address, candidate }, ClientTaskAction::AddBoundAddr(candidate))
}

/// Whether the machine tries a port at this event.
pub open spec fn tries_port(task: ClientTask, event: ClientTaskEvent) -> bool {
    match (task, event) {
        (
            ClientTask::Polling,
            ClientTaskEvent::Connection(ConnectionEvent::NotifyObservedAddress { .. }),
        ) => true,
        (ClientTask::Binding { .. }, ClientTaskEvent::BoundAddrRefused) => true,
        _ => false,
    }
}

/// `Rng::gen_range` of the `rand` crate, on the generator of `thread_rng` and
/// an inclusive range.  It panics on an empty range; on any other it gives a
/// number of that range, and which one is left to chance.  `thread_rng` itself
/// panics where the system gives the generator no seed.
#[verifier::external_body]
fn gen_range(low: u16, high: u16) -> (r: u16)
    requires
        low <= high,
    ensures
        low <= r <= high,
{
    rand::thread_rng().gen_range(low..=high)
}

impl ClientTask {
    /// Starts the task: the first thing it asks for is an event.
    pub fn start() -> (r: (ClientTask, ClientTaskAction))
        ensures
            r == (ClientTask::Polling, ClientTaskAction::PollEvent),
    {
        (ClientTask::Polling, ClientTaskAction::PollEvent)
    }

    /// Takes in an event and gives the next action; where a port is tried, it
    /// is `port`.  An event that the task does not wait for changes nothing and
    /// gives no action.
    pub fn step_on_port(&mut self, event: ClientTaskEvent, port: u16) -> (action: Option<
        ClientTaskAction,
    >)
        ensures
            crate::trace::stepped(*old(self), *final(self), action, next(*old(self), event, port)),
    {
        let (task, action) = match (*self, event) {
            (
                ClientTask::Polling,
                ClientTaskEvent::Connection(
                    ConnectionEvent::NotifyObservedAddress { local_address, .. },
                ),
            ) => Self::try_port(local_address, port),
            (ClientTask::Polling, ClientTaskEvent::Connection(_)) => (
                ClientTask::Polling,
                ClientTaskAction::PollEvent,
            ),
            (ClientTask::Polling, ClientTaskEvent::ConnectionGone) => (
                ClientTask::Ended,
                ClientTaskAction::Return(Outcome::Completed),
            ),
            (ClientTask::Binding { local_address, .. }, ClientTaskEvent::BoundAddrRefused) =>
                Self::try_port(local_address, port),
            (ClientTask::Binding { candidate, .. }, ClientTaskEvent::BoundAddrAdded) => (
                ClientTask::Announcing,
                ClientTaskAction::AddObservedAddr {
                    local_address: candidate,
                    observed_address: candidate,
                },
            ),
            (ClientTask::Announcing, ClientTaskEvent::ObservedAddrAdded) => (
                ClientTask::Polling,
                ClientTaskAction::PollEvent,
            ),
            (ClientTask::Announcing, ClientTaskEvent::ObservedAddrRefused) => (
                ClientTask::Ended,
                ClientTaskAction::Return(Outcome::Failed),
            ),
            _ => {
                return None;
            },
        };
        *self = task;
        Some(action)
    }

    /// Takes in an event and gives the next action; where a port is tried, it
    /// is a random one from `FIRST_PORT` to `LAST_PORT`.
    pub fn step(&mut self, event: ClientTaskEvent) -> (action: Option<ClientTaskAction>)
        ensures
            exists|port: u16|
                32768 <= port <= 65535 && #[trigger] crate::trace::stepped(
                    *old(self),
                    *final(self),
                    action,
                    next(*old(self), event, port),
                ),
    {
        let port: u16 = if self.needs_port(event) {
            gen_range(FIRST_PORT, LAST_PORT)
        } else {
            FIRST_PORT
        };
        self.step_on_port(event, port)
    }

    fn try_port(local_address: SocketAddr, port: u16) -> (r: (ClientTask, ClientTaskAction))
        ensures
            r == bind(local_address, port),
    {
        let mut candidate = local_address;
        candidate.set_port(port);
        (
            ClientTask::Binding { local_address, candidate },
            ClientTaskAction::AddBoundAddr(candidate),
        )
    }

    fn needs_port(&self, event: ClientTaskEvent) -> (r: bool)
        ensures
            r == tries_port(*self, event),
    {
        match (*self, event) {
            (
                ClientTask::Polling,
                ClientTaskEvent::Connection(ConnectionEvent::NotifyObservedAddress { .. }),
            ) => true,
            (ClientTask::Binding { .. }, ClientTaskEvent::BoundAddrRefused) => true,
            _ => false,
        }
    }
}

/// The run of a fresh task over a sequence of events, each with the port to try
/// at it.
pub open spec fn task_run(inputs: Seq<(ClientTaskEvent, u16)>) -> Option<
    (ClientTask, Seq<ClientTaskAction>),
> {
    crate::trace::run(
        |task: ClientTask, input: (ClientTaskEvent, u16)| next(task, input.0, input.1),
        ClientTask::Polling,
        inputs,
    )
}

/// The local address that the last report of an observed address names.
pub open spec fn last_reported(inputs: Seq<(ClientTaskEvent, u16)>) -> Option<SocketAddr>
    decreases inputs.len(),
{
    if inputs.len() == 0 {
        None
    } else {
        match inputs.last().0 {
            ClientTaskEvent::Connection(
                ConnectionEvent::NotifyObservedAddress { local_address, .. },
            ) => Some(local_address),
            _ => last_reported(inputs.drop_last()),
        }
    }
}

/// The number of reports of an observed address.
pub open spec fn reports(inputs: Seq<(ClientTaskEvent, u16)>) -> nat
    decreases inputs.len(),
{
    if inputs.len() == 0 {
        0
    } else {
        let before = reports(inputs.drop_last());
        match inputs.last().0 {
            ClientTaskEvent::Connection(ConnectionEvent::NotifyObservedAddress { .. }) => before
                + 1,
            _ => before,
        }
    }
}

/// The number of announcements among the actions.
pub open spec fn announcements(actions: Seq<ClientTaskAction>) -> nat
    decreases actions.len(),
{
    if actions.len() == 0 {
        0
    } else {
        let before = announcements(actions.drop_last());
        if actions.last() is AddObservedAddr {
            before + 1
        } else {
            before
        }
    }
}

proof fn lemma_run_len(inputs: Seq<(ClientTaskEvent, u16)>)
    ensures
        task_run(inputs) matches Some((_, actions)) ==> actions.len() == inputs.len(),
{
    crate::trace::lemma_run_len(
        |task: ClientTask, input: (ClientTaskEvent, u16)| next(task, input.0, input.1),
        ClientTask::Polling,
        inputs,
    );
}

/// While the task binds, its last action asked for the candidate, which stands
/// on the local address reported last.
proof fn lemma_binding_state(inputs: Seq<(ClientTaskEvent, u16)>)
    ensures
        task_run(inputs) matches Some((ClientTask::Binding { local_address, candidate }, actions))
            ==> {
            &&& inputs.len() > 0
            &&& actions.last() == ClientTaskAction::AddBoundAddr(candidate)
            &&& last_reported(inputs) == Some(local_address)
        },
    decreases inputs.len(),
{
    if inputs.len() > 0 {
        lemma_binding_state(inputs.drop_last());
    }
}

/// Every address that the task asks to bind is the local address of the last
/// report, on the port given with the event; every other part is kept.
pub proof fn law_bound_address_follows_the_report(inputs: Seq<(ClientTaskEvent, u16)>, i: int)
    requires
        task_run(inputs) is Some,
        0 <= i < inputs.len(),
    ensures
        task_run(inputs)->Some_0.1[i] matches ClientTaskAction::AddBoundAddr(addr) ==> {
            let reported = last_reported(inputs.take(i + 1));
            &&& reported matches Some(local_address)
            &&& addr == local_address.on_port(inputs[i].1)
            &&& addr.host() == local_address.host()
            &&& addr.port_number() == inputs[i].1
        },
    decreases inputs.len(),
{
    let before = inputs.drop_last();
    lemma_run_len(inputs);
    lemma_run_len(before);
    if i < before.len() {
        law_bound_address_follows_the_report(before, i);
        assert(before.take(i + 1) =~= inputs.take(i + 1));
    } else {
        lemma_binding_state(before);
        assert(inputs.take(i + 1) =~= inputs);
    }
}

/// The task announces an address only right after it was bound, and as the
/// address under which it is itself reached.
pub proof fn law_announced_address_was_just_bound(inputs: Seq<(ClientTaskEvent, u16)>, i: int)
    requires
        task_run(inputs) is Some,
        0 <= i < inputs.len(),
    ensures
        task_run(inputs)->Some_0.1[i] matches ClientTaskAction::AddObservedAddr {
            local_address,
            observed_address,
        } ==> {
            &&& i > 0
            &&& task_run(inputs)->Some_0.1[i - 1] == ClientTaskAction::AddBoundAddr(local_address)
            &&& inputs[i].0 == ClientTaskEvent::BoundAddrAdded
            &&& observed_address == local_address
        },
    decreases inputs.len(),
{
    let before = inputs.drop_last();
    lemma_run_len(inputs);
    lemma_run_len(before);
    if i < before.len() {
        law_announced_address_was_just_bound(before, i);
    } else {
        lemma_binding_state(before);
    }
}

/// Each report of an observed address is answered by one announcement; at most
/// one answer, the one being bound, is still owed.
pub proof fn law_each_report_is_answered_once(inputs: Seq<(ClientTaskEvent, u16)>)
    ensures
        task_run(inputs) matches Some((task, actions)) ==> reports(inputs) == announcements(
            actions,
        ) + (if task is Binding {
            1nat
        } else {
            0nat
        }),
    decreases inputs.len(),
{
    if inputs.len() > 0 {
        law_each_report_is_answered_once(inputs.drop_last());
        if let Some((_, actions)) = task_run(inputs) {
            assert(actions.drop_last() =~= task_run(inputs.drop_last())->Some_0.1);
        }
    }
}

/// A refused address is replaced by the same local address on the port given
/// with the refusal, and the task asks for no event of the connection before an address is bound.
pub proof fn law_refused_address_is_tried_again(
    local_address: SocketAddr,
    port: u16,
    event: ClientTaskEvent,
    other: u16,
)
    ensures
        next(bind(local_address, port).0, ClientTaskEvent::BoundAddrRefused, other) == Some(
            bind(local_address, other),
        ),
        next(bind(local_address, port).0, event, other) matches Some((_, action))
            ==> action !is PollEvent,
{
}

/// The address that the peer observed is not used: two reports that differ in
/// it alone lead to the same.
pub proof fn law_observed_address_is_not_used(
    task: ClientTask,
    local_address: SocketAddr,
    observed: SocketAddr,
    other: SocketAddr,
    port: u16,
)
    ensures
        next(
            task,
            ClientTaskEvent::Connection(
                ConnectionEvent::NotifyObservedAddress {
                    local_address,
                    observed_address: observed,
                },
            ),
            port,
        ) == next(
            task,
            ClientTaskEvent::Connection(
                ConnectionEvent::NotifyObservedAddress { local_address, observed_address: other },
            ),
            port,
        ),
{
}

/// The port matters only where one is tried.
pub proof fn law_port_matters_only_where_tried(
    task: ClientTask,
    event: ClientTaskEvent,
    port: u16,
    other: u16,
)
    ensures
        !tries_port(task, event) ==> next(task, event, port) == next(task, event, other),
        tries_port(task, event) ==> (next(task, event, port) == next(task, event, other) <==> port
            == other),
{
    if tries_port(task, event) && port != other {
        let local_address = match (task, event) {
            (ClientTask::Binding { local_address, .. }, _) => local_address,
            (
                _,
                ClientTaskEvent::Connection(
                    ConnectionEvent::NotifyObservedAddress { local_address, .. },
                ),
            ) => local_address,
            _ => arbitrary(),
        };
        crate::addr::law_only_the_port_changes(local_address, port, other);
        crate::addr::law_only_the_port_changes(local_address, other, port);
    }
}

/// The task ends once, and nothing follows: in every run only the last action
/// can be a return, and the task has ended exactly if it is one.
pub proof fn law_return_comes_last(inputs: Seq<(ClientTaskEvent, u16)>, i: int)
    requires
        task_run(inputs) is Some,
        0 <= i < inputs.len(),
    ensures
        (task_run(inputs)->Some_0.1[i] is Return) == (i == inputs.len() - 1
            && task_run(inputs)->Some_0.0 == ClientTask::Ended),
    decreases inputs.len(),
{
    lemma_run_len(inputs.drop_last());
    if i < inputs.len() - 1 {
        law_return_comes_last(inputs.drop_last(), i);
        law_return_comes_last(inputs.drop_last(), inputs.len() - 2);
    }
}

/// Every report of an observed address is answered, whatever the addresses and
/// the port are: the task asks to bind the local address of the report on the
/// port, with the host and, in IPv6, the flow information and the scope of the
/// report, and remembers the report and what it asked for.
pub proof fn law_every_report_is_answered(
    local_address: SocketAddr,
    observed_address: SocketAddr,
    port: u16,
)
    ensures
        next(
            ClientTask::Polling,
            ClientTaskEvent::Connection(
                ConnectionEvent::NotifyObservedAddress { local_address, observed_address },
            ),
            port,
        ) matches Some((ClientTask::Binding { local_address: kept, candidate }, action)) && {
            &&& kept == local_address
            &&& action == ClientTaskAction::AddBoundAddr(candidate)
            &&& match (local_address, candidate) {
                (SocketAddr::V4(from), SocketAddr::V4(to)) => to.ip == from.ip && to.port == port,
                (SocketAddr::V6(from), SocketAddr::V6(to)) => to.ip == from.ip && to.port == port
                    && to.flowinfo == from.flowinfo && to.scope_id == from.scope_id,
                _ => false,
            }
        },
{
}

/// The task is never stuck, and never takes what it does not wait for: in each
/// state it takes exactly the events that can answer its last action, whatever
/// addresses they hold.
pub proof fn law_each_state_takes_its_answers(task: ClientTask, event: ClientTaskEvent, port: u16)
    ensures
        task == ClientTask::Polling ==> (next(task, event, port) is Some <==> event is Connection
            || event is ConnectionGone),
        task is Binding ==> (next(task, event, port) is Some <==> event is BoundAddrAdded
            || event is BoundAddrRefused),
        task == ClientTask::Announcing ==> (next(task, event, port) is Some <==> event
            is ObservedAddrAdded || event is ObservedAddrRefused),
        task == ClientTask::Ended ==> next(task, event, port) is None,
{
}

/// Whatever a connection reports but an observed address is passed over: the
/// task polls on.
pub proof fn law_other_reports_are_passed_over(report: ConnectionEvent, port: u16)
    requires
        !(report is NotifyObservedAddress),
    ensures
        next(ClientTask::Polling, ClientTaskEvent::Connection(report), port) == Some(
            (ClientTask::Polling, ClientTaskAction::PollEvent),
        ),
{
}

/// A refused address leads to a new try, from the same local address, just as if
/// that had been reported with the new port; so the task may be refused any
/// number of times.  One that is bound is announced, whatever it is, and once it
/// is announced the task polls on.
pub proof fn law_binding_goes_on_until_announced(
    local_address: SocketAddr,
    candidate: SocketAddr,
    observed_address: SocketAddr,
    port: u16,
)
    ensures
        next(
            ClientTask::Binding { local_address, candidate },
            ClientTaskEvent::BoundAddrRefused,
            port,
        ) == next(
            ClientTask::Polling,
            ClientTaskEvent::Connection(
                ConnectionEvent::NotifyObservedAddress { local_address, observed_address },
            ),
            port,
        ),
        next(
            ClientTask::Binding { local_address, candidate },
            ClientTaskEvent::BoundAddrAdded,
            port,
        ) == Some(
            (
                ClientTask::Announcing,
                ClientTaskAction::AddObservedAddr {
                    local_address: candidate,
                    observed_address: candidate,
                },
            ),
        ),
        next(ClientTask::Announcing, ClientTaskEvent::ObservedAddrAdded, port) == Some(
            (ClientTask::Polling, ClientTaskAction::PollEvent),
        ),
{
}

/// Only two things end the task: the end of the connection, with success, and
/// the refusal of an announcement, with failure.  In every run the actions that
/// answer these, and no others, are returns.
pub proof fn law_what_ends_the_task(inputs: Seq<(ClientTaskEvent, u16)>, i: int)
    requires
        task_run(inputs) is Some,
        0 <= i < inputs.len(),
    ensures
        task_run(inputs)->Some_0.1[i] == ClientTaskAction::Return(Outcome::Completed)
            <==> inputs[i].0 == ClientTaskEvent::ConnectionGone,
        task_run(inputs)->Some_0.1[i] == ClientTaskAction::Return(Outcome::Failed) <==> inputs[i].0
            == ClientTaskEvent::ObservedAddrRefused,
    decreases inputs.len(),
{
    lemma_run_len(inputs.drop_last());
    if i < inputs.len() - 1 {
        law_what_ends_the_task(inputs.drop_last(), i);
    }
}

/// A fresh task waits for a report, so a report that comes first is answered at
/// once.
pub proof fn law_fresh_task_takes_reports(report: ConnectionEvent, port: u16)
    ensures
        task_run(Seq::empty()) == Some((ClientTask::Polling, Seq::<ClientTaskAction>::empty())),
        task_run(seq![(ClientTaskEvent::Connection(report), port)]) is Some,
{
    reveal_with_fuel(crate::trace::run, 2);
    let inputs = seq![(ClientTaskEvent::Connection(report), port)];
    assert(inputs.drop_last() =~= Seq::empty());
}

} // verus!
