//! The task that starts one task for each connection, and waits for them all.
//!
//! The client starts at once.  The server first waits until the proxy has
//! reported an observed address, and gives up where none will come.
use vstd::prelude::*;

use crate::addr::SocketAddr;
use crate::trace::Outcome;

verus! {

/// What the task waits for.
#[derive(Clone, Copy, Debug, PartialEq, Eq, Structural)]
pub enum Supervisor {
    /// For the first observed address.
    AwaitingAddress,
    /// For the next connection.
    Receiving,
    /// For the tasks of all connections to end.
    Joining,
    /// For nothing: the task has ended.
    Ended,
}

/// What happens to the task.
#[derive(Clone, Copy, Debug, PartialEq, Eq, Structural)]
pub enum SupervisorEvent {
    /// An observed address is known.
    AddressObserved { local_address: SocketAddr, observed_address: SocketAddr },
    /// No observed address will come.
    AddressClosed,
    /// There is one more connection.
    ConnectionOpened,
    /// There will be no more connections.
    ConnectionsClosed,
    /// The tasks of all connections have ended.
    TasksJoined,
}

/// What the task asks for.
#[derive(Clone, Copy, Debug, PartialEq, Eq, Structural)]
pub enum SupervisorAction {
    /// Wait for an observed address.
    AwaitAddress,
    /// Wait for a connection.
    ReceiveConnection,
    /// Start a task for the connection, and wait for the next.
    WatchConnection,
    /// Wait for the tasks of all connections.
    JoinTasks,
    /// End the task.
    Return(Outcome),
}

/// The machine of the task.
pub open spec fn next(
    supervisor: Supervisor,
    event: SupervisorEvent,
) -> Option<(Supervisor, SupervisorAction)> {
    match (supervisor, event) {
        (Supervisor::AwaitingAddress, SupervisorEvent::AddressObserved { .. }) => Some(
            (Supervisor::Receiving, SupervisorAction::ReceiveConnection),
        ),
        (Supervisor::AwaitingAddress, SupervisorEvent::AddressClosed) => Some(
            (Supervisor::Ended, SupervisorAction::Return(Outcome::Completed)),
        ),
        (Supervisor::Receiving, SupervisorEvent::ConnectionOpened) => Some(
            (Supervisor::Receiving, SupervisorAction::WatchConnection),
        ),
        (Supervisor::Receiving, SupervisorEvent::ConnectionsClosed) => Some(
            (Supervisor::Joining, SupervisorAction::JoinTasks),
        ),
        (Supervisor::Joining, SupervisorEvent::TasksJoined) => Some(
            (Supervisor::Ended, SupervisorAction::Return(Outcome::Completed)),
        ),
        _ => None,
    }
}

impl Supervisor {
    /// Starts the task of the client, which waits for connections at once.
    pub fn start_client() -> (r: (Supervisor, SupervisorAction))
        ensures
            r == (Supervisor::Receiving, SupervisorAction::ReceiveConnection),
    {
        (Supervisor::Receiving, SupervisorAction::ReceiveConnection)
    }

    /// Starts the task of the server, which waits for an observed address
    /// first.
    pub fn start_server() -> (r: (Supervisor, SupervisorAction))
        ensures
            r == (Supervisor::AwaitingAddress, SupervisorAction::AwaitAddress),
    {
        (Supervisor::AwaitingAddress, SupervisorAction::AwaitAddress)
    }

    /// Takes in an event and gives the next action.  An event that the task
    /// does not wait for changes nothing and gives none.
    pub fn step(&mut self, event: SupervisorEvent) -> (action: Option<SupervisorAction>)
        ensures
            crate::trace::stepped(*old(self), *final(self), action, next(*old(self), event)),
    {
        let (supervisor, action) = match (*self, event) {
            (Supervisor::AwaitingAddress, SupervisorEvent::AddressObserved { .. }) => (
                Supervisor::Receiving,
                SupervisorAction::ReceiveConnection,
            ),
            (Supervisor::AwaitingAddress, SupervisorEvent::AddressClosed) => (
                Supervisor::Ended,
                SupervisorAction::Return(Outcome::Completed),
            ),
            (Supervisor::Receiving, SupervisorEvent::ConnectionOpened) => (
                Supervisor::Receiving,
                SupervisorAction::WatchConnection,
            ),
            (Supervisor::Receiving, SupervisorEvent::ConnectionsClosed) => (
                Supervisor::Joining,
                SupervisorAction::JoinTasks,
            ),
            (Supervisor::Joining, SupervisorEvent::TasksJoined) => (
                Supervisor::Ended,
                SupervisorAction::Return(Outcome::Completed),
            ),
            _ => {
                return None;
            },
        };
        *self = supervisor;
        Some(action)
    }
}

/// The run of the client's task over a sequence of events.
pub open spec fn client_run(events: Seq<SupervisorEvent>) -> Option<
    (Supervisor, Seq<SupervisorAction>),
> {
    run_from(Supervisor::Receiving, events)
}

/// The run of the server's task over a sequence of events.
pub open spec fn server_run(events: Seq<SupervisorEvent>) -> Option<
    (Supervisor, Seq<SupervisorAction>),
> {
    run_from(Supervisor::AwaitingAddress, events)
}

/// The run of a task over a sequence of events.
pub open spec fn run_from(start: Supervisor, events: Seq<SupervisorEvent>) -> Option<
    (Supervisor, Seq<SupervisorAction>),
> {
    crate::trace::run(
        |supervisor: Supervisor, event: SupervisorEvent| next(supervisor, event),
        start,
        events,
    )
}

/// In every run of either task a task is started for each connection, when it
/// opens, and for nothing else.
pub proof fn law_each_connection_is_watched(
    start: Supervisor,
    events: Seq<SupervisorEvent>,
    i: int,
)
    requires
        run_from(start, events) is Some,
        0 <= i < events.len(),
    ensures
        run_from(start, events)->Some_0.1[i] == SupervisorAction::WatchConnection <==> events[i]
            == SupervisorEvent::ConnectionOpened,
    decreases events.len(),
{
    crate::trace::lemma_run_len(
        |supervisor: Supervisor, event: SupervisorEvent| next(supervisor, event),
        start,
        events.drop_last(),
    );
    if i < events.len() - 1 {
        law_each_connection_is_watched(start, events.drop_last(), i);
    }
}

/// The server does nothing with connections before an address was observed:
/// the first event of every run says how that went, and where none will come
/// the run is over.
pub proof fn law_server_awaits_an_address(events: Seq<SupervisorEvent>)
    requires
        server_run(events) is Some,
        events.len() > 0,
    ensures
        events[0] is AddressObserved || (events == seq![SupervisorEvent::AddressClosed]
            && server_run(events)->Some_0.1 == seq![SupervisorAction::Return(Outcome::Completed)]),
    decreases events.len(),
{
    let before = events.drop_last();
    reveal_with_fuel(crate::trace::run, 3);
    if before.len() > 0 {
        law_server_awaits_an_address(before);
    } else {
        assert(events =~= seq![events[0]]);
        assert(server_run(before) == Some(
            (Supervisor::AwaitingAddress, Seq::<SupervisorAction>::empty()),
        ));
    }
}

/// Once it knows an address, the server's task runs as the client's does: the
/// address itself is not used.
pub proof fn law_server_then_runs_as_client(
    local_address: SocketAddr,
    observed_address: SocketAddr,
    events: Seq<SupervisorEvent>,
)
    ensures
        ({
            let first = SupervisorEvent::AddressObserved { local_address, observed_address };
            server_run(seq![first] + events) == match client_run(events) {
                Some((supervisor, actions)) => Some(
                    (supervisor, seq![SupervisorAction::ReceiveConnection] + actions),
                ),
                None => None,
            }
        }),
    decreases events.len(),
{
    let first = SupervisorEvent::AddressObserved { local_address, observed_address };
    let all = seq![first] + events;
    reveal_with_fuel(crate::trace::run, 2);
    if events.len() == 0 {
        assert(all.drop_last() =~= Seq::<SupervisorEvent>::empty());
        assert(all.last() == first);
        assert(Seq::<SupervisorAction>::empty().push(SupervisorAction::ReceiveConnection)
            =~= seq![SupervisorAction::ReceiveConnection] + Seq::<SupervisorAction>::empty());
    } else {
        law_server_then_runs_as_client(local_address, observed_address, events.drop_last());
        assert(all.drop_last() =~= seq![first] + events.drop_last());
        assert(all.last() == events.last());
        if let Some((supervisor, actions)) = client_run(events.drop_last()) {
            if let Some((_, action)) = next(supervisor, events.last()) {
                assert((seq![SupervisorAction::ReceiveConnection] + actions).push(action)
                    =~= seq![SupervisorAction::ReceiveConnection] + actions.push(action));
            }
        }
    }
}

/// The client's task returns only after there were no more connections and the
/// tasks of all of them had ended, and then it is over.
pub proof fn law_client_returns_after_joining(events: Seq<SupervisorEvent>, i: int)
    requires
        client_run(events) is Some,
        0 <= i < events.len(),
    ensures
        client_run(events)->Some_0.1[i] is Return ==> {
            &&& i == events.len() - 1
            &&& i > 0
            &&& events[i] == SupervisorEvent::TasksJoined
            &&& events[i - 1] == SupervisorEvent::ConnectionsClosed
            &&& forall|j: int|
                0 <= j < i - 1 ==> #[trigger] events[j] == SupervisorEvent::ConnectionOpened
        },
    decreases events.len(),
{
    let before = events.drop_last();
    lemma_client_shape(events);
    lemma_client_shape(before);
    crate::trace::lemma_run_len(
        |supervisor: Supervisor, event: SupervisorEvent| next(supervisor, event),
        Supervisor::Receiving,
        before,
    );
    if i < before.len() {
        law_client_returns_after_joining(before, i);
    } else {
        assert forall|j: int| 0 <= j < before.len() implies #[trigger] events[j] == before[j] by {}
    }
}

proof fn lemma_client_shape(events: Seq<SupervisorEvent>)
    ensures
        client_run(events) matches Some((supervisor, _)) ==> match supervisor {
            Supervisor::AwaitingAddress => false,
            Supervisor::Receiving => forall|j: int|
                0 <= j < events.len() ==> #[trigger] events[j] == SupervisorEvent::ConnectionOpened,
            Supervisor::Joining => events.len() > 0 && events.last()
                == SupervisorEvent::ConnectionsClosed && forall|j: int|
                0 <= j < events.len() - 1 ==> #[trigger] events[j]
                    == SupervisorEvent::ConnectionOpened,
            Supervisor::Ended => events.len() > 1,
        },
    decreases events.len(),
{
    if events.len() > 0 {
        let before = events.drop_last();
        lemma_client_shape(before);
        assert forall|j: int| 0 <= j < before.len() implies #[trigger] events[j] == before[j] by {}
    }
}

/// The task is never stuck, and never takes what it does not wait for: in each
/// state it takes exactly the events that can answer its last action, whatever
/// addresses they hold.
pub proof fn law_each_state_takes_its_answers(supervisor: Supervisor, event: SupervisorEvent)
    ensures
        supervisor == Supervisor::AwaitingAddress ==> (next(supervisor, event) is Some <==> event
            is AddressObserved || event is AddressClosed),
        supervisor == Supervisor::Receiving ==> (next(supervisor, event) is Some <==> event
            is ConnectionOpened || event is ConnectionsClosed),
        supervisor == Supervisor::Joining ==> (next(supervisor, event) is Some <==> event
            is TasksJoined),
        supervisor == Supervisor::Ended ==> next(supervisor, event) is None,
{
}

/// Any observed address makes the task wait for connections; each connection is
/// watched and the next is waited for; and when there are no more the task
/// waits for the tasks that it started.
pub proof fn law_connections_are_received_until_closed(
    local_address: SocketAddr,
    observed_address: SocketAddr,
)
    ensures
        next(
            Supervisor::AwaitingAddress,
            SupervisorEvent::AddressObserved { local_address, observed_address },
        ) == Some((Supervisor::Receiving, SupervisorAction::ReceiveConnection)),
        next(Supervisor::Receiving, SupervisorEvent::ConnectionOpened) == Some(
            (Supervisor::Receiving, SupervisorAction::WatchConnection),
        ),
        next(Supervisor::Receiving, SupervisorEvent::ConnectionsClosed) == Some(
            (Supervisor::Joining, SupervisorAction::JoinTasks),
        ),
{
}

/// Only two things end the task, both with success: that no address will come,
/// and that the tasks of all connections have ended.  In every run of either
/// task the actions that answer these, and no others, are returns, and after
/// one there is nothing more.
pub proof fn law_what_ends_the_task(start: Supervisor, events: Seq<SupervisorEvent>, i: int)
    requires
        run_from(start, events) is Some,
        0 <= i < events.len(),
    ensures
        run_from(start, events)->Some_0.1[i] is Return <==> events[i]
            == SupervisorEvent::AddressClosed || events[i] == SupervisorEvent::TasksJoined,
        run_from(start, events)->Some_0.1[i] != SupervisorAction::Return(Outcome::Failed),
        run_from(start, events)->Some_0.1[i] is Return <==> i == events.len() - 1 && run_from(
            start,
            events,
        )->Some_0.0 == Supervisor::Ended,
    decreases events.len(),
{
    crate::trace::lemma_run_len(
        |supervisor: Supervisor, event: SupervisorEvent| next(supervisor, event),
        start,
        events.drop_last(),
    );
    if i < events.len() - 1 {
        law_what_ends_the_task(start, events.drop_last(), i);
        law_what_ends_the_task(start, events.drop_last(), events.len() - 2);
    }
}

/// The client's task starts by waiting for connections, the server's by waiting
/// for an observed address.
pub proof fn law_where_the_tasks_start(events: Seq<SupervisorEvent>)
    ensures
        client_run(events) == run_from(Supervisor::Receiving, events),
        server_run(events) == run_from(Supervisor::AwaitingAddress, events),
        client_run(Seq::empty()) == Some((Supervisor::Receiving, Seq::<SupervisorAction>::empty())),
        server_run(Seq::empty()) == Some(
            (Supervisor::AwaitingAddress, Seq::<SupervisorAction>::empty()),
        ),
{
}

} // verus!
