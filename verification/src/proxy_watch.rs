//! The task that follows what the proxy reports.
//!
//! The server reaches the public network through a proxy.  The task hands on
//! every pair of local and observed address that the proxy reports, and ends
//! when nobody takes them any more or the proxy reports no more.
use vstd::prelude::*;

use crate::addr::SocketAddr;
use crate::trace::Outcome;

verus! {

/// What the proxy reports.
#[derive(Clone, Copy, Debug, PartialEq, Eq, Structural)]
pub enum BoundProxyEvent {
    /// The address under which the proxy forwards to the server.
    NotifyPublicAddress(SocketAddr),
    /// The address under which the proxy sees `local_address`.
    NotifyObservedAddress { local_address: SocketAddr, observed_address: SocketAddr },
}

/// What the task waits for.
#[derive(Clone, Copy, Debug, PartialEq, Eq, Structural)]
pub enum ProxyWatch {
    /// For the next report.
    Receiving,
    /// For a pair of addresses to be taken.
    Forwarding,
    /// For nothing: the task has ended.
    Ended,
}

/// What happens to the task.
#[derive(Clone, Copy, Debug, PartialEq, Eq, Structural)]
pub enum ProxyWatchEvent {
    /// The proxy reports.
    Proxy(BoundProxyEvent),
    /// The proxy reports no more.
    ProxyClosed,
    /// The pair was taken.
    Forwarded,
    /// Nobody takes pairs any more.
    ForwardRefused,
}

/// What the task asks for.
#[derive(Clone, Copy, Debug, PartialEq, Eq, Structural)]
pub enum ProxyWatchAction {
    /// Wait for the next report.
    ReceiveEvent,
    /// Hand on a pair of addresses.
    Forward { local_address: SocketAddr, observed_address: SocketAddr },
    /// End the task.
    Return(Outcome),
}

/// The machine of the task.
pub open spec fn next(
    watch: ProxyWatch,
    event: ProxyWatchEvent,
) -> Option<(ProxyWatch, ProxyWatchAction)> {
    match (watch, event) {
        (
            ProxyWatch::Receiving,
            ProxyWatchEvent::Proxy(
                BoundProxyEvent::NotifyObservedAddress { local_address, observed_address },
            ),
        ) => Some(
            (
                ProxyWatch::Forwarding,
                ProxyWatchAction::Forward { local_address, observed_address },
            ),
        ),
        (
            ProxyWatch::Receiving,
            ProxyWatchEvent::Proxy(BoundProxyEvent::NotifyPublicAddress(_)),
        ) => Some((ProxyWatch::Receiving, ProxyWatchAction::ReceiveEvent)),
        (ProxyWatch::Receiving, ProxyWatchEvent::ProxyClosed) => Some(
            (ProxyWatch::Ended, ProxyWatchAction::Return(Outcome::Completed)),
        ),
        (ProxyWatch::Forwarding, ProxyWatchEvent::Forwarded) => Some(
            (ProxyWatch::Receiving, ProxyWatchAction::ReceiveEvent),
        ),
        (ProxyWatch::Forwarding, ProxyWatchEvent::ForwardRefused) => Some(
            (ProxyWatch::Ended, ProxyWatchAction::Return(Outcome::Failed)),
        ),
        _ => None,
    }
}

impl ProxyWatch {
    /// Starts the task: the first thing it asks for is a report.
    pub fn start() -> (r: (ProxyWatch, ProxyWatchAction))
        ensures
            r == (ProxyWatch::Receiving, ProxyWatchAction::ReceiveEvent),
    {
        (ProxyWatch::Receiving, ProxyWatchAction::ReceiveEvent)
    }

    /// Takes in an event and gives the next action.  An event that the task
    /// does not wait for changes nothing and gives none.
    pub fn step(&mut self, event: ProxyWatchEvent) -> (action: Option<ProxyWatchAction>)
        ensures
            crate::trace::stepped(*old(self), *final(self), action, next(*old(self), event)),
    {
        let (watch, action) = match (*self, event) {
            (ProxyWatch::Receiving, ProxyWatchEvent::Proxy(report)) => match report {
                BoundProxyEvent::NotifyPublicAddress(_) => (
                    ProxyWatch::Receiving,
                    ProxyWatchAction::ReceiveEvent,
                ),
                BoundProxyEvent::NotifyObservedAddress { local_address, observed_address } => (
                    ProxyWatch::Forwarding,
                    ProxyWatchAction::Forward { local_address, observed_address },
                ),
            },
            (ProxyWatch::Receiving, ProxyWatchEvent::ProxyClosed) => (
                ProxyWatch::Ended,
                ProxyWatchAction::Return(Outcome::Completed),
            ),
            (ProxyWatch::Forwarding, ProxyWatchEvent::Forwarded) => (
                ProxyWatch::Receiving,
                ProxyWatchAction::ReceiveEvent,
            ),
            (ProxyWatch::Forwarding, ProxyWatchEvent::ForwardRefused) => (
                ProxyWatch::Ended,
                ProxyWatchAction::Return(Outcome::Failed),
            ),
            _ => {
                return None;
            },
        };
        *self = watch;
        Some(action)
    }
}

/// The run of a fresh task over a sequence of events.
pub open spec fn task_run(events: Seq<ProxyWatchEvent>) -> Option<
    (ProxyWatch, Seq<ProxyWatchAction>),
> {
    crate::trace::run(
        |watch: ProxyWatch, event: ProxyWatchEvent| next(watch, event),
        ProxyWatch::Receiving,
        events,
    )
}

/// The pairs of local and observed address that the proxy reports, in order.
pub open spec fn reported_pairs(events: Seq<ProxyWatchEvent>) -> Seq<(SocketAddr, SocketAddr)>
    decreases events.len(),
{
    if events.len() == 0 {
        Seq::empty()
    } else {
        let before = reported_pairs(events.drop_last());
        match events.last() {
            ProxyWatchEvent::Proxy(
                BoundProxyEvent::NotifyObservedAddress { local_address, observed_address },
            ) => before.push((local_address, observed_address)),
            _ => before,
        }
    }
}

/// The pairs that the actions hand on, in order.
pub open spec fn forwarded_pairs(actions: Seq<ProxyWatchAction>) -> Seq<(SocketAddr, SocketAddr)>
    decreases actions.len(),
{
    if actions.len() == 0 {
        Seq::empty()
    } else {
        let before = forwarded_pairs(actions.drop_last());
        match actions.last() {
            ProxyWatchAction::Forward { local_address, observed_address } => before.push(
                (local_address, observed_address),
            ),
            _ => before,
        }
    }
}

/// In every run the task hands on the pairs that the proxy reports: all of
/// them, unchanged, in that order, and nothing else.
pub proof fn law_reported_pairs_are_forwarded(events: Seq<ProxyWatchEvent>)
    ensures
        task_run(events) matches Some((_, actions)) ==> forwarded_pairs(actions)
            == reported_pairs(events),
    decreases events.len(),
{
    if events.len() > 0 {
        law_reported_pairs_are_forwarded(events.drop_last());
        if let Some((_, actions)) = task_run(events) {
            assert(actions.drop_last() =~= task_run(events.drop_last())->Some_0.1);
        }
    }
}

/// The task ends once, and nothing follows: in every run only the last action
/// can be a return, and the task has ended exactly if it is one.
pub proof fn law_return_comes_last(events: Seq<ProxyWatchEvent>, i: int)
    requires
        task_run(events) is Some,
        0 <= i < events.len(),
    ensures
        (task_run(events)->Some_0.1[i] is Return) == (i == events.len() - 1
            && task_run(events)->Some_0.0 == ProxyWatch::Ended),
    decreases events.len(),
{
    crate::trace::lemma_run_len(
        |watch: ProxyWatch, event: ProxyWatchEvent| next(watch, event),
        ProxyWatch::Receiving,
        events.drop_last(),
    );
    if i < events.len() - 1 {
        law_return_comes_last(events.drop_last(), i);
        law_return_comes_last(events.drop_last(), events.len() - 2);
    }
}

/// Every pair of addresses that the proxy reports is handed on as it is, and
/// every public address is passed over, whatever the addresses are; once a pair
/// is taken the task waits for the next report.
pub proof fn law_every_report_is_followed(
    public_address: SocketAddr,
    local_address: SocketAddr,
    observed_address: SocketAddr,
)
    ensures
        next(
            ProxyWatch::Receiving,
            ProxyWatchEvent::Proxy(BoundProxyEvent::NotifyPublicAddress(public_address)),
        ) == Some((ProxyWatch::Receiving, ProxyWatchAction::ReceiveEvent)),
        next(
            ProxyWatch::Receiving,
            ProxyWatchEvent::Proxy(
                BoundProxyEvent::NotifyObservedAddress { local_address, observed_address },
            ),
        ) == Some(
            (
                ProxyWatch::Forwarding,
                ProxyWatchAction::Forward { local_address, observed_address },
            ),
        ),
        next(ProxyWatch::Forwarding, ProxyWatchEvent::Forwarded) == Some(
            (ProxyWatch::Receiving, ProxyWatchAction::ReceiveEvent),
        ),
{
}

/// The task is never stuck, and never takes what it does not wait for: in each
/// state it takes exactly the events that can answer its last action, whatever
/// addresses they hold.
pub proof fn law_each_state_takes_its_answers(watch: ProxyWatch, event: ProxyWatchEvent)
    ensures
        watch == ProxyWatch::Receiving ==> (next(watch, event) is Some <==> event is Proxy || event
            is ProxyClosed),
        watch == ProxyWatch::Forwarding ==> (next(watch, event) is Some <==> event is Forwarded
            || event is ForwardRefused),
        watch == ProxyWatch::Ended ==> next(watch, event) is None,
{
}

/// Only two things end the task: that the proxy reports no more, with success,
/// and that nobody takes a pair, with failure.  In every run the actions that
/// answer these, and no others, are returns; so no report ends it.
pub proof fn law_what_ends_the_task(events: Seq<ProxyWatchEvent>, i: int)
    requires
        task_run(events) is Some,
        0 <= i < events.len(),
    ensures
        task_run(events)->Some_0.1[i] == ProxyWatchAction::Return(Outcome::Completed) <==> events[i]
            == ProxyWatchEvent::ProxyClosed,
        task_run(events)->Some_0.1[i] == ProxyWatchAction::Return(Outcome::Failed) <==> events[i]
            == ProxyWatchEvent::ForwardRefused,
    decreases events.len(),
{
    crate::trace::lemma_run_len(
        |watch: ProxyWatch, event: ProxyWatchEvent| next(watch, event),
        ProxyWatch::Receiving,
        events.drop_last(),
    );
    if i < events.len() - 1 {
        law_what_ends_the_task(events.drop_last(), i);
    }
}

/// There is a run over any sequence of public addresses: the task answers each
/// with the wait for the next report, and then waits for that.
pub proof fn law_public_addresses_never_end_the_task(addresses: Seq<SocketAddr>)
    ensures
        task_run(
            addresses.map_values(
                |addr: SocketAddr|
                    ProxyWatchEvent::Proxy(BoundProxyEvent::NotifyPublicAddress(addr)),
            ),
        ) == Some(
            (
                ProxyWatch::Receiving,
                Seq::new(addresses.len(), |i: int| ProxyWatchAction::ReceiveEvent),
            ),
        ),
    decreases addresses.len(),
{
    let report = |addr: SocketAddr|
        ProxyWatchEvent::Proxy(BoundProxyEvent::NotifyPublicAddress(addr));
    let events = addresses.map_values(report);
    if addresses.len() == 0 {
        assert(Seq::new(0, |i: int| ProxyWatchAction::ReceiveEvent) =~= Seq::empty());
    } else {
        let before = addresses.drop_last();
        law_public_addresses_never_end_the_task(before);
        assert(events.drop_last() =~= before.map_values(report));
        assert(Seq::new(before.len(), |i: int| ProxyWatchAction::ReceiveEvent).push(
            ProxyWatchAction::ReceiveEvent,
        ) =~= Seq::new(addresses.len(), |i: int| ProxyWatchAction::ReceiveEvent));
    }
}

} // verus!
