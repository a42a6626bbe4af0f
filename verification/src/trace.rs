//! Runs of a state machine.
use vstd::prelude::*;

verus! {

/// How a task or a program ends: its own value says whether it succeeded.
#[derive(Clone, Copy, Debug, PartialEq, Eq, Structural)]
pub enum Outcome {
    Completed,
    Failed,
}

/// The run of a machine over a sequence of events: the state it ends in and
/// the actions it asked for, one for each event.  There is no run over events
/// of which the machine does not accept one.
pub open spec fn run<S, E, A>(
    next: spec_fn(S, E) -> Option<(S, A)>,
    start: S,
    events: Seq<E>,
) -> Option<(S, Seq<A>)>
    decreases events.len(),
{
    if events.len() == 0 {
        Some((start, Seq::empty()))
    } else {
        match run(next, start, events.drop_last()) {
            Some((state, actions)) => match next(state, events.last()) {
                Some((after, action)) => Some((after, actions.push(action))),
                None => None,
            },
            None => None,
        }
    }
}

/// What a step did, held against what the machine says: an accepted event
/// leads to the state and the action that it prescribes, and any other event
/// changes nothing and asks for nothing.
pub open spec fn stepped<S, A>(before: S, after: S, action: Option<A>, prescribed: Option<(S, A)>) -> bool {
    match prescribed {
        Some((state, asked)) => after == state && action == Some(asked),
        None => after == before && action is None,
    }
}

/// A run asks for one action for each event.
pub proof fn lemma_run_len<S, E, A>(
    next: spec_fn(S, E) -> Option<(S, A)>,
    start: S,
    events: Seq<E>,
)
    ensures
        run(next, start, events) matches Some((_, actions)) ==> actions.len() == events.len(),
    decreases events.len(),
{
    if events.len() > 0 {
        lemma_run_len(next, start, events.drop_last());
    }
}

/// One more event makes one more step.
pub proof fn lemma_run_push<S, E, A>(
    next: spec_fn(S, E) -> Option<(S, A)>,
    start: S,
    events: Seq<E>,
    event: E,
)
    ensures
        run(next, start, events.push(event)) == match run(next, start, events) {
            Some((state, actions)) => match next(state, event) {
                Some((after, action)) => Some((after, actions.push(action))),
                None => None,
            },
            None => None,
        },
{
    assert(events.push(event).drop_last() =~= events);
}

/// A step with a prescription puts the machine into the state prescribed and
/// asks for the action prescribed; one without leaves the machine as it is and
/// asks for nothing.
pub proof fn law_step_follows_its_prescription<S, A>(
    before: S,
    after: S,
    action: Option<A>,
    state: S,
    asked: A,
)
    ensures
        stepped(before, after, action, Some((state, asked))) <==> (after == state && action == Some(
            asked,
        )),
        stepped(before, after, action, None::<(S, A)>) <==> (after == before && action
            == None::<A>),
{
}

/// A run over no events stays where it starts, a run over one event is one
/// step, and a run over two sequences of events, one after the other, is a run
/// over the first and then, from where that ended, a run over the second.
pub proof fn law_runs_compose<S, E, A>(
    next: spec_fn(S, E) -> Option<(S, A)>,
    start: S,
    event: E,
    first: Seq<E>,
    second: Seq<E>,
)
    ensures
        run(next, start, Seq::<E>::empty()) == Some((start, Seq::<A>::empty())),
        run(next, start, seq![event]) == match next(start, event) {
            Some((after, action)) => Some((after, seq![action])),
            None => None,
        },
        run(next, start, first + second) == match run(next, start, first) {
            Some((middle, asked)) => match run(next, middle, second) {
                Some((end, more)) => Some((end, asked + more)),
                None => None,
            },
            None => None,
        },
    decreases second.len(),
{
    lemma_run_push(next, start, Seq::<E>::empty(), event);
    assert(Seq::<E>::empty().push(event) =~= seq![event]);
    assert(forall|action: A| #[trigger] Seq::<A>::empty().push(action) =~= seq![action]);
    if second.len() == 0 {
        assert(first + second =~= first);
        if let Some((_, asked)) = run(next, start, first) {
            assert(asked + Seq::<A>::empty() =~= asked);
        }
    } else {
        let before = second.drop_last();
        law_runs_compose(next, start, event, first, before);
        assert((first + second).drop_last() =~= first + before);
        assert((first + second).last() == second.last());
        if let Some((middle, asked)) = run(next, start, first) {
            if let Some((state, more)) = run(next, middle, before) {
                if let Some((_, action)) = next(state, second.last()) {
                    assert((asked + more).push(action) =~= asked + more.push(action));
                }
            }
        }
    }
}

} // verus!
