//! The loop of a task that takes items off a channel for the engine.
//!
//! The task receives an item, lets the engine handle it, passes on what came of
//! that, and receives again. It gives up when the channel has ended or the engine
//! is gone: it closes the channel, and throws away what is still in it.

use vstd::prelude::*;

verus! {

/// Where a listener stands.
#[derive(Clone, Copy, Debug, PartialEq, Eq, Structural)]
pub enum ListenerState {
    /// It waits for an item.
    Receiving,
    /// It waits for the engine to handle an item.
    Handling,
    /// It has closed the channel, and empties it.
    Draining,
    /// It has ended.
    Stopped,
}

/// What happened to a listener. `I` is an item, `R` what comes of handling one,
/// `E` why that fails.
#[derive(Debug)]
pub enum ListenerEvent<I, R, E> {
    /// The channel gave an item, or had ended; and whether the engine exists.
    Received { item: Option<I>, engine_alive: bool },
    /// The engine handled the item.
    Handled(Result<R, E>),
}

/// What a listener is to do next.
#[derive(Debug)]
pub enum ListenerAction<I, R, E> {
    /// Let the engine handle the item.
    Handle(I),
    /// Pass on what came of an item, and receive again.
    Forward(R),
    /// Log why an item could not be handled, and receive again.
    Report(E),
    /// Close the channel, and receive again. An item that was received is lost.
    Close,
    /// Throw the item away, and receive again.
    Discard(I),
    /// End.
    Stop,
}

/// Which events can happen to a listener that stands at `state`.
pub open spec fn enabled<I, R, E>(state: ListenerState, event: ListenerEvent<I, R, E>) -> bool {
    match event {
        ListenerEvent::Received { .. } => state is Receiving || state is Draining,
        ListenerEvent::Handled(_) => state is Handling,
    }
}

/// Where a listener stands after an event, and what it is to do.
pub open spec fn next<I, R, E>(state: ListenerState, event: ListenerEvent<I, R, E>) -> (
    ListenerState,
    ListenerAction<I, R, E>,
) {
    match event {
        ListenerEvent::Received { item: Some(item), engine_alive } => if state is Draining {
            (ListenerState::Draining, ListenerAction::Discard(item))
        } else if engine_alive {
            (ListenerState::Handling, ListenerAction::Handle(item))
        } else {
            (ListenerState::Draining, ListenerAction::Close)
        },
        ListenerEvent::Received { item: None, .. } => if state is Draining {
            (ListenerState::Stopped, ListenerAction::Stop)
        } else {
            (ListenerState::Draining, ListenerAction::Close)
        },
        ListenerEvent::Handled(Ok(result)) => (
            ListenerState::Receiving,
            ListenerAction::Forward(result),
        ),
        ListenerEvent::Handled(Err(error)) => (
            ListenerState::Receiving,
            ListenerAction::Report(error),
        ),
    }
}

/// A listener.
#[derive(Clone, Copy, Debug)]
pub struct Listener {
    state: ListenerState,
}

impl View for Listener {
    type V = ListenerState;

    closed spec fn view(&self) -> ListenerState {
        self.state
    }
}

impl Listener {
    /// A listener that waits for its first item.
    pub fn new() -> (listener: Self)
        ensures
            listener@ == ListenerState::Receiving,
    {
        Listener { state: ListenerState::Receiving }
    }

    /// Takes note of an event, and says what is to be done.
    pub fn step<I, R, E>(&mut self, event: ListenerEvent<I, R, E>) -> (action: ListenerAction<
        I,
        R,
        E,
    >)
        requires
            enabled(old(self)@, event),
        ensures
            (final(self)@, action) == next(old(self)@, event),
    {
        match event {
            ListenerEvent::Received { item: Some(item), engine_alive } => {
                if self.state == ListenerState::Draining {
                    ListenerAction::Discard(item)
                } else if engine_alive {
                    self.state = ListenerState::Handling;
                    ListenerAction::Handle(item)
                } else {
                    self.state = ListenerState::Draining;
                    ListenerAction::Close
                }
            },
            ListenerEvent::Received { item: None, .. } => {
                if self.state == ListenerState::Draining {
                    self.state = ListenerState::Stopped;
                    ListenerAction::Stop
                } else {
                    self.state = ListenerState::Draining;
                    ListenerAction::Close
                }
            },
            ListenerEvent::Handled(Ok(result)) => {
                self.state = ListenerState::Receiving;
                ListenerAction::Forward(result)
            },
            ListenerEvent::Handled(Err(error)) => {
                self.state = ListenerState::Receiving;
                ListenerAction::Report(error)
            },
        }
    }
}

/// Where a new listener stands after `events`.
pub open spec fn state_after<I, R, E>(events: Seq<ListenerEvent<I, R, E>>) -> ListenerState
    decreases events.len(),
{
    if events.len() == 0 {
        ListenerState::Receiving
    } else {
        next(state_after(events.drop_last()), events.last()).0
    }
}

/// What a new listener does on the event at `k`.
pub open spec fn action_at<I, R, E>(events: Seq<ListenerEvent<I, R, E>>, k: int) -> ListenerAction<
    I,
    R,
    E,
> {
    next(state_after(events.take(k)), events[k]).1
}

/// That `events` can happen, one after the other, to a new listener.
pub open spec fn possible<I, R, E>(events: Seq<ListenerEvent<I, R, E>>) -> bool {
    forall|k: int|
        0 <= k < events.len() ==> enabled(
            state_after(#[trigger] events.take(k)),
            events[k],
        )
}

/// That an event shows the channel open and the engine there.
pub open spec fn shows_service<I, R, E>(event: ListenerEvent<I, R, E>) -> bool {
    event matches ListenerEvent::Received { item, engine_alive } ==> item is Some && engine_alive
}

/// That all events show the channel open and the engine there.
pub open spec fn in_service<I, R, E>(events: Seq<ListenerEvent<I, R, E>>) -> bool {
    forall|k: int| 0 <= k < events.len() ==> shows_service(#[trigger] events[k])
}

/// What can happen to a listener can happen up to any point.
proof fn lemma_prefix_is_possible<I, R, E>(events: Seq<ListenerEvent<I, R, E>>, n: int)
    requires
        possible(events),
        0 <= n <= events.len(),
    ensures
        possible(events.take(n)),
{
    let prefix = events.take(n);
    assert forall|k: int| 0 <= k < prefix.len() implies enabled(
        state_after(#[trigger] prefix.take(k)),
        prefix[k],
    ) by {
        assert(prefix.take(k) =~= events.take(k));
    }
}

/// A listener goes on as long as each receive has given an item while the engine
/// was there, and from then on only empties the channel.
proof fn lemma_in_service<I, R, E>(events: Seq<ListenerEvent<I, R, E>>)
    requires
        possible(events),
    ensures
        in_service(events) <==> (state_after(events) is Receiving || state_after(
            events,
        ) is Handling),
    decreases events.len(),
{
    if events.len() > 0 {
        let front = events.drop_last();
        assert(front =~= events.take(events.len() - 1));
        assert(enabled(state_after(events.take(events.len() - 1)), events[events.len() - 1]));
        lemma_prefix_is_possible(events, events.len() - 1);
        lemma_in_service(front);
        assert(in_service(events) <==> in_service(front) && shows_service(events.last())) by {
            if in_service(front) && shows_service(events.last()) {
                assert forall|k: int| 0 <= k < events.len() implies shows_service(
                    #[trigger] events[k],
                ) by {
                    if k < front.len() {
                        assert(shows_service(front[k]));
                    }
                }
            }
            if in_service(events) {
                assert(shows_service(events[events.len() - 1]));
                assert forall|k: int| 0 <= k < front.len() implies shows_service(
                    #[trigger] front[k],
                ) by {
                    assert(shows_service(events[k]));
                }
            }
        }
    }
}

/// The engine handles exactly the items that were received while the channel had
/// not ended and the engine was there, at this receive and at all before it. No
/// item received later is handled.
pub proof fn law_handles_what_it_receives_in_service<I, R, E>(
    events: Seq<ListenerEvent<I, R, E>>,
    k: int,
    item: I,
)
    requires
        possible(events),
        0 <= k < events.len(),
    ensures
        action_at(events, k) == ListenerAction::<I, R, E>::Handle(item) <==> (events[k]
            == ListenerEvent::<I, R, E>::Received { item: Some(item), engine_alive: true }
            && in_service(events.take(k))),
{
    let before = events.take(k);
    assert(enabled(state_after(before), events[k]));
    lemma_prefix_is_possible(events, k);
    lemma_in_service(before);
}

/// Each item that the engine handles is answered before the next receive: what
/// came of it is passed on, or its failure is logged.
pub proof fn law_answers_what_it_handles<I, R, E>(events: Seq<ListenerEvent<I, R, E>>, k: int)
    requires
        possible(events),
        0 <= k,
        k + 1 < events.len(),
        action_at(events, k) is Handle,
    ensures
        events[k + 1] matches ListenerEvent::Handled(outcome) && action_at(events, k + 1) == (
        match outcome {
            Ok(result) => ListenerAction::<I, R, E>::Forward(result),
            Err(error) => ListenerAction::<I, R, E>::Report(error),
        }),
{
    assert(enabled(state_after(events.take(k)), events[k]));
    assert(enabled(state_after(events.take(k + 1)), events[k + 1]));
    assert(events.take(k + 1).drop_last() =~= events.take(k));
    assert(events.take(k + 1).last() == events[k]);
}

/// The channel is closed at the first receive that finds it ended or the engine
/// gone, and at no other. The listener ends at the first receive after that which
/// finds nothing left in the channel, and nothing happens to it any more.
pub proof fn law_ends_on_an_empty_closed_channel<I, R, E>(
    events: Seq<ListenerEvent<I, R, E>>,
    k: int,
)
    requires
        possible(events),
        0 <= k < events.len(),
    ensures
        action_at(events, k) is Close <==> in_service(events.take(k)) && !shows_service(events[k]),
        action_at(events, k) is Stop <==> !in_service(events.take(k)) && (
        events[k] matches ListenerEvent::Received { item, .. } && item is None),
        action_at(events, k) is Stop ==> k == events.len() - 1,
{
    let before = events.take(k);
    assert(enabled(state_after(before), events[k]));
    lemma_prefix_is_possible(events, k);
    lemma_in_service(before);
    if k + 1 < events.len() {
        assert(enabled(state_after(events.take(k + 1)), events[k + 1]));
        assert(events.take(k + 1).drop_last() =~= events.take(k));
        assert(events.take(k + 1).last() == events[k]);
    }
}

/// A listener goes on until it ends: after a receive or an answer it can take
/// whatever the channel gives next, and while an item is handled it can take
/// whatever comes of that.
pub proof fn law_goes_on_until_it_ends<I, R, E>(
    events: Seq<ListenerEvent<I, R, E>>,
    item: Option<I>,
    engine_alive: bool,
    outcome: Result<R, E>,
)
    requires
        possible(events),
    ensures
        ({
            let last = action_at(events, events.len() - 1);
            if events.len() > 0 && last is Handle {
                possible(events.push(ListenerEvent::Handled(outcome)))
            } else if events.len() > 0 && last is Stop {
                true
            } else {
                possible(events.push(ListenerEvent::Received { item, engine_alive }))
            }
        }),
{
    let n = events.len() as int;
    assert(events.take(n) =~= events);
    if n > 0 {
        assert(events.drop_last() =~= events.take(n - 1));
        assert(enabled(state_after(events.take(n - 1)), events[n - 1]));
    }
    lemma_goes_on(events, ListenerEvent::Handled(outcome));
    lemma_goes_on(events, ListenerEvent::Received { item, engine_alive });
}

/// A listener can go on exactly with the events that can happen where it stands.
proof fn lemma_goes_on<I, R, E>(
    events: Seq<ListenerEvent<I, R, E>>,
    event: ListenerEvent<I, R, E>,
)
    requires
        possible(events),
    ensures
        possible(events.push(event)) <==> enabled(state_after(events), event),
{
    let longer = events.push(event);
    let n = events.len() as int;
    assert(longer.take(n) =~= events);
    if enabled(state_after(events), event) {
        assert forall|k: int| 0 <= k < longer.len() implies enabled(
            state_after(#[trigger] longer.take(k)),
            longer[k],
        ) by {
            if k < n {
                assert(longer.take(k) =~= events.take(k));
                assert(enabled(state_after(events.take(k)), events[k]));
            }
        }
    }
}

/// The items that are thrown away are exactly those received after the channel
/// was closed.
pub proof fn law_throws_away_what_is_left<I, R, E>(
    events: Seq<ListenerEvent<I, R, E>>,
    k: int,
    item: I,
)
    requires
        possible(events),
        0 <= k < events.len(),
    ensures
        action_at(events, k) == ListenerAction::<I, R, E>::Discard(item) <==> (!in_service(
            events.take(k),
        ) && (events[k] matches ListenerEvent::Received { item: received, .. } && received == Some(
            item,
        ))),
{
    let before = events.take(k);
    assert(enabled(state_after(before), events[k]));
    lemma_prefix_is_possible(events, k);
    lemma_in_service(before);
}

} // verus!
