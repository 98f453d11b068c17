//! The start of the core: first the engine is started, then the subscriber.

use vstd::prelude::*;

verus! {

/// How far the core's start has come.
#[derive(Clone, Copy, Debug, PartialEq, Eq, Structural)]
pub enum StartPhase {
    /// The core is not started, and no start is under way.
    Stopped,
    /// A start is under way, and the engine is being started.
    EngineStarting,
    /// A start is under way, and the subscriber is being started.
    SubscriberStarting,
    /// The core is started.
    Started,
}

impl StartPhase {
    /// Whether a start is under way.
    pub open spec fn under_way(self) -> bool {
        self is EngineStarting || self is SubscriberStarting
    }
}

/// What happens to the core's start. `E` is why the engine or the subscriber
/// fails to start.
pub enum StartEvent<E> {
    /// A start is asked for.
    Requested,
    /// The engine's own start came to its end.
    EngineStarted(Result<(), E>),
    /// The subscriber's own start came to its end.
    SubscriberStarted(Result<(), E>),
    /// Whoever asked for the start has given it up.
    Abandoned,
}

/// Which events can happen in a phase: a start is asked for when none is under
/// way, and each part ends while it is being started.
pub open spec fn enabled<E>(phase: StartPhase, event: StartEvent<E>) -> bool {
    match event {
        StartEvent::Requested => !phase.under_way(),
        StartEvent::EngineStarted(_) => phase is EngineStarting,
        StartEvent::SubscriberStarted(_) => phase is SubscriberStarting,
        StartEvent::Abandoned => true,
    }
}

/// The phase after an event. A started core stays started.
pub open spec fn next<E>(phase: StartPhase, event: StartEvent<E>) -> StartPhase {
    match event {
        _ if phase is Started => StartPhase::Started,
        StartEvent::Requested => StartPhase::EngineStarting,
        StartEvent::EngineStarted(Ok(())) => StartPhase::SubscriberStarting,
        StartEvent::SubscriberStarted(Ok(())) => StartPhase::Started,
        _ => StartPhase::Stopped,
    }
}

/// The phase of a new core after `events`.
pub open spec fn phase_after<E>(events: Seq<StartEvent<E>>) -> StartPhase
    decreases events.len(),
{
    if events.len() == 0 {
        StartPhase::Stopped
    } else {
        next(phase_after(events.drop_last()), events.last())
    }
}

/// That `events` can happen, one after the other, to a new core.
pub open spec fn possible<E>(events: Seq<StartEvent<E>>) -> bool {
    forall|k: int|
        0 <= k < events.len() ==> enabled(phase_after(#[trigger] events.take(k)), events[k])
}

/// That an event is the successful end of a start.
pub open spec fn succeeds<E>(event: StartEvent<E>) -> bool {
    event matches StartEvent::SubscriberStarted(outcome) && outcome is Ok
}

/// That an event ends the start that is under way.
pub open spec fn ends<E>(event: StartEvent<E>) -> bool {
    match event {
        StartEvent::Requested => false,
        StartEvent::EngineStarted(outcome) => outcome is Err,
        StartEvent::SubscriberStarted(_) => true,
        StartEvent::Abandoned => true,
    }
}

proof fn lemma_phase_step<E>(events: Seq<StartEvent<E>>, k: int)
    requires
        0 <= k < events.len(),
    ensures
        phase_after(events.take(k + 1)) == next(phase_after(events.take(k)), events[k]),
{
    assert(events.take(k + 1).drop_last() =~= events.take(k));
    assert(events.take(k + 1).last() == events[k]);
}

proof fn lemma_started_by<E>(events: Seq<StartEvent<E>>, n: int)
    requires
        possible(events),
        0 <= n <= events.len(),
    ensures
        phase_after(events.take(n)) is Started <==> exists|i: int|
            0 <= i < n && succeeds(#[trigger] events[i]),
    decreases n,
{
    if n > 0 {
        lemma_started_by(events, n - 1);
        lemma_phase_step(events, n - 1);
        assert(enabled(phase_after(events.take(n - 1)), events[n - 1]));
        if phase_after(events.take(n)) is Started && !(phase_after(
            events.take(n - 1),
        ) is Started) {
            assert(succeeds(events[n - 1]));
        }
    }
}

/// The core is started exactly when some start has come to its successful end.
pub proof fn law_started_by_a_successful_start<E>(events: Seq<StartEvent<E>>)
    requires
        possible(events),
    ensures
        phase_after(events) is Started <==> exists|i: int|
            0 <= i < events.len() && succeeds(#[trigger] events[i]),
{
    assert(events.take(events.len() as int) =~= events);
    lemma_started_by(events, events.len() as int);
}

/// At most one start ever succeeds, however many are asked for.
pub proof fn law_started_at_most_once<E>(events: Seq<StartEvent<E>>, i: int, j: int)
    requires
        possible(events),
        0 <= i < events.len(),
        0 <= j < events.len(),
        succeeds(events[i]),
        succeeds(events[j]),
    ensures
        i == j,
{
    if i < j {
        lemma_started_by(events, j);
        assert(enabled(phase_after(events.take(j)), events[j]));
    }
    if j < i {
        lemma_started_by(events, i);
        assert(enabled(phase_after(events.take(i)), events[i]));
    }
}

/// After the start that succeeded, every start that is asked for is refused: it
/// finds the core started.
pub proof fn law_start_is_refused_once_started<E>(events: Seq<StartEvent<E>>, i: int, j: int)
    requires
        possible(events),
        0 <= i < j < events.len(),
        succeeds(events[i]),
        events[j] is Requested,
    ensures
        phase_after(events.take(j)) is Started,
{
    lemma_started_by(events, j);
}

proof fn lemma_under_way<E>(events: Seq<StartEvent<E>>, i: int, n: int)
    requires
        possible(events),
        0 <= i < n <= events.len(),
        events[i] is Requested,
        phase_after(events.take(i)) is Stopped,
        forall|m: int| i < m < n ==> !ends(#[trigger] events[m]),
    ensures
        phase_after(events.take(n)).under_way(),
    decreases n,
{
    lemma_phase_step(events, n - 1);
    assert(enabled(phase_after(events.take(n - 1)), events[n - 1]));
    if i < n - 1 {
        lemma_under_way(events, i, n - 1);
        assert(!ends(events[n - 1]));
    }
}

/// Starts do not overlap: between a start that was granted and the next that is
/// asked for, the first has ended.
pub proof fn law_one_start_at_a_time<E>(events: Seq<StartEvent<E>>, i: int, j: int)
    requires
        possible(events),
        0 <= i < j < events.len(),
        events[i] is Requested,
        phase_after(events.take(i)) is Stopped,
        events[j] is Requested,
    ensures
        exists|m: int| i < m < j && ends(#[trigger] events[m]),
{
    if forall|m: int| i < m < j ==> !ends(#[trigger] events[m]) {
        lemma_under_way(events, i, j);
        assert(enabled(phase_after(events.take(j)), events[j]));
    }
}

/// The next part of a start can always come, and once a start has ended the next
/// can be asked for: no end of a start, good or bad, leaves the core stuck.
pub proof fn law_start_never_gets_stuck<E>(events: Seq<StartEvent<E>>, outcome: Result<(), E>)
    requires
        possible(events),
    ensures
        possible(events.push(StartEvent::Abandoned)),
        events.len() == 0 ==> possible(events.push(StartEvent::Requested)),
        events.len() > 0 ==> match events.last() {
            StartEvent::Requested => {
                ||| possible(events.push(StartEvent::EngineStarted(outcome)))
                ||| exists|i: int| 0 <= i < events.len() && succeeds(#[trigger] events[i])
            },
            StartEvent::EngineStarted(Ok(())) => possible(
                events.push(StartEvent::SubscriberStarted(outcome)),
            ),
            StartEvent::EngineStarted(Err(_)) => possible(events.push(StartEvent::Requested)),
            StartEvent::SubscriberStarted(_) => possible(events.push(StartEvent::Requested)),
            StartEvent::Abandoned => possible(events.push(StartEvent::Requested)),
        },
{
    let n = events.len() as int;
    assert(events.take(n) =~= events);
    if n > 0 {
        lemma_phase_step(events, n - 1);
        assert(enabled(phase_after(events.take(n - 1)), events[n - 1]));
        lemma_started_by(events, n);
    }
    lemma_goes_on(events, StartEvent::Abandoned);
    lemma_goes_on(events, StartEvent::Requested);
    lemma_goes_on(events, StartEvent::EngineStarted(outcome));
    lemma_goes_on(events, StartEvent::SubscriberStarted(outcome));
}

/// A run can go on exactly with the events that can happen in the phase it has
/// come to.
proof fn lemma_goes_on<E>(events: Seq<StartEvent<E>>, event: StartEvent<E>)
    requires
        possible(events),
    ensures
        possible(events.push(event)) <==> enabled(phase_after(events), event),
{
    let longer = events.push(event);
    let n = events.len() as int;
    assert(longer.take(n) =~= events);
    if enabled(phase_after(events), event) {
        assert forall|k: int| 0 <= k < longer.len() implies enabled(
            phase_after(#[trigger] longer.take(k)),
            longer[k],
        ) by {
            if k < n {
                assert(longer.take(k) =~= events.take(k));
                assert(enabled(phase_after(events.take(k)), events[k]));
            }
        }
    }
}

/// A start that fails, or is given up, leaves the core as it was before: not
/// started, and free to be started again. One that succeeds starts it for good.
pub proof fn law_failed_start_leaves_the_core_stopped<E>(error: E)
    ensures
        ({
            let asked = next(StartPhase::Stopped, StartEvent::<E>::Requested);
            let halfway = next(asked, StartEvent::<E>::EngineStarted(Ok(())));
            let done = next(halfway, StartEvent::<E>::SubscriberStarted(Ok(())));
            &&& next(asked, StartEvent::EngineStarted(Err(error))) is Stopped
            &&& next(asked, StartEvent::<E>::Abandoned) is Stopped
            &&& next(halfway, StartEvent::SubscriberStarted(Err(error))) is Stopped
            &&& next(halfway, StartEvent::<E>::Abandoned) is Stopped
            &&& done is Started
            &&& next(done, StartEvent::<E>::Requested) is Started
            &&& next(done, StartEvent::<E>::Abandoned) is Started
        }),
{
}

/// A start is under way from the moment it is granted until it has ended, and the
/// next can be asked for exactly when none is.
pub proof fn law_under_way_while_parts_are_started<E>(phase: StartPhase)
    ensures
        phase.under_way() <==> phase != StartPhase::Stopped && phase != StartPhase::Started,
        enabled(phase, StartEvent::<E>::Requested) <==> !phase.under_way(),
        next(StartPhase::Stopped, StartEvent::<E>::Requested).under_way(),
{
}

} // verus!
