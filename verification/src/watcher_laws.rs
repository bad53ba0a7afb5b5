//! What holds of every course a watcher can take.

use vstd::prelude::*;
use crate::config::Persistence;
use crate::watcher::{
    answers,
    request_of,
    run,
    start,
    step,
    EventModel,
    PhaseModel,
    RequestModel,
    WatchFailure,
    WatcherModel,
};

verus! {

/// The phases of a watcher, without what they hold.
pub enum Stage {
    Connecting,
    Selecting,
    Polling,
    Fetching,
    Notifying,
    Idling,
    Closing,
    Terminated,
}

/// The stage a phase belongs to.
pub open spec fn stage_of(phase: PhaseModel) -> Stage {
    match phase {
        PhaseModel::Connecting { .. } => Stage::Connecting,
        PhaseModel::Selecting => Stage::Selecting,
        PhaseModel::Polling => Stage::Polling,
        PhaseModel::Fetching { .. } => Stage::Fetching,
        PhaseModel::Notifying { .. } => Stage::Notifying,
        PhaseModel::Idling => Stage::Idling,
        PhaseModel::Closing => Stage::Closing,
        PhaseModel::Terminated { .. } => Stage::Terminated,
    }
}

/// How often the watcher comes into `stage` from another stage in the
/// course of `events`: how often it takes up the request of that stage.
pub open spec fn entries(watcher: WatcherModel, events: Seq<EventModel>, stage: Stage) -> nat
    decreases events.len(),
{
    if events.len() == 0 {
        0
    } else {
        let before = run(watcher, events.drop_last());
        let after = step(before, events.last());
        let entered: nat = if stage_of(after.phase) == stage && stage_of(before.phase) != stage {
            1
        } else {
            0
        };
        entries(watcher, events.drop_last(), stage) + entered
    }
}

/// Whether every one of `events` is the outcome of the request that the
/// watcher has when it comes.
pub open spec fn in_order(watcher: WatcherModel, events: Seq<EventModel>) -> bool
    decreases events.len(),
{
    events.len() == 0 || (in_order(watcher, events.drop_last()) && answers(
        run(watcher, events.drop_last()).phase,
        events.last(),
    ))
}

/// The number of requests that a watcher which looks once can still make,
/// at most.
pub open spec fn requests_left(phase: PhaseModel) -> nat {
    match phase {
        PhaseModel::Connecting { .. } => 6,
        PhaseModel::Selecting => 5,
        PhaseModel::Polling => 4,
        PhaseModel::Fetching { .. } => 3,
        PhaseModel::Notifying { .. } => 2,
        PhaseModel::Idling => 1,
        PhaseModel::Closing => 1,
        PhaseModel::Terminated { .. } => 0,
    }
}

/// Whether a watcher in `phase` has come as far as looking for unseen
/// messages.
pub open spec fn has_looked(phase: PhaseModel) -> bool {
    match phase {
        PhaseModel::Connecting { .. } => false,
        PhaseModel::Selecting => false,
        PhaseModel::Terminated { outcome: Err(WatchFailure::Connection(_)) } => false,
        PhaseModel::Terminated { outcome: Err(WatchFailure::Selection(_)) } => false,
        _ => true,
    }
}

/// Failed attempts to connect, one for each reason.
pub open spec fn failed_connects(reasons: Seq<Seq<char>>) -> Seq<EventModel> {
    Seq::new(reasons.len(), |i: int| EventModel::Connect(Err(reasons[i])))
}

/// Running through two sequences of events in a row is running through
/// them joined.
pub proof fn lemma_run_joined(watcher: WatcherModel, first: Seq<EventModel>, then: Seq<EventModel>)
    ensures
        run(watcher, first + then) == run(run(watcher, first), then),
    decreases then.len(),
{
    if then.len() == 0 {
        assert(first + then == first);
    } else {
        assert((first + then).drop_last() == first + then.drop_last());
        assert((first + then).last() == then.last());
        lemma_run_joined(watcher, first, then.drop_last());
    }
}

/// A watcher keeps its mailbox and its persistence, whatever happens.
pub proof fn lemma_identity_stays(watcher: WatcherModel, events: Seq<EventModel>)
    ensures
        run(watcher, events).mailbox == watcher.mailbox,
        run(watcher, events).persistence == watcher.persistence,
    decreases events.len(),
{
    if events.len() > 0 {
        lemma_identity_stays(watcher, events.drop_last());
    }
}

/// An event that is not the outcome of the watcher's request changes
/// nothing, and a watcher that has stopped stays as it is.
pub proof fn lemma_other_events_change_nothing(watcher: WatcherModel, event: EventModel)
    requires
        !answers(watcher.phase, event),
    ensures
        step(watcher, event) == watcher,
{
}

proof fn lemma_one_shot_course(mailbox: Seq<char>, events: Seq<EventModel>)
    ensures
        ({
            let watcher = start(mailbox, Persistence::OneShot);
            let reached = run(watcher, events);
            &&& reached.mailbox == mailbox
            &&& reached.persistence == Persistence::OneShot
            &&& !(reached.phase is Idling)
            &&& reached.phase != PhaseModel::Connecting { first: false }
            &&& entries(watcher, events, Stage::Polling) == if has_looked(reached.phase) {
                1nat
            } else {
                0nat
            }
            &&& entries(watcher, events, Stage::Notifying) <= 1
            &&& requests_left(reached.phase) >= 2 && !(reached.phase is Notifying) ==> entries(
                watcher,
                events,
                Stage::Notifying,
            ) == 0
            &&& entries(watcher, events, Stage::Idling) == 0
            &&& in_order(watcher, events) ==> events.len() + requests_left(reached.phase) <= 6
        }),
    decreases events.len(),
{
    if events.len() > 0 {
        lemma_one_shot_course(mailbox, events.drop_last());
    }
}

/// A watcher that looks once looks exactly once.
///
/// Whatever the outcomes of its requests, it searches the mailbox at most
/// once, notifies the user at most once, and never waits for news. If it
/// ends in good order, it has searched the mailbox exactly once.
pub proof fn lemma_one_shot_looks_once(mailbox: Seq<char>, events: Seq<EventModel>)
    ensures
        ({
            let watcher = start(mailbox, Persistence::OneShot);
            let reached = run(watcher, events);
            &&& entries(watcher, events, Stage::Polling) <= 1
            &&& entries(watcher, events, Stage::Notifying) <= 1
            &&& entries(watcher, events, Stage::Idling) == 0
            &&& !(reached.phase is Idling)
            &&& !(request_of(reached) is Idle)
            &&& reached.phase == (PhaseModel::Terminated { outcome: Ok(()) }) ==> entries(
                watcher,
                events,
                Stage::Polling,
            ) == 1
        }),
{
    lemma_one_shot_course(mailbox, events);
}

/// A watcher that looks once stops after six requests at most: to
/// connect, to select, to search, to fetch, to notify and to log out.
pub proof fn lemma_one_shot_terminates(mailbox: Seq<char>, events: Seq<EventModel>)
    requires
        in_order(start(mailbox, Persistence::OneShot), events),
    ensures
        events.len() <= 6,
        events.len() == 6 ==> run(start(mailbox, Persistence::OneShot), events).phase is Terminated,
        events.len() + requests_left(run(start(mailbox, Persistence::OneShot), events).phase) <= 6,
{
    lemma_one_shot_course(mailbox, events);
}

/// One step of a watcher that does not stop by itself.
///
/// A look ends in waiting for news: the search leads there or to the
/// retrieval, the retrieval leads there or to the notification, and the
/// notification leads there. A wake in good order leads to the next
/// search. The watcher stops only where its first connection or the
/// selection of its mailbox fails.
pub proof fn lemma_persistent_step(watcher: WatcherModel, event: EventModel)
    requires
        watcher.persistence != Persistence::OneShot,
        answers(watcher.phase, event),
    ensures
        watcher.phase is Polling ==> step(watcher, event).phase is Idling || step(
            watcher,
            event,
        ).phase is Fetching,
        watcher.phase is Fetching ==> step(watcher, event).phase is Idling || step(
            watcher,
            event,
        ).phase is Notifying,
        watcher.phase is Notifying ==> step(watcher, event).phase is Idling,
        watcher.phase is Idling && event == EventModel::Idle(Ok(())) ==> step(
            watcher,
            event,
        ).phase is Polling,
        step(watcher, event).phase is Terminated && !(watcher.phase is Closing) ==> (watcher.phase
            == (PhaseModel::Connecting { first: true }) && event matches EventModel::Connect(
            Err(_),
        )) || (watcher.phase is Selecting && event matches EventModel::Select(Err(_))),
        !(watcher.phase is Closing) ==> !(step(watcher, event).phase is Closing),
{
}

/// A watcher that does not look just once never stops by itself.
///
/// Whatever the outcomes of its requests, it never closes its session and
/// never ends in good order. It ends only where it cannot begin: the
/// first connection failed, or the mailbox could not be selected.
pub proof fn lemma_persistent_never_finishes(
    mailbox: Seq<char>,
    persistence: Persistence,
    events: Seq<EventModel>,
)
    requires
        persistence != Persistence::OneShot,
    ensures
        ({
            let reached = run(start(mailbox, persistence), events);
            &&& reached.persistence == persistence
            &&& !(reached.phase is Closing)
            &&& !(request_of(reached) is Logout)
            &&& entries(start(mailbox, persistence), events, Stage::Closing) == 0
            &&& reached.phase matches PhaseModel::Terminated { outcome } ==> (outcome matches Err(
                WatchFailure::Connection(_),
            )) || (outcome matches Err(WatchFailure::Selection(_)))
        }),
    decreases events.len(),
{
    if events.len() > 0 {
        lemma_persistent_never_finishes(mailbox, persistence, events.drop_last());
    }
}

proof fn lemma_reconnecting(watcher: WatcherModel, reasons: Seq<Seq<char>>)
    requires
        watcher.phase == (PhaseModel::Connecting { first: false }),
    ensures
        run(watcher, failed_connects(reasons)) == watcher,
    decreases reasons.len(),
{
    if reasons.len() > 0 {
        assert(failed_connects(reasons).drop_last() == failed_connects(reasons.drop_last()));
        lemma_reconnecting(watcher, reasons.drop_last());
    }
}

/// A failed wait costs the session and nothing else.
///
/// The watcher goes back to connecting, where it asks for a new session
/// and goes on asking however often that fails. Once a session is there
/// and the mailbox is selected, it looks for unseen messages again.
pub proof fn lemma_idle_failure_reconnects(
    watcher: WatcherModel,
    reason: Seq<char>,
    failures: Seq<Seq<char>>,
)
    requires
        watcher.phase is Idling,
    ensures
        step(watcher, EventModel::Idle(Err(reason))).phase == (PhaseModel::Connecting {
            first: false,
        }),
        request_of(step(watcher, EventModel::Idle(Err(reason)))) == RequestModel::Connect,
        run(watcher, seq![EventModel::Idle(Err(reason))] + failed_connects(failures)).phase == (
        PhaseModel::Connecting { first: false }),
        run(
            watcher,
            seq![EventModel::Idle(Err(reason))] + failed_connects(failures) + seq![
                EventModel::Connect(Ok(())),
                EventModel::Select(Ok(())),
            ],
        ).phase == PhaseModel::Polling,
{
    let failed = seq![EventModel::Idle(Err(reason))];
    let lost = step(watcher, EventModel::Idle(Err(reason)));
    assert(run(watcher, failed) == lost) by {
        assert(failed.drop_last() == Seq::<EventModel>::empty());
        assert(failed.last() == EventModel::Idle(Err(reason)));
        assert(run(watcher, failed.drop_last()) == watcher);
    }
    lemma_run_joined(watcher, failed, failed_connects(failures));
    lemma_reconnecting(lost, failures);
    let resumed = seq![EventModel::Connect(Ok(())), EventModel::Select(Ok(()))];
    lemma_run_joined(watcher, failed + failed_connects(failures), resumed);
    assert(run(lost, resumed).phase == PhaseModel::Polling) by {
        assert(resumed.drop_last() == seq![EventModel::Connect(Ok(()))]);
        assert(resumed.drop_last().drop_last() == Seq::<EventModel>::empty());
        assert(resumed.last() == EventModel::Select(Ok(())));
        assert(resumed.drop_last().last() == EventModel::Connect(Ok(())));
        assert(run(lost, resumed.drop_last().drop_last()) == lost);
        assert(run(lost, resumed.drop_last()).phase == PhaseModel::Selecting);
    }
}

} // verus!
