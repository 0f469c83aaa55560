//! What holds of every run of the state machine, whatever the driver
//! reports.
//!
//! A run is the sequence of events that the driver has reported since the
//! start. The action due at the start counts as asked once, and so does the
//! action due after each event.

use vstd::prelude::*;
use crate::fetch::text_of_body;
use crate::frame::frame_at;
use crate::model::{next, state_after, State};
use crate::protocol::{order, stage_of, stage_rank, Action, Event, Stage, SyncStatus};

verus! {

/// How often `action` has been asked for in the course of a run.
pub open spec fn times_asked(events: Seq<Event>, action: Action) -> nat
    decreases events.len(),
{
    if events.len() == 0 {
        if action == Action::InitPeripherals {
            1
        } else {
            0
        }
    } else {
        times_asked(events.drop_last(), action) + if state_after(events).pending == action {
            1nat
        } else {
            0nat
        }
    }
}

/// The reports of a start-up in which nothing fails, up to the fetch.
pub open spec fn startup() -> Seq<Event> {
    Seq::new(7, |i: int| Event::Done)
}

/// The polls' answers as events.
pub open spec fn sync_answers(statuses: Seq<SyncStatus>) -> Seq<Event> {
    Seq::new(statuses.len(), |i: int| Event::Sync(statuses[i]))
}

/// How the numbers of askings stand to the order of the actions.
spec fn ordered(events: Seq<Event>) -> bool {
    let due = state_after(events).pending;
    &&& times_asked(events, due) >= 1
    &&& forall|a: Action|
        order(a) <= order(Action::Fetch) ==> #[trigger] times_asked(events, a) <= 1
    &&& forall|a: Action, b: Action|
        order(a) < order(b) && b != Action::Halt && #[trigger] times_asked(events, b) >= 1
            ==> #[trigger] times_asked(events, a) >= 1
    &&& forall|a: Action|
        order(due) <= order(Action::PollTimeSync) && order(due) < order(a) && a != Action::Halt
            ==> #[trigger] times_asked(events, a) == 0
}

/// What a reachable state holds, by the action due.
spec fn shaped(s: State) -> bool {
    &&& stage_of(s.pending) == Stage::Init || stage_of(s.pending) == Stage::WifiUp ==> s.text
        is None
    &&& stage_of(s.pending) == Stage::TimeWaiting || stage_of(s.pending) == Stage::Rendering
        ==> s.text is Some
    &&& s.frame is Some <==> s.pending == Action::Draw
    &&& s.frame matches Some(frame) ==> s.text matches Some(text) && exists|secs: u64|
        frame_at(secs, text) == Some(frame)
}

/// One more event extends a run by one transition, and by one asking of the
/// action that is then due.
pub proof fn lemma_one_more_event(events: Seq<Event>, event: Event, action: Action)
    ensures
        state_after(events.push(event)) == next(state_after(events), event),
        times_asked(events.push(event), action) == times_asked(events, action) + if next(
            state_after(events),
            event,
        ).pending == action {
            1nat
        } else {
            0nat
        },
{
    assert(events.push(event).drop_last() =~= events);
}

proof fn lemma_ordered(events: Seq<Event>)
    ensures
        ordered(events),
    decreases events.len(),
{
    if events.len() > 0 {
        let before = events.drop_last();
        lemma_ordered(before);
        let was_due = state_after(before).pending;
        let due = state_after(events).pending;
        assert forall|a: Action| #[trigger]
            times_asked(events, a) == times_asked(before, a) + if due == a {
                1nat
            } else {
                0nat
            } by {}
        assert forall|a: Action, b: Action|
            order(a) < order(b) && b != Action::Halt && #[trigger] times_asked(events, b)
                >= 1 implies #[trigger] times_asked(events, a) >= 1 by {
            if times_asked(before, b) == 0 {
                assert(b == due);
                if a != was_due {
                    assert(times_asked(before, was_due) >= 1);
                    assert(times_asked(before, a) >= 1);
                }
            }
        }
    }
}

proof fn lemma_shaped(events: Seq<Event>)
    ensures
        shaped(state_after(events)),
    decreases events.len(),
{
    if events.len() > 0 {
        lemma_shaped(events.drop_last());
    }
}

/// The actions are first asked in their order: where an action other than
/// [`Action::Halt`] has been asked, every action before it in the order
/// has been asked too. An action of the start-up, the fetch among them, is
/// never asked twice.
pub proof fn lemma_asked_in_order(events: Seq<Event>, earlier: Action, later: Action)
    requires
        order(earlier) < order(later),
        later != Action::Halt,
        times_asked(events, later) >= 1,
    ensures
        times_asked(events, earlier) >= 1,
        order(earlier) <= order(Action::Fetch) ==> times_asked(events, earlier) == 1,
{
    lemma_ordered(events);
}

/// A start-up in which nothing fails has the fetch due, and has asked once
/// for it and for each action before it, and for nothing else.
pub proof fn lemma_startup_reaches_fetch(action: Action)
    ensures
        state_after(startup()).pending == Action::Fetch,
        state_after(startup()).text is None,
        times_asked(startup(), action) == if order(action) <= order(Action::Fetch) {
            1nat
        } else {
            0nat
        },
{
    let e0 = Seq::<Event>::empty();
    let e1 = e0.push(Event::Done);
    let e2 = e1.push(Event::Done);
    let e3 = e2.push(Event::Done);
    let e4 = e3.push(Event::Done);
    let e5 = e4.push(Event::Done);
    let e6 = e5.push(Event::Done);
    let e7 = e6.push(Event::Done);
    lemma_one_more_event(e0, Event::Done, action);
    lemma_one_more_event(e1, Event::Done, action);
    lemma_one_more_event(e2, Event::Done, action);
    lemma_one_more_event(e3, Event::Done, action);
    lemma_one_more_event(e4, Event::Done, action);
    lemma_one_more_event(e5, Event::Done, action);
    lemma_one_more_event(e6, Event::Done, action);
    assert(e7 =~= startup());
}

/// The text is fetched at most once in a run, and exactly once in a run
/// that has got as far as polling the clock synchronisation or drawing a
/// frame.
pub proof fn lemma_fetched_once(events: Seq<Event>)
    ensures
        times_asked(events, Action::Fetch) <= 1,
        times_asked(events, Action::PollTimeSync) >= 1 ==> times_asked(events, Action::Fetch) == 1,
        times_asked(events, Action::Draw) >= 1 ==> times_asked(events, Action::Fetch) == 1,
{
    lemma_ordered(events);
}

/// While the text has not been fetched, nothing is polled and nothing is
/// drawn; while the clock is not synchronised, nothing is drawn.
pub proof fn lemma_nothing_drawn_early(events: Seq<Event>)
    ensures
        stage_of(state_after(events).pending) == Stage::Init || stage_of(
            state_after(events).pending,
        ) == Stage::WifiUp ==> times_asked(events, Action::PollTimeSync) == 0 && times_asked(
            events,
            Action::Draw,
        ) == 0,
        stage_of(state_after(events).pending) == Stage::TimeWaiting ==> times_asked(
            events,
            Action::Draw,
        ) == 0,
{
    lemma_ordered(events);
}

/// A run with the fetch due, in which the fetch then succeeds and the clock
/// synchronisation is found unfinished `waits.len()` times and then
/// completed, has polled `waits.len() + 1` times, has drawn nothing, and
/// goes on to read the clock for the first frame.
pub proof fn lemma_polls_until_synced(events: Seq<Event>, body: Vec<u8>, waits: Seq<SyncStatus>)
    requires
        state_after(events).pending == Action::Fetch,
        forall|i: int| 0 <= i < waits.len() ==> waits[i] != SyncStatus::Completed,
    ensures
        ({
            let waiting = events.push(Event::Body(body)) + sync_answers(waits);
            let synced = waiting.push(Event::Sync(SyncStatus::Completed));
            &&& state_after(waiting).pending == Action::PollTimeSync
            &&& times_asked(waiting, Action::PollTimeSync) == waits.len() + 1
            &&& state_after(synced).pending == Action::ReadClock
            &&& times_asked(synced, Action::PollTimeSync) == waits.len() + 1
            &&& times_asked(synced, Action::Draw) == 0
        }),
    decreases waits.len(),
{
    let fetched = events.push(Event::Body(body));
    let waiting = fetched + sync_answers(waits);
    lemma_ordered(events);
    if waits.len() == 0 {
        assert(waiting =~= fetched);
        lemma_one_more_event(events, Event::Body(body), Action::PollTimeSync);
    } else {
        let fewer = waits.drop_last();
        lemma_polls_until_synced(events, body, fewer);
        let shorter = fetched + sync_answers(fewer);
        assert(waiting =~= shorter.push(Event::Sync(waits.last())));
        lemma_one_more_event(shorter, Event::Sync(waits.last()), Action::PollTimeSync);
    }
    lemma_ordered(waiting);
    lemma_one_more_event(waiting, Event::Sync(SyncStatus::Completed), Action::PollTimeSync);
    lemma_one_more_event(waiting, Event::Sync(SyncStatus::Completed), Action::Draw);
}

/// A failure halts the run, whatever was due.
pub proof fn lemma_failure_halts(s: State)
    ensures
        next(s, Event::Failed).pending == Action::Halt,
{
}

/// A halted run stays halted: whatever is reported afterwards, nothing but
/// [`Action::Halt`] is due, and no action but it is asked again.
pub proof fn lemma_halt_is_final(events: Seq<Event>, more: Seq<Event>, action: Action)
    requires
        state_after(events).pending == Action::Halt,
    ensures
        state_after(events + more).pending == Action::Halt,
        action != Action::Halt ==> times_asked(events + more, action) == times_asked(
            events,
            action,
        ),
    decreases more.len(),
{
    if more.len() == 0 {
        assert(events + more =~= events);
    } else {
        lemma_halt_is_final(events, more.drop_last(), action);
        assert(events + more =~= (events + more.drop_last()).push(more.last()));
        lemma_one_more_event(events + more.drop_last(), more.last(), action);
    }
}

/// A run in which the fetch fails never draws a frame.
pub proof fn lemma_failed_fetch_draws_nothing(events: Seq<Event>, more: Seq<Event>)
    requires
        state_after(events).pending == Action::Fetch,
    ensures
        times_asked(events.push(Event::Failed) + more, Action::Draw) == 0,
{
    lemma_ordered(events);
    lemma_one_more_event(events, Event::Failed, Action::Draw);
    lemma_halt_is_final(events.push(Event::Failed), more, Action::Draw);
}

/// Once fetched, the text stays as it is for the rest of the run.
pub proof fn lemma_text_is_frozen(events: Seq<Event>, more: Seq<Event>)
    requires
        state_after(events).text is Some,
    ensures
        state_after(events + more).text == state_after(events).text,
    decreases more.len(),
{
    if more.len() == 0 {
        assert(events + more =~= events);
    } else {
        lemma_text_is_frozen(events, more.drop_last());
        assert(events + more =~= (events + more.drop_last()).push(more.last()));
        lemma_one_more_event(events + more.drop_last(), more.last(), Action::Halt);
        lemma_shaped(events + more.drop_last());
    }
}

/// There is no text before the fetch has been answered, and there is one
/// in every later stage but the halted one, where there may be one.
pub proof fn lemma_text_since_fetch(events: Seq<Event>)
    ensures
        stage_of(state_after(events).pending) == Stage::Init || stage_of(
            state_after(events).pending,
        ) == Stage::WifiUp ==> state_after(events).text is None,
        stage_of(state_after(events).pending) == Stage::TimeWaiting || stage_of(
            state_after(events).pending,
        ) == Stage::Rendering ==> state_after(events).text is Some,
{
    lemma_shaped(events);
}

/// There is a frame exactly while a draw is due, and it is the status line
/// of some clock reading and the fetched text.
pub proof fn lemma_frame_shows_text(events: Seq<Event>)
    ensures
        state_after(events).frame is Some <==> state_after(events).pending == Action::Draw,
        state_after(events).frame matches Some(frame) ==> state_after(events).text matches Some(
            text,
        ) && exists|secs: u64| frame_at(secs, text) == Some(frame),
{
    lemma_shaped(events);
}

/// Whatever follows a fetch that was answered with `body`, the text is the
/// text of that body, and every frame is the status line of some clock
/// reading and that text.
pub proof fn lemma_frames_show_the_fetched_text(
    events: Seq<Event>,
    body: Vec<u8>,
    more: Seq<Event>,
)
    requires
        state_after(events).pending == Action::Fetch,
    ensures
        ({
            let after = state_after(events.push(Event::Body(body)) + more);
            &&& after.text == Some(text_of_body(body@))
            &&& after.frame matches Some(frame) ==> exists|secs: u64|
                frame_at(secs, text_of_body(body@)) == Some(frame)
        }),
{
    lemma_one_more_event(events, Event::Body(body), Action::Halt);
    lemma_text_is_frozen(events.push(Event::Body(body)), more);
    lemma_frame_shows_text(events.push(Event::Body(body)) + more);
}

/// No event takes a run back to an earlier stage.
pub proof fn lemma_stages_in_order(s: State, event: Event)
    ensures
        stage_rank(stage_of(s.pending)) <= stage_rank(stage_of(next(s, event).pending)),
{
}

} // verus!
