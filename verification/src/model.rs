//! The run of the appliance as a state machine over the driver's reports.
//!
//! The actions come due in a fixed order:
//!
//! ```text
//! InitPeripherals -> ConfigureWifi -> StartWifi -> ConnectWifi -> AwaitAddress
//!   -> OpenHttpClient -> StartTimeSync -> Fetch -> PollTimeSync (until completed)
//!   -> ReadClock -> Draw -> Flush -> Sleep -> ClearBuffer -> ReadClock -> ...
//! ```
//!
//! Any failure, and any event that does not answer the action that was due,
//! ends in [`Action::Halt`], for good.

use vstd::prelude::*;
use crate::fetch::text_of_body;
use crate::frame::frame_at;
use crate::protocol::{Action, Event, SyncStatus};

verus! {

/// The machine as the contracts see it.
pub struct State {
    /// The action that is due.
    pub pending: Action,
    /// The fetched text, once there is one.
    pub text: Option<Seq<char>>,
    /// The frame to draw, while [`Action::Draw`] is due.
    pub frame: Option<Seq<char>>,
}

/// The state before anything has happened.
pub open spec fn initial() -> State {
    State { pending: Action::InitPeripherals, text: None, frame: None }
}

/// The state `s` with `action` due and no frame.
pub open spec fn due(s: State, action: Action) -> State {
    State { pending: action, text: s.text, frame: None }
}

/// The state after the clock was read as `secs` while a frame was awaited.
pub open spec fn after_clock(s: State, secs: u64) -> State {
    match s.text {
        Some(text) => match frame_at(secs, text) {
            Some(frame) => State { pending: Action::Draw, text: s.text, frame: Some(frame) },
            None => due(s, Action::Halt),
        },
        None => due(s, Action::Halt),
    }
}

/// The state that follows `s` when the driver reports `event`.
pub open spec fn next(s: State, event: Event) -> State {
    match (s.pending, event) {
        (Action::InitPeripherals, Event::Done) => due(s, Action::ConfigureWifi),
        (Action::ConfigureWifi, Event::Done) => due(s, Action::StartWifi),
        (Action::StartWifi, Event::Done) => due(s, Action::ConnectWifi),
        (Action::ConnectWifi, Event::Done) => due(s, Action::AwaitAddress),
        (Action::AwaitAddress, Event::Done) => due(s, Action::OpenHttpClient),
        (Action::OpenHttpClient, Event::Done) => due(s, Action::StartTimeSync),
        (Action::StartTimeSync, Event::Done) => due(s, Action::Fetch),
        (Action::Fetch, Event::Body(bytes)) => State {
            pending: Action::PollTimeSync,
            text: Some(text_of_body(bytes@)),
            frame: None,
        },
        (Action::PollTimeSync, Event::Sync(status)) => if status == SyncStatus::Completed {
            due(s, Action::ReadClock)
        } else {
            due(s, Action::PollTimeSync)
        },
        (Action::ReadClock, Event::Clock(secs)) => after_clock(s, secs),
        (Action::Draw, Event::Done) => due(s, Action::Flush),
        (Action::Flush, Event::Done) => due(s, Action::Sleep),
        (Action::Sleep, Event::Done) => due(s, Action::ClearBuffer),
        (Action::ClearBuffer, Event::Done) => due(s, Action::ReadClock),
        _ => due(s, Action::Halt),
    }
}

/// The state that a run ends in, a run being the events that the driver has
/// reported since the start, in their order.
pub open spec fn state_after(events: Seq<Event>) -> State
    decreases events.len(),
{
    if events.len() == 0 {
        initial()
    } else {
        next(state_after(events.drop_last()), events.last())
    }
}

} // verus!
