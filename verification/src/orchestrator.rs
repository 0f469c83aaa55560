//! The state machine as a value that a driver holds.
//!
//! The machine never touches hardware. It names the one piece of outside
//! work that is due, and is told how that work went. A driver performs the
//! action, hands the event to [`Orchestrator::step`], and goes on with the
//! action that is then due.

use vstd::prelude::*;
use crate::fetch::body_text;
use crate::frame::render_frame;
use crate::model::{initial, next, state_after, State};
use crate::protocol::{stage_of, Action, Event, Stage, SyncStatus};
use crate::trace::{lemma_frame_shows_text, lemma_text_since_fetch};

verus! {

/// The state machine.
pub struct Orchestrator {
    pending: Action,
    text: Option<String>,
    frame: Option<String>,
    run: Ghost<Seq<Event>>,
}

impl View for Orchestrator {
    type V = State;

    closed spec fn view(&self) -> State {
        State {
            pending: self.pending,
            text: match self.text {
                Some(t) => Some(t@),
                None => None,
            },
            frame: match self.frame {
                Some(f) => Some(f@),
                None => None,
            },
        }
    }
}

impl Orchestrator {
    /// The events that the machine has taken in so far.
    pub closed spec fn run(&self) -> Seq<Event> {
        self.run@
    }

    #[verifier::type_invariant]
    spec fn reached(&self) -> bool {
        self@ == state_after(self.run@)
    }

    /// A machine at the start of a run.
    pub fn new() -> (machine: Orchestrator)
        ensures
            machine.run() == Seq::<Event>::empty(),
            machine@ == initial(),
    {
        Orchestrator {
            pending: Action::InitPeripherals,
            text: None,
            frame: None,
            run: Ghost(Seq::empty()),
        }
    }

    /// The action that is due.
    pub fn action(&self) -> (action: Action)
        ensures
            action == self@.pending,
            self@ == state_after(self.run()),
    {
        proof {
            use_type_invariant(self);
        }
        self.pending
    }

    /// The stage that the run is in.
    pub fn stage(&self) -> (stage: Stage)
        ensures
            stage == stage_of(self@.pending),
    {
        self.pending.stage()
    }

    /// The fetched text: none before the fetch has been answered, and one
    /// from then on, unless the run halted before.
    pub fn text(&self) -> (text: Option<&str>)
        ensures
            match text {
                Some(t) => self@.text == Some(t@),
                None => self@.text is None,
            },
            stage_of(self@.pending) == Stage::Init || stage_of(self@.pending) == Stage::WifiUp
                ==> text is None,
            stage_of(self@.pending) == Stage::TimeWaiting || stage_of(self@.pending)
                == Stage::Rendering ==> text is Some,
    {
        proof {
            use_type_invariant(self);
            lemma_text_since_fetch(self.run@);
        }
        match &self.text {
            Some(t) => Some(t.as_str()),
            None => None,
        }
    }

    /// The frame to draw: one while [`Action::Draw`] is due, and none
    /// otherwise.
    pub fn frame(&self) -> (frame: Option<&str>)
        ensures
            match frame {
                Some(f) => self@.frame == Some(f@),
                None => self@.frame is None,
            },
            frame is Some <==> self@.pending == Action::Draw,
    {
        proof {
            use_type_invariant(self);
            lemma_frame_shows_text(self.run@);
        }
        match &self.frame {
            Some(f) => Some(f.as_str()),
            None => None,
        }
    }

    /// Takes in how the due action went and returns the action that is due
    /// next.
    pub fn step(&mut self, event: Event) -> (action: Action)
        ensures
            final(self).run() == old(self).run().push(event),
            final(self)@ == next(old(self)@, event),
            final(self)@ == state_after(final(self).run()),
            action == final(self)@.pending,
    {
        let mut taken = Orchestrator::new();
        core::mem::swap(self, &mut taken);
        proof {
            use_type_invariant(&taken);
        }
        let ghost run = taken.run@.push(event);
        assert(run.drop_last() =~= taken.run@);
        let mut text = taken.text;
        let mut frame: Option<String> = None;
        let upcoming = match (taken.pending, event) {
            (Action::InitPeripherals, Event::Done) => Action::ConfigureWifi,
            (Action::ConfigureWifi, Event::Done) => Action::StartWifi,
            (Action::StartWifi, Event::Done) => Action::ConnectWifi,
            (Action::ConnectWifi, Event::Done) => Action::AwaitAddress,
            (Action::AwaitAddress, Event::Done) => Action::OpenHttpClient,
            (Action::OpenHttpClient, Event::Done) => Action::StartTimeSync,
            (Action::StartTimeSync, Event::Done) => Action::Fetch,
            (Action::Fetch, Event::Body(bytes)) => {
                text = Some(body_text(bytes.as_slice()));
                Action::PollTimeSync
            },
            (Action::PollTimeSync, Event::Sync(status)) => {
                if status == SyncStatus::Completed {
                    Action::ReadClock
                } else {
                    Action::PollTimeSync
                }
            },
            (Action::ReadClock, Event::Clock(secs)) => {
                frame = match &text {
                    Some(text) => render_frame(secs, text.as_str()),
                    None => None,
                };
                if frame.is_some() {
                    Action::Draw
                } else {
                    Action::Halt
                }
            },
            (Action::Draw, Event::Done) => Action::Flush,
            (Action::Flush, Event::Done) => Action::Sleep,
            (Action::Sleep, Event::Done) => Action::ClearBuffer,
            (Action::ClearBuffer, Event::Done) => Action::ReadClock,
            _ => Action::Halt,
        };
        *self = Orchestrator { pending: upcoming, text, frame, run: Ghost(run) };
        upcoming
    }
}

} // verus!
