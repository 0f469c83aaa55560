//! What the driver is asked to do, and what it reports back.

use vstd::prelude::*;

verus! {

/// Seconds that [`Action::Sleep`] lasts.
pub const TICK_SECONDS: u64 = 1;

/// The outside work that the driver is asked to do.
#[derive(Clone, Copy, PartialEq, Eq, Debug, Structural)]
pub enum Action {
    /// Take the peripherals and bring the display and the radio driver up.
    InitPeripherals,
    /// Configure the radio as a WPA2-Personal client with the credentials.
    ConfigureWifi,
    /// Start the radio.
    StartWifi,
    /// Associate with the network.
    ConnectWifi,
    /// Block until the network interface has an address.
    AwaitAddress,
    /// Create the HTTP client.
    OpenHttpClient,
    /// Start the background clock synchronisation.
    StartTimeSync,
    /// Send the one request and read the body into the buffer.
    Fetch,
    /// Ask the clock synchronisation for its status.
    PollTimeSync,
    /// Read the system clock.
    ReadClock,
    /// Draw the current frame into the display buffer.
    Draw,
    /// Send the display buffer to the display.
    Flush,
    /// Sleep for [`TICK_SECONDS`].
    Sleep,
    /// Clear the display buffer, not the display.
    ClearBuffer,
    /// Stop: nothing more will be asked.
    Halt,
}

/// The stretch of the run that an action belongs to.
#[derive(Clone, Copy, PartialEq, Eq, Debug, Structural)]
pub enum Stage {
    /// Peripherals and the wireless link are being brought up.
    Init,
    /// The link is up; time synchronisation and the fetch are being started.
    WifiUp,
    /// The text is fetched; the clock is not yet synchronised.
    TimeWaiting,
    /// The clock is synchronised and frames are drawn, tick after tick.
    Rendering,
    /// The run has ended on a failure.
    Halted,
}

/// What the clock synchronisation reports when polled.
#[derive(Clone, Copy, PartialEq, Eq, Debug, Structural)]
pub enum SyncStatus {
    /// No synchronisation is under way.
    Reset,
    /// A synchronisation is under way.
    InProgress,
    /// The clock is synchronised.
    Completed,
}

/// How a piece of outside work went.
#[derive(PartialEq, Eq, Debug)]
pub enum Event {
    /// The work succeeded and has nothing to report.
    Done,
    /// The work failed.
    Failed,
    /// The fetch succeeded; these are the bytes of the response body.
    Body(Vec<u8>),
    /// The status that a poll of the clock synchronisation gave.
    Sync(SyncStatus),
    /// The system clock, in seconds since the Unix epoch.
    Clock(u64),
}

/// The stage that an action belongs to.
pub open spec fn stage_of(action: Action) -> Stage {
    match action {
        Action::InitPeripherals
        | Action::ConfigureWifi
        | Action::StartWifi
        | Action::ConnectWifi
        | Action::AwaitAddress => Stage::Init,
        Action::OpenHttpClient | Action::StartTimeSync | Action::Fetch => Stage::WifiUp,
        Action::PollTimeSync => Stage::TimeWaiting,
        Action::ReadClock | Action::Draw | Action::Flush | Action::Sleep | Action::ClearBuffer =>
            Stage::Rendering,
        Action::Halt => Stage::Halted,
    }
}

/// Position of an action in the order in which the actions first come due.
pub open spec fn order(action: Action) -> int {
    match action {
        Action::InitPeripherals => 0,
        Action::ConfigureWifi => 1,
        Action::StartWifi => 2,
        Action::ConnectWifi => 3,
        Action::AwaitAddress => 4,
        Action::OpenHttpClient => 5,
        Action::StartTimeSync => 6,
        Action::Fetch => 7,
        Action::PollTimeSync => 8,
        Action::ReadClock => 9,
        Action::Draw => 10,
        Action::Flush => 11,
        Action::Sleep => 12,
        Action::ClearBuffer => 13,
        Action::Halt => 14,
    }
}

/// Position of a stage in the order in which a run passes through them.
pub open spec fn stage_rank(stage: Stage) -> int {
    match stage {
        Stage::Init => 0,
        Stage::WifiUp => 1,
        Stage::TimeWaiting => 2,
        Stage::Rendering => 3,
        Stage::Halted => 4,
    }
}

impl Action {
    /// The stage that this action belongs to.
    pub fn stage(self) -> (stage: Stage)
        ensures
            stage == stage_of(self),
    {
        match self {
            Action::InitPeripherals
            | Action::ConfigureWifi
            | Action::StartWifi
            | Action::ConnectWifi
            | Action::AwaitAddress => Stage::Init,
            Action::OpenHttpClient | Action::StartTimeSync | Action::Fetch => Stage::WifiUp,
            Action::PollTimeSync => Stage::TimeWaiting,
            Action::ReadClock
            | Action::Draw
            | Action::Flush
            | Action::Sleep
            | Action::ClearBuffer => Stage::Rendering,
            Action::Halt => Stage::Halted,
        }
    }
}

} // verus!
