//! The change watcher: when to poll the volatile state, and when a poll
//! wakes the status loop.
//!
//! The watcher is a state machine. Its caller performs the action it is
//! handed (sleep, read the battery, read the network), raises the wake
//! signal when told to, and reports back with the matching event.

use vstd::prelude::*;
use crate::volatile::{BatterySample, Connection, VolatileState};

verus! {

/// Seconds between polls while the machine is docked and idle.
pub const IDLE_INTERVAL: u64 = 20;

/// Seconds between polls while a change is likely.
pub const ALERT_INTERVAL: u64 = 2;

/// The machine is docked and idle: battery full and some network connected.
pub open spec fn is_settled(state: VolatileState) -> bool {
    state.on_full_charge && state.connection != Connection::Offline
}

/// The sleep, in seconds, that precedes the next poll.
pub open spec fn interval_of(state: VolatileState) -> u64 {
    if is_settled(state) {
        IDLE_INTERVAL
    } else {
        ALERT_INTERVAL
    }
}

/// A battery reading wakes the loop when the charging state flipped and the
/// battery is not at full charge.
pub open spec fn battery_wakes(previous: VolatileState, sample: BatterySample) -> bool {
    sample.charging != previous.charging && !sample.on_full_charge
}

/// A network reading wakes the loop when the connection type changed.
pub open spec fn network_wakes(previous: VolatileState, connection: Connection) -> bool {
    connection != previous.connection
}

/// Returns the sleep, in seconds, that precedes the next poll: the long
/// interval when the battery is full and a network is connected, the short
/// one in every other state.
pub fn watch_interval(state: &VolatileState) -> (seconds: u64)
    ensures
        seconds == interval_of(*state),
        seconds == IDLE_INTERVAL || seconds == ALERT_INTERVAL,
        seconds == IDLE_INTERVAL <==> state.on_full_charge && state.connection != Connection::Offline,
{
    let connected = match state.connection {
        Connection::Offline => false,
        _ => true,
    };
    if state.on_full_charge && connected {
        IDLE_INTERVAL
    } else {
        ALERT_INTERVAL
    }
}

/// Where the watcher stands within a cycle.
#[derive(Clone, Copy, Debug, PartialEq, Eq, Structural)]
pub enum WatchPhase {
    /// The sleep before the poll is due or running.
    Sleeping,
    /// The sleep is over; a battery reading is due.
    BatteryDue,
    /// The battery reading woke nobody; a network reading is due.
    NetworkDue { battery: BatterySample },
}

/// What the caller reports to the watcher.
#[derive(Clone, Copy, Debug, PartialEq, Eq, Structural)]
pub enum WatchEvent {
    /// The sleep has elapsed.
    Slept,
    /// The battery was read afresh.
    Battery(BatterySample),
    /// The network interfaces were read afresh.
    Network(Connection),
}

/// What the caller does next.
#[derive(Clone, Copy, Debug, PartialEq, Eq, Structural)]
pub enum WatchAction {
    /// Sleep for that many seconds, then report `Slept`.
    Sleep(u64),
    /// Read the battery, then report `Battery`.
    SampleBattery,
    /// Read the network interfaces, then report `Network`.
    SampleNetwork,
}

/// The watcher's answer to an event.
#[derive(Clone, Copy, Debug, PartialEq, Eq, Structural)]
pub struct WatchStep {
    /// Raise the wake signal before doing anything else.
    pub raise: bool,
    /// What to do after that.
    pub action: WatchAction,
}

/// The change watcher between two events.
#[derive(Clone, Copy, Debug, PartialEq, Eq, Structural)]
pub struct Watcher {
    /// The snapshot that the next readings are compared with.
    pub previous: VolatileState,
    pub phase: WatchPhase,
}

impl Watcher {
    /// The event matches what the watcher last asked for.
    pub open spec fn expects(self, event: WatchEvent) -> bool {
        match (self.phase, event) {
            (WatchPhase::Sleeping, WatchEvent::Slept) => true,
            (WatchPhase::BatteryDue, WatchEvent::Battery(_)) => true,
            (WatchPhase::NetworkDue { .. }, WatchEvent::Network(_)) => true,
            _ => false,
        }
    }

    /// The watcher after an event that it expects.
    pub open spec fn after(self, event: WatchEvent) -> Watcher {
        match (self.phase, event) {
            (WatchPhase::Sleeping, WatchEvent::Slept) => Watcher {
                previous: self.previous,
                phase: WatchPhase::BatteryDue,
            },
            (WatchPhase::BatteryDue, WatchEvent::Battery(sample)) => if battery_wakes(
                self.previous,
                sample,
            ) {
                Watcher {
                    previous: VolatileState::of(sample, self.previous.connection),
                    phase: WatchPhase::Sleeping,
                }
            } else {
                Watcher {
                    previous: self.previous,
                    phase: WatchPhase::NetworkDue { battery: sample },
                }
            },
            (WatchPhase::NetworkDue { battery }, WatchEvent::Network(connection)) => Watcher {
                previous: VolatileState::of(battery, connection),
                phase: WatchPhase::Sleeping,
            },
            _ => self,
        }
    }

    /// Whether an event that the watcher expects raises the wake signal.
    pub open spec fn raises(self, event: WatchEvent) -> bool {
        match (self.phase, event) {
            (WatchPhase::BatteryDue, WatchEvent::Battery(sample)) => battery_wakes(
                self.previous,
                sample,
            ),
            (WatchPhase::NetworkDue { .. }, WatchEvent::Network(connection)) => network_wakes(
                self.previous,
                connection,
            ),
            _ => false,
        }
    }

    /// What the watcher asks of its caller in its present phase.
    pub open spec fn pending_action(self) -> WatchAction {
        match self.phase {
            WatchPhase::Sleeping => WatchAction::Sleep(interval_of(self.previous)),
            WatchPhase::BatteryDue => WatchAction::SampleBattery,
            WatchPhase::NetworkDue { .. } => WatchAction::SampleNetwork,
        }
    }

    /// A watcher at the start of its first cycle, with the snapshot sampled
    /// at start-up.
    pub fn new(initial: VolatileState) -> (watcher: Watcher)
        ensures
            watcher.previous == initial,
            watcher.phase == WatchPhase::Sleeping,
    {
        Watcher { previous: initial, phase: WatchPhase::Sleeping }
    }

    /// Returns what the caller is to do now.
    pub fn action(&self) -> (action: WatchAction)
        ensures
            action == self.pending_action(),
    {
        match self.phase {
            WatchPhase::Sleeping => WatchAction::Sleep(watch_interval(&self.previous)),
            WatchPhase::BatteryDue => WatchAction::SampleBattery,
            WatchPhase::NetworkDue { .. } => WatchAction::SampleNetwork,
        }
    }

    /// Returns whether `event` is the one the watcher is waiting for.
    pub fn accepts(&self, event: &WatchEvent) -> (ok: bool)
        ensures
            ok == self.expects(*event),
    {
        match (self.phase, *event) {
            (WatchPhase::Sleeping, WatchEvent::Slept) => true,
            (WatchPhase::BatteryDue, WatchEvent::Battery(_)) => true,
            (WatchPhase::NetworkDue { .. }, WatchEvent::Network(_)) => true,
            _ => false,
        }
    }

    /// Takes the event that the watcher asked for and moves on: says whether
    /// to raise the wake signal, and what to do next.
    ///
    /// After the sleep the battery is read. A reading whose charging state
    /// flipped while the battery is not full raises the signal and ends the
    /// cycle at once, the connection kept as it was. Any other reading is
    /// followed by a reading of the network, which raises the signal when
    /// the connection type changed. Either way the next cycle compares
    /// against the fresh readings.
    pub fn step(&mut self, event: WatchEvent) -> (step: WatchStep)
        requires
            old(self).expects(event),
        ensures
            *final(self) == old(self).after(event),
            step.raise == old(self).raises(event),
            step.action == final(self).pending_action(),
    {
        let mut raise = false;
        match (self.phase, event) {
            (WatchPhase::Sleeping, WatchEvent::Slept) => {
                self.phase = WatchPhase::BatteryDue;
            },
            (WatchPhase::BatteryDue, WatchEvent::Battery(sample)) => {
                if sample.charging != self.previous.charging && !sample.on_full_charge {
                    raise = true;
                    self.previous = VolatileState::new(sample, self.previous.connection);
                    self.phase = WatchPhase::Sleeping;
                } else {
                    self.phase = WatchPhase::NetworkDue { battery: sample };
                }
            },
            (WatchPhase::NetworkDue { battery }, WatchEvent::Network(connection)) => {
                raise = !same_connection(connection, self.previous.connection);
                self.previous = VolatileState::new(battery, connection);
                self.phase = WatchPhase::Sleeping;
            },
            _ => {},
        }
        WatchStep { raise, action: self.action() }
    }
}

/// Returns whether two connections are of the same type.
pub fn same_connection(a: Connection, b: Connection) -> (same: bool)
    ensures
        same == (a == b),
{
    match (a, b) {
        (Connection::Wired, Connection::Wired) => true,
        (Connection::Wifi, Connection::Wifi) => true,
        (Connection::Offline, Connection::Offline) => true,
        _ => false,
    }
}

/// At most one wake per cycle, the battery first: a cycle whose battery
/// reading raises the signal ends there, with the connection kept as it was;
/// any other cycle goes on to the network reading, which alone decides
/// whether the signal is raised.
pub proof fn lemma_one_wake_per_cycle(
    watcher: Watcher,
    sample: BatterySample,
    connection: Connection,
)
    requires
        watcher.phase is Sleeping,
    ensures
        ({
            let due = watcher.after(WatchEvent::Slept);
            let read = due.after(WatchEvent::Battery(sample));
            &&& !watcher.raises(WatchEvent::Slept)
            &&& due.expects(WatchEvent::Battery(sample))
            &&& due.raises(WatchEvent::Battery(sample)) ==> {
                &&& read.phase is Sleeping
                &&& read.previous == VolatileState::of(sample, watcher.previous.connection)
            }
            &&& !due.raises(WatchEvent::Battery(sample)) ==> {
                &&& read.expects(WatchEvent::Network(connection))
                &&& read.raises(WatchEvent::Network(connection)) == (connection
                    != watcher.previous.connection)
                &&& read.after(WatchEvent::Network(connection)).phase is Sleeping
                &&& read.after(WatchEvent::Network(connection)).previous == VolatileState::of(
                    sample,
                    connection,
                )
            }
        }),
{
}

/// A cycle whose readings equal the snapshot raises nothing and leaves the
/// snapshot as it was.
pub proof fn lemma_steady_cycle_is_silent(watcher: Watcher)
    requires
        watcher.phase is Sleeping,
    ensures
        ({
            let sample = watcher.previous.battery_part();
            let connection = watcher.previous.connection;
            let due = watcher.after(WatchEvent::Slept);
            let read = due.after(WatchEvent::Battery(sample));
            &&& !due.raises(WatchEvent::Battery(sample))
            &&& !read.raises(WatchEvent::Network(connection))
            &&& read.after(WatchEvent::Network(connection)) == watcher
        }),
{
}

/// The interval is derived afresh each cycle: the sleep that follows a
/// cycle is chosen by the readings of that cycle, not by the snapshot the
/// cycle began with.
pub proof fn lemma_interval_follows_readings(
    watcher: Watcher,
    sample: BatterySample,
    connection: Connection,
)
    requires
        watcher.phase is Sleeping,
        !battery_wakes(watcher.previous, sample),
    ensures
        watcher.after(WatchEvent::Slept).after(WatchEvent::Battery(sample)).after(
            WatchEvent::Network(connection),
        ).pending_action() == WatchAction::Sleep(
            interval_of(VolatileState::of(sample, connection)),
        ),
{
}

} // verus!
