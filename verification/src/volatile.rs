//! The volatile part of the machine state: what may change between two
//! scheduled renders.

use vstd::prelude::*;

verus! {

/// How the machine is connected to a network.
#[derive(Clone, Copy, Debug, PartialEq, Eq, Structural)]
pub enum Connection {
    /// Some interface other than the wireless one.
    Wired,
    /// The wireless interface.
    Wifi,
    /// No network at all.
    Offline,
}

/// One reading of the battery.
#[derive(Clone, Copy, Debug, PartialEq, Eq, Structural)]
pub struct BatterySample {
    /// The battery is not draining.
    pub charging: bool,
    /// The battery is at full charge.
    pub on_full_charge: bool,
}

/// One snapshot of the volatile state, compared across consecutive polls.
#[derive(Clone, Copy, Debug, PartialEq, Eq, Structural)]
pub struct VolatileState {
    pub charging: bool,
    pub on_full_charge: bool,
    pub connection: Connection,
}

impl VolatileState {
    /// The snapshot made of a battery reading and a connection.
    pub open spec fn of(battery: BatterySample, connection: Connection) -> VolatileState {
        VolatileState {
            charging: battery.charging,
            on_full_charge: battery.on_full_charge,
            connection,
        }
    }

    /// Builds a snapshot from a battery reading and a connection.
    pub fn new(battery: BatterySample, connection: Connection) -> (state: VolatileState)
        ensures
            state == Self::of(battery, connection),
    {
        VolatileState {
            charging: battery.charging,
            on_full_charge: battery.on_full_charge,
            connection,
        }
    }

    /// The battery part of the snapshot.
    pub open spec fn battery_part(self) -> BatterySample {
        BatterySample { charging: self.charging, on_full_charge: self.on_full_charge }
    }

    /// Returns the battery part of the snapshot.
    pub fn battery(&self) -> (sample: BatterySample)
        ensures
            sample == self.battery_part(),
    {
        BatterySample { charging: self.charging, on_full_charge: self.on_full_charge }
    }
}

} // verus!
