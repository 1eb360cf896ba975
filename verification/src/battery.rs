//! Battery health as the platform reports it.

use vstd::prelude::*;

verus! {

/// Health of the battery.
#[derive(Debug, Clone, PartialEq, Eq, Structural)]
pub enum BatteryHealth {
    Good,
    Overheat,
    Dead,
    OverVoltage,
    Unknown,
}

} // verus!
