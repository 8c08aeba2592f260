//! The command bytes that the driver sends.

use vstd::prelude::*;

verus! {

/// A command understood by the sensor.
#[derive(Clone, Copy, Debug, PartialEq, Eq)]
pub enum Command {
    /// Measure relative humidity, holding the bus clock until the conversion
    /// is done. The sensor measures temperature along with it.
    MeasureRhHoldMaster,
    /// Read the temperature that was taken during the last humidity
    /// measurement.
    ReadTemperatureFromRh,
}

impl Command {
    /// The byte that stands for the command on the wire.
    pub open spec fn spec_code(self) -> u8 {
        match self {
            Command::MeasureRhHoldMaster => 0xE5,
            Command::ReadTemperatureFromRh => 0xE0,
        }
    }

    /// The byte that stands for the command on the wire.
    #[verifier::when_used_as_spec(spec_code)]
    pub fn code(self) -> (code: u8)
        ensures
            code == self.spec_code(),
    {
        match self {
            Command::MeasureRhHoldMaster => 0xE5,
            Command::ReadTemperatureFromRh => 0xE0,
        }
    }
}

} // verus!
