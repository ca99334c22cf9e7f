//! The simplest workload: one temperature per device and month.

use crate::clock::{now, Moment};
use crate::entropy::{random_u32, uniform_between};
use crate::text::{decimal, decimal_digits};
use vstd::prelude::*;

verus! {

pub const INSERT_DEVICE: &'static str = "
    INSERT INTO skylar.devices
    (
        device, temperature, time, year, month
    )
    VALUES (?, ?, ?, ?, ?)
";

/// One temperature of a device.
#[derive(Debug, Clone)]
pub struct Device {
    pub device: String,
    pub temperature: i32,
    /// Milliseconds since the start of 1970.
    pub time: i64,
    pub year: i32,
    pub month: i32,
}

impl Device {
    /// Whether the device's name is `device` followed by `number` in
    /// decimal digits.
    pub open spec fn numbered(&self, number: u32) -> bool {
        self.device@ == "device"@ + decimal_digits(number as nat)
    }

    /// Whether the row is one that can be generated at `moment`: the device
    /// has a number, the temperature is from 0 up to, not including, 100,
    /// and the time, the year and the month are those of `moment`.
    pub open spec fn generated_at(&self, moment: Moment) -> bool {
        &&& exists|number: u32| #[trigger] self.numbered(number)
        &&& 0 <= self.temperature < 100
        &&& self.time == moment.millis
        &&& self.year == moment.year
        &&& self.month == moment.month
    }

    /// Generates the temperature of a random device at `moment`.
    pub fn at(moment: Moment) -> (row: Device)
        requires
            1 <= moment.month <= 12,
        ensures
            row.generated_at(moment),
    {
        let number: u32 = random_u32();
        let mut device: String = String::from_str("device");
        let digits: String = decimal(number as u64);
        device.append(digits.as_str());
        let row = Device {
            device,
            temperature: uniform_between(0, 100) as i32,
            time: moment.millis,
            year: moment.year,
            month: moment.month as i32,
        };
        assert(row.numbered(number));
        row
    }
}

/// Generates the temperature of a random device, now.
pub fn generate_random_device() -> (row: Device)
    ensures
        exists|number: u32| #[trigger] row.numbered(number),
        0 <= row.temperature < 100,
        1 <= row.month <= 12,
{
    Device::at(now())
}

} // verus!
