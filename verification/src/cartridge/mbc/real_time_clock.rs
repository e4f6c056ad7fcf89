//! The real-time clock of an MBC3 cartridge, as far as the controller
//! reaches into it: five registers, one of which is selected for reading.
use vstd::prelude::*;

verus! {

/// The registers of the clock.
#[derive(Copy, Clone, Debug, PartialEq, Eq, Structural)]
pub enum RTCRegister {
    Seconds,
    Minutes,
    Hours,
    DayLow,
    DayHigh,
}

impl RTCRegister {
    /// The register that the controller selects when `value` is written to
    /// it: 0x08 to 0x0C select the five registers, in order.
    pub open spec fn selected_by(value: u8) -> Option<RTCRegister> {
        if value == 0x08 {
            Some(RTCRegister::Seconds)
        } else if value == 0x09 {
            Some(RTCRegister::Minutes)
        } else if value == 0x0A {
            Some(RTCRegister::Hours)
        } else if value == 0x0B {
            Some(RTCRegister::DayLow)
        } else if value == 0x0C {
            Some(RTCRegister::DayHigh)
        } else {
            None
        }
    }

    pub fn from_value(value: u8) -> (r: Option<RTCRegister>)
        ensures
            r == Self::selected_by(value),
    {
        match value {
            0x08 => Some(RTCRegister::Seconds),
            0x09 => Some(RTCRegister::Minutes),
            0x0A => Some(RTCRegister::Hours),
            0x0B => Some(RTCRegister::DayLow),
            0x0C => Some(RTCRegister::DayHigh),
            _ => None,
        }
    }
}

/// The clock: its five registers and the one selected.
pub struct RealTimeClock {
    pub seconds: u8,
    pub minutes: u8,
    pub hours: u8,
    pub day_low: u8,
    pub day_high: u8,
    pub active: RTCRegister,
}

impl RealTimeClock {
    /// The byte in `register`.
    pub open spec fn value_of(&self, register: RTCRegister) -> u8 {
        match register {
            RTCRegister::Seconds => self.seconds,
            RTCRegister::Minutes => self.minutes,
            RTCRegister::Hours => self.hours,
            RTCRegister::DayLow => self.day_low,
            RTCRegister::DayHigh => self.day_high,
        }
    }

    /// A clock at zero, with the seconds selected.
    pub fn new() -> (r: RealTimeClock)
        ensures
            r == (RealTimeClock {
                seconds: 0,
                minutes: 0,
                hours: 0,
                day_low: 0,
                day_high: 0,
                active: RTCRegister::Seconds,
            }),
    {
        RealTimeClock {
            seconds: 0,
            minutes: 0,
            hours: 0,
            day_low: 0,
            day_high: 0,
            active: RTCRegister::Seconds,
        }
    }

    pub fn set_active_register(&mut self, register: RTCRegister)
        ensures
            *final(self) == (RealTimeClock { active: register, ..*old(self) }),
    {
        self.active = register;
    }

    pub fn active_register(&self) -> (r: &RTCRegister)
        ensures
            *r == self.active,
    {
        &self.active
    }

    /// The byte in the selected register.
    pub fn active_value(&self) -> (r: u8)
        ensures
            r == self.value_of(self.active),
    {
        match self.active {
            RTCRegister::Seconds => self.seconds,
            RTCRegister::Minutes => self.minutes,
            RTCRegister::Hours => self.hours,
            RTCRegister::DayLow => self.day_low,
            RTCRegister::DayHigh => self.day_high,
        }
    }
}

} // verus!
