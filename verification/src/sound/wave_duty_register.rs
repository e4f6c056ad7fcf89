//! The wave duty and length register of a tone channel.
use vstd::prelude::*;

verus! {

/// The timer value at which the sound has reached its length.
pub const LENGTH_REACHED: u8 = 128;

/// The duty and length register and the length timer that counts up from
/// the length written to it.
#[derive(Copy, Clone)]
pub struct WaveDutyRegister {
    pub register: u8,
    timer: u8,
}

impl Default for WaveDutyRegister {
    fn default() -> (r: Self)
        ensures
            r.is_reset(),
    {
        WaveDutyRegister { register: 0, timer: 0 }
    }
}

/// What a clock of the length timer asks of the channel.
#[derive(Copy, Clone, Debug, PartialEq, Eq, Structural)]
pub enum WaveDutyRegisterClockResult {
    /// The sound has reached its length: the channel stops.
    Stop,
    /// Nothing: the channel goes on.
    Running,
}

impl WaveDutyRegister {
    /// Whether the register and the timer are zero, as they are to begin
    /// with.
    pub open spec fn is_reset(&self) -> bool {
        self.control() == 0 && self.timer_value() == 0
    }

    /// The byte in the register.
    pub closed spec fn control(&self) -> u8 {
        self.register
    }

    /// The same state with `value` in the register.
    pub closed spec fn with_control(self, value: u8) -> Self {
        WaveDutyRegister { register: value, ..self }
    }

    /// A write to the register changes the register and nothing else.
    pub proof fn lemma_with_control(self, value: u8)
        ensures
            self.with_control(value).control() == value,
            self.with_control(value).timer_value() == self.timer_value(),
            self.with_control(self.control()) == self,
    {
    }

    /// Reads the register.
    pub fn register(&self) -> (r: u8)
        ensures
            r == self.control(),
    {
        self.register
    }

    /// Writes the register.
    pub fn set_register(&mut self, value: u8)
        ensures
            *final(self) == old(self).with_control(value),
    {
        self.register = value;
    }

    /// The length timer.
    pub closed spec fn timer_value(&self) -> u8 {
        self.timer
    }

    /// Bits 5-0 of the register: where the length timer starts.
    pub open spec fn initial_timer(&self) -> int {
        self.control() as int % 64
    }

    /// The timer after one clock: one more than before, or where the
    /// register has it start if that is further on.
    pub open spec fn timer_clocked(&self) -> int {
        if self.timer_value() + 1 >= self.initial_timer() {
            self.timer_value() + 1
        } else {
            self.initial_timer()
        }
    }

    /// Whether `self` is what one clock makes of `before`: the register is
    /// as it was, and the timer has moved on.
    pub open spec fn clocked(&self, before: &Self) -> bool {
        &&& self.control() == before.control()
        &&& self.timer_value() == before.timer_clocked()
    }

    /// Counts one clock of the length timer, and says whether the sound has
    /// just reached its length. The timer is eight bits wide and does not
    /// wrap: a timer at 255 cannot be clocked.
    pub fn clock(&mut self) -> (r: WaveDutyRegisterClockResult)
        requires
            old(self).timer_value() < 255,
        ensures
            final(self).clocked(old(self)),
            r == if old(self).timer_clocked() == LENGTH_REACHED {
                WaveDutyRegisterClockResult::Stop
            } else {
                WaveDutyRegisterClockResult::Running
            },
    {
        let next: u8 = self.timer + 1;
        let initial: u8 = self.initial_timer_value();
        self.timer = if next >= initial {
            next
        } else {
            initial
        };
        if self.timer == 128 {
            WaveDutyRegisterClockResult::Stop
        } else {
            WaveDutyRegisterClockResult::Running
        }
    }

    pub fn initial_timer_value(self) -> (r: u8)
        ensures
            r == self.initial_timer(),
    {
        let register: u8 = self.register;
        proof {
            crate::util::bits::lemma_byte_fields(register);
        }
        self.register & 0b11_1111
    }
}

} // verus!
