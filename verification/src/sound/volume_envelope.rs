//! The volume envelope of a channel.
use vstd::prelude::*;

verus! {

/// The number of clocks in one tick of the envelope.
pub const ENVELOPE_CLOCKS: u8 = 8;

/// The direction in which an envelope moves the volume.
#[derive(Copy, Clone, Debug, PartialEq, Eq, Structural)]
pub enum Direction {
    Up,
    Down,
}

/// The envelope register and the state of the envelope: the clocks left in
/// the current tick, the ticks since the last step, and the steps taken so
/// far, up minus down.
#[derive(Copy, Clone)]
pub struct VolumeEnvelope {
    pub register: u8,
    cycles_left: u8,
    ticks: u8,
    volume_adjustment: i8,
}

impl Default for VolumeEnvelope {
    fn default() -> (r: Self)
        ensures
            r.is_reset(),
    {
        Self { register: 0, cycles_left: 8, ticks: 0, volume_adjustment: 0 }
    }
}

/// A number limited to the range from `low` to `high`.
pub open spec fn limited(number: int, low: int, high: int) -> int {
    if number < low {
        low
    } else if number > high {
        high
    } else {
        number
    }
}

/// The steps taken after one more step in `direction`; the count stays
/// within what eight signed bits hold.
pub open spec fn stepped(adjustment: int, direction: Direction) -> int {
    match direction {
        Direction::Up => limited(adjustment + 1, i8::MIN as int, i8::MAX as int),
        Direction::Down => limited(adjustment - 1, i8::MIN as int, i8::MAX as int),
    }
}

impl VolumeEnvelope {
    #[verifier::type_invariant]
    spec fn ticks_in_range(&self) -> bool {
        self.ticks < 7
    }

    /// Whether the envelope is as it is to begin with: the register is
    /// zero, eight clocks are left in the first tick, and no tick and no
    /// step has been taken.
    pub open spec fn is_reset(&self) -> bool {
        self.control() == 0 && self.clocks_left() == ENVELOPE_CLOCKS && self.ticks_counted() == 0
            && self.adjustment() == 0
    }

    /// The byte in the register.
    pub closed spec fn control(&self) -> u8 {
        self.register
    }

    /// The same state with `value` in the register.
    pub closed spec fn with_control(self, value: u8) -> Self {
        VolumeEnvelope { register: value, ..self }
    }

    /// A write to the register changes the register and nothing else.
    pub proof fn lemma_with_control(self, value: u8)
        ensures
            self.with_control(value).control() == value,
            self.with_control(value).clocks_left() == self.clocks_left(),
            self.with_control(value).ticks_counted() == self.ticks_counted(),
            self.with_control(value).adjustment() == self.adjustment(),
            self.with_control(self.control()) == self,
    {
    }

    /// Reads the register.
    pub fn register(&self) -> (r: u8)
        ensures
            r == self.control(),
    {
        self.register
    }

    /// Writes the register.
    pub fn set_register(&mut self, value: u8)
        ensures
            *final(self) == old(self).with_control(value),
    {
        proof {
            use_type_invariant(&*self);
        }
        self.register = value;
    }

    /// The clocks left in the current tick.
    pub closed spec fn clocks_left(&self) -> u8 {
        self.cycles_left
    }

    /// The ticks counted since the last step. There are never more than
    /// six.
    pub closed spec fn ticks_counted(&self) -> u8 {
        self.ticks
    }

    /// The steps taken so far, up minus down.
    pub closed spec fn adjustment(&self) -> int {
        self.volume_adjustment as int
    }

    /// Bits 7-4 of the register: the volume at the start.
    pub open spec fn initial(&self) -> int {
        self.control() as int / 16
    }

    /// Bit 3 of the register: set for a rising envelope.
    pub open spec fn rising(&self) -> Direction {
        if (self.control() / 8) % 2 == 0 {
            Direction::Down
        } else {
            Direction::Up
        }
    }

    /// Bits 2-0 of the register: the number of ticks to a step; with zero
    /// the envelope stands still.
    pub open spec fn sweep(&self) -> int {
        self.control() as int % 8
    }

    /// Whether this clock completes a tick, and this tick a step.
    pub open spec fn steps_now(&self) -> bool {
        self.ticks_now() && self.ticks_counted() + 1 >= self.sweep()
    }

    /// Whether this clock completes a tick.
    pub open spec fn ticks_now(&self) -> bool {
        self.clocks_left() <= 1 && self.sweep() > 0
    }

    /// Whether `self` is what one clock makes of `before`. The register is
    /// as it was. The clocks left are one fewer, down to none, unless the
    /// clock completes a tick, and then the count starts again. A completed
    /// tick is counted, unless it completes a step, and then the ticks
    /// start again from none and the volume takes one step.
    pub open spec fn clocked(&self, before: &Self) -> bool {
        &&& self.control() == before.control()
        &&& self.clocks_left() == if before.ticks_now() {
            ENVELOPE_CLOCKS as int
        } else if before.clocks_left() == 0 {
            0
        } else {
            before.clocks_left() - 1
        }
        &&& self.ticks_counted() == if before.steps_now() {
            0
        } else if before.ticks_now() {
            before.ticks_counted() + 1
        } else {
            before.ticks_counted() as int
        }
        &&& self.adjustment() == if before.steps_now() {
            stepped(before.adjustment(), before.rising())
        } else {
            before.adjustment()
        }
    }

    /// Counts one clock. Eight clocks are a tick, and as many ticks as the
    /// register asks for are a step of the volume.
    pub fn clock(&mut self)
        ensures
            final(self).clocked(old(self)),
    {
        proof {
            use_type_invariant(&*self);
        }
        let cycles_left: u8 = self.cycles_left.saturating_sub(1);
        let sweep_time: u8 = self.envelope_sweep();
        if cycles_left == 0 && sweep_time > 0 {
            let ticks: u8 = self.ticks + 1;
            if ticks >= sweep_time {
                let direction = self.direction();
                *self = VolumeEnvelope {
                    register: self.register,
                    cycles_left: 8,
                    ticks: 0,
                    volume_adjustment: self.volume_adjustment,
                };
                self.apply_envelope();
                assert(direction == old(self).rising());
            } else {
                *self = VolumeEnvelope {
                    register: self.register,
                    cycles_left: 8,
                    ticks,
                    volume_adjustment: self.volume_adjustment,
                };
            }
        } else {
            self.cycles_left = cycles_left;
        }
    }

    /// Takes one step of the volume in the direction the register asks for.
    pub fn apply_envelope(&mut self)
        ensures
            final(self).control() == old(self).control(),
            final(self).clocks_left() == old(self).clocks_left(),
            final(self).ticks_counted() == old(self).ticks_counted(),
            final(self).adjustment() == stepped(old(self).adjustment(), old(self).rising()),
    {
        proof {
            use_type_invariant(&*self);
        }
        match self.direction() {
            Direction::Up => {
                if self.volume_adjustment < 127 {
                    self.volume_adjustment = self.volume_adjustment + 1;
                }
            },
            Direction::Down => {
                if self.volume_adjustment > -128 {
                    self.volume_adjustment = self.volume_adjustment - 1;
                }
            },
        }
    }

    pub fn initial_volume(self) -> (r: u8)
        ensures
            r == self.initial(),
    {
        let register: u8 = self.register;
        proof {
            crate::util::bits::lemma_byte_fields(register);
        }
        self.register >> 4
    }

    pub fn direction(self) -> (r: Direction)
        ensures
            r == self.rising(),
    {
        let register: u8 = self.register;
        proof {
            crate::util::bits::lemma_byte_fields(register);
        }
        let value: u8 = (self.register >> 3) & 1;
        if value == 0 {
            Direction::Down
        } else {
            Direction::Up
        }
    }

    pub fn envelope_sweep(self) -> (r: u8)
        ensures
            r == self.sweep(),
    {
        let register: u8 = self.register;
        proof {
            crate::util::bits::lemma_byte_fields(register);
        }
        self.register & 0b111
    }

    /// The volume now: the volume at the start plus the steps taken, kept
    /// within a byte.
    pub fn current_volume(self) -> (r: u8)
        ensures
            r == limited(self.initial() + self.adjustment(), 0, 255),
    {
        let volume: i16 = self.initial_volume() as i16 + self.volume_adjustment as i16;
        if volume < 0 {
            0
        } else if volume > 255 {
            255
        } else {
            volume as u8
        }
    }
}

} // verus!
