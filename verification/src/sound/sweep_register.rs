//! The frequency sweep of the first tone channel.
use vstd::prelude::*;

verus! {

/// The number of clocks between two steps of the sweep.
pub const SWEEP_CLOCKS: u8 = 4;

/// The direction of a sweep.
#[derive(Copy, Clone, Debug, PartialEq, Eq, Structural)]
pub enum SweepModifier {
    Increase,
    Decrease,
}

/// The sweep register and the state of the sweep: the period being swept
/// and the clocks left until the next step.
#[derive(Copy, Clone)]
pub struct SweepRegister {
    pub register: u8,
    period: i16,
    cycles_left: u8,
}

impl Default for SweepRegister {
    fn default() -> (r: Self)
        ensures
            r.is_reset(),
    {
        Self { register: 0, period: 0, cycles_left: 4 }
    }
}

/// Two to the power `exponent`.
pub open spec fn power_of_two(exponent: nat) -> int
    decreases exponent,
{
    if exponent == 0 {
        1
    } else {
        2 * power_of_two((exponent - 1) as nat)
    }
}

/// A number limited to what sixteen signed bits hold.
pub open spec fn saturated(number: int) -> int {
    if number > i16::MAX {
        i16::MAX as int
    } else if number < i16::MIN {
        i16::MIN as int
    } else {
        number
    }
}

/// The period after one step of the sweep: the period plus or minus its
/// quotient by two to the power `step`, limited to sixteen bits.
pub open spec fn swept(period: int, step: nat, modifier: SweepModifier) -> int {
    let adjustment = period / power_of_two(step);
    match modifier {
        SweepModifier::Increase => saturated(period + adjustment),
        SweepModifier::Decrease => saturated(period - adjustment),
    }
}

impl SweepRegister {
    #[verifier::type_invariant]
    spec fn period_not_negative(&self) -> bool {
        self.period >= 0
    }

    /// Whether the register is as it is to begin with: the register and
    /// the period are zero, and four clocks are left to the first step.
    pub open spec fn is_reset(&self) -> bool {
        self.control() == 0 && self.period_value() == 0 && self.clocks_left() == SWEEP_CLOCKS
    }

    /// The byte in the register.
    pub closed spec fn control(&self) -> u8 {
        self.register
    }

    /// The same state with `value` in the register.
    pub closed spec fn with_control(self, value: u8) -> Self {
        SweepRegister { register: value, ..self }
    }

    /// A write to the register changes the register and nothing else.
    pub proof fn lemma_with_control(self, value: u8)
        ensures
            self.with_control(value).control() == value,
            self.with_control(value).period_value() == self.period_value(),
            self.with_control(value).clocks_left() == self.clocks_left(),
            self.with_control(self.control()) == self,
    {
    }

    /// Reads the register.
    pub fn register(&self) -> (r: u8)
        ensures
            r == self.control(),
    {
        self.register
    }

    /// Writes the register.
    pub fn set_register(&mut self, value: u8)
        ensures
            *final(self) == old(self).with_control(value),
    {
        proof {
            use_type_invariant(&*self);
        }
        self.register = value;
    }

    /// The period being swept. It is never negative.
    pub closed spec fn period_value(&self) -> int {
        self.period as int
    }

    /// The clocks left until the next step.
    pub closed spec fn clocks_left(&self) -> u8 {
        self.cycles_left
    }

    /// Bits 6-4 of the register.
    pub open spec fn pace(&self) -> int {
        ((self.control() / 16) % 8) as int
    }

    /// Bit 3 of the register: set for an increasing sweep.
    pub open spec fn modifier(&self) -> SweepModifier {
        if (self.control() / 8) % 2 == 0 {
            SweepModifier::Decrease
        } else {
            SweepModifier::Increase
        }
    }

    /// Bits 2-0 of the register.
    pub open spec fn step(&self) -> nat {
        (self.control() % 8) as nat
    }

    pub fn sweep_pace(self) -> (r: u8)
        ensures
            r == self.pace(),
    {
        let register: u8 = self.register;
        proof {
            crate::util::bits::lemma_byte_fields(register);
        }
        (self.register >> 4) & 0b111
    }

    pub fn sweep_modifier(self) -> (r: SweepModifier)
        ensures
            r == self.modifier(),
    {
        let register: u8 = self.register;
        proof {
            crate::util::bits::lemma_byte_fields(register);
        }
        if ((self.register >> 3) & 1) == 0 {
            SweepModifier::Decrease
        } else {
            SweepModifier::Increase
        }
    }

    pub fn sweep_step(self) -> (r: u8)
        ensures
            r == self.step(),
    {
        let register: u8 = self.register;
        proof {
            crate::util::bits::lemma_byte_fields(register);
        }
        self.register & 0b111
    }

    /// Takes one step of the sweep.
    pub fn apply_sweep(&mut self)
        ensures
            final(self).period_value() == swept(
                old(self).period_value(),
                old(self).step(),
                old(self).modifier(),
            ),
            final(self).control() == old(self).control(),
            final(self).clocks_left() == old(self).clocks_left(),
    {
        proof {
            use_type_invariant(&*self);
        }
        let step: u8 = self.sweep_step();
        let divisor: i16 = 1i16 << step;
        assert(1 <= divisor <= 128 && divisor == power_of_two(step as nat)) by {
            reveal_with_fuel(power_of_two, 8);
            assert(step < 8 ==> 1 <= 1i16 << step <= 128 && (step == 0 ==> 1i16 << step == 1) && (
            step == 1 ==> 1i16 << step == 2) && (step == 2 ==> 1i16 << step == 4) && (step == 3
                ==> 1i16 << step == 8) && (step == 4 ==> 1i16 << step == 16) && (step == 5 ==> 1i16
                << step == 32) && (step == 6 ==> 1i16 << step == 64) && (step == 7 ==> 1i16 << step
                == 128)) by (bit_vector);
        }
        let adjustment: i16 = self.period / divisor;
        let wide: i32 = match self.sweep_modifier() {
            SweepModifier::Increase => self.period as i32 + adjustment as i32,
            SweepModifier::Decrease => self.period as i32 - adjustment as i32,
        };
        assert(0 <= adjustment <= self.period) by (nonlinear_arith)
            requires
                adjustment == self.period as int / divisor as int,
                self.period >= 0,
                divisor >= 1,
        ;
        let period: i16 = if wide > 0x7FFF {
            0x7FFF
        } else {
            wide as i16
        };
        self.period = period;
    }

    /// Whether `self` is what one clock makes of `before`: the register is
    /// as it was; the clocks left are one fewer, and the period is as it
    /// was, unless this was the last clock of four, and then the count
    /// starts again and the period takes one step of the sweep.
    pub open spec fn clocked(&self, before: &Self) -> bool {
        &&& self.control() == before.control()
        &&& before.clocks_left() > 1 ==> self.clocks_left() == before.clocks_left() - 1
            && self.period_value() == before.period_value()
        &&& before.clocks_left() <= 1 ==> self.clocks_left() == SWEEP_CLOCKS && self.period_value()
            == swept(before.period_value(), before.step(), before.modifier())
    }

    /// Counts one clock; every fourth clock takes one step of the sweep.
    pub fn clock(&mut self)
        ensures
            final(self).clocked(old(self)),
    {
        proof {
            use_type_invariant(&*self);
        }
        self.cycles_left = self.cycles_left.saturating_sub(1);
        if self.cycles_left == 0 {
            self.cycles_left = 4;
            self.apply_sweep();
        }
    }
}

} // verus!
