//! The timer unit: the 16-bit divider behind DIV, and TIMA/TMA/TAC with the
//! falling-edge increment rule. TIMA increments when the AND of the selected
//! divider tap bit and the enable bit falls from 1 to 0; on overflow it is
//! reloaded from TMA one clock later, and an interrupt is latched at that
//! reload tick.

use vstd::prelude::*;

verus! {

/// Timer state. `divider` counts every clock; only its top byte is mapped as
/// DIV. `previous_and_result` remembers the tap-and-enable signal of the
/// previous clock, so a falling edge can be seen. `has_overflowed` delays the
/// TMA reload and the interrupt by one clock.
#[derive(Debug)]
pub struct Timer {
    pub divider: u16,
    pub counter: u8,
    pub modulo: u8,
    pub control: u8,
    pub previous_and_result: bool,
    pub interrupt_request: bool,
    pub has_overflowed: bool,
}

/// The divider bit that feeds TIMA, selected by TAC bits 1..0:
/// 00 selects bit 9, 01 bit 3, 10 bit 5, 11 bit 7.
pub open spec fn spec_tap_position(control: u8) -> u16 {
    if control % 4 == 0 {
        9
    } else if control % 4 == 1 {
        3
    } else if control % 4 == 2 {
        5
    } else {
        7
    }
}

/// TAC bit 2 as the 0/1 enable value.
pub open spec fn spec_enable(control: u8) -> u16 {
    ((control & 4) >> 2u8) as u16
}

/// The AND signal whose falling edge increments TIMA: the selected divider
/// bit masked by the enable bit.
pub open spec fn spec_and_result(divider: u16, control: u8) -> bool {
    (divider >> spec_tap_position(control)) & spec_enable(control) == 1
}

/// One clock of the timer: the divider increments; a pending overflow
/// reloads TIMA from TMA and latches the interrupt; then TIMA increments on
/// a falling edge of the AND signal, recording an overflow when it wraps.
pub open spec fn spec_tick(t: Timer) -> Timer {
    let divider = ((t.divider + 1) % 0x10000) as u16;
    let counter1: u8 = if t.has_overflowed {
        t.modulo
    } else {
        t.counter
    };
    let irq1: bool = if t.has_overflowed {
        true
    } else {
        t.interrupt_request
    };
    let and_new = spec_and_result(divider, t.control);
    let inc = t.previous_and_result && !and_new;
    let counter2: u8 = if inc {
        ((counter1 + 1) % 256) as u8
    } else {
        counter1
    };
    let overflow2: bool = inc && counter1 == 0xFF;
    Timer {
        divider,
        counter: counter2,
        interrupt_request: irq1,
        has_overflowed: overflow2,
        previous_and_result: and_new,
        ..t
    }
}

/// `n` clocks of the timer.
pub open spec fn spec_ticks(t: Timer, n: nat) -> Timer
    decreases n,
{
    if n == 0 {
        t
    } else {
        spec_ticks(spec_tick(t), (n - 1) as nat)
    }
}

impl Timer {
    /// A timer with every register zero and nothing pending.
    pub fn new() -> (r: Timer)
        ensures
            r == (Timer {
                divider: 0,
                counter: 0,
                modulo: 0,
                control: 0,
                interrupt_request: false,
                previous_and_result: false,
                has_overflowed: false,
            }),
    {
        Timer {
            divider: 0,
            counter: 0,
            modulo: 0,
            control: 0,
            interrupt_request: false,
            previous_and_result: false,
            has_overflowed: false,
        }
    }

    /// DIV reads as the top byte of the internal divider.
    pub fn read_divider(&self) -> (r: u8)
        ensures
            r == self.divider / 256,
    {
        (self.divider / 256) as u8
    }

    /// Any write to DIV resets the whole 16-bit divider to zero.
    pub fn write_divider(&mut self, _value: u8)
        ensures
            *final(self) == (Timer { divider: 0, ..*old(self) }),
    {
        self.divider = 0;
    }

    pub fn read_counter(&self) -> (r: u8)
        ensures
            r == self.counter,
    {
        self.counter
    }

    pub fn write_counter(&mut self, value: u8)
        ensures
            *final(self) == (Timer { counter: value, ..*old(self) }),
    {
        self.counter = value;
    }

    pub fn read_modulo(&self) -> (r: u8)
        ensures
            r == self.modulo,
    {
        self.modulo
    }

    pub fn write_modulo(&mut self, value: u8)
        ensures
            *final(self) == (Timer { modulo: value, ..*old(self) }),
    {
        self.modulo = value;
    }

    pub fn read_control(&self) -> (r: u8)
        ensures
            r == self.control,
    {
        self.control
    }

    pub fn write_control(&mut self, value: u8)
        ensures
            *final(self) == (Timer { control: value, ..*old(self) }),
    {
        self.control = value;
    }

    /// Clear TAC's enable bit, leaving the tap selection alone.
    pub fn disable(&mut self)
        ensures
            *final(self) == (Timer { control: old(self).control & 0b1111_1011, ..*old(self) }),
    {
        self.control = self.control & 0b1111_1011;
    }

    /// Advance the timer by the given number of m-cycles: four clocks each.
    pub fn step(&mut self, m_cycles: u8)
        ensures
            *final(self) == spec_ticks(*old(self), 4 * m_cycles as nat),
    {
        let t_cycles: u16 = m_cycles as u16 * 4;

        let ghost t0 = *self;
        let mut i: u16 = 0;
        while i < t_cycles
            invariant
                i <= t_cycles,
                *self == spec_ticks(t0, i as nat),
            decreases t_cycles - i,
        {
            self.step_internal();
            i = i + 1;
            proof {
                lemma_ticks_snoc(t0, i as nat);
            }
        }
    }

    /// One clock of the timer; the executable form of `spec_tick`.
    fn step_internal(&mut self)
        ensures
            *final(self) == spec_tick(*old(self)),
    {
        self.divider = self.divider.wrapping_add(1);

        if self.has_overflowed {
            self.has_overflowed = false;
            self.interrupt_request = true;
            self.counter = self.modulo;
        }

        if self.should_increment_counter() {
            self.increment_counter();
        }
    }

    fn increment_counter(&mut self)
        ensures
            *final(self) == (Timer {
                counter: ((old(self).counter + 1) % 256) as u8,
                has_overflowed: old(self).has_overflowed || old(self).counter == 0xFF,
                ..*old(self)
            }),
    {
        if self.counter == 0xFF {
            self.counter = 0;
            self.has_overflowed = true;
        } else {
            self.counter = self.counter + 1;
        }
    }

    fn should_increment_counter(&mut self) -> (r: bool)
        ensures
            r == (old(self).previous_and_result && !spec_and_result(
                old(self).divider,
                old(self).control,
            )),
            *final(self) == (Timer {
                previous_and_result: spec_and_result(old(self).divider, old(self).control),
                ..*old(self)
            }),
    {
        let bit_position = self.clock_frequency_to_bit_position();
        let and_result = (self.divider >> bit_position as u16) & self.enabled() == 1;

        let should_increment = self.previous_and_result && !and_result;

        self.previous_and_result = and_result;

        should_increment
    }

    /// TAC bit 2 isolated as a 0/1 word.
    fn enabled(&self) -> (r: u16)
        ensures
            r == spec_enable(self.control),
    {
        ((self.control & 0b0000_0100) >> 2u8) as u16
    }

    /// The divider bit selected by TAC bits 1..0.
    fn clock_frequency_to_bit_position(&self) -> (r: u8)
        ensures
            r as u16 == spec_tap_position(self.control),
    {
        broadcast use crate::bitmath::lemma_u8_low2_mask;

        match self.control & 0b0000_0011 {
            0b00 => 9,
            0b01 => 3,
            0b10 => 5,
            _ => 7,
        }
    }
}

/// Peeling one tick off the end of an `n`-tick run.
proof fn lemma_ticks_snoc(t: Timer, n: nat)
    requires
        n >= 1,
    ensures
        spec_ticks(t, n) == spec_tick(spec_ticks(t, (n - 1) as nat)),
    decreases n,
{
    if n == 1 {
        assert(spec_ticks(t, 1) == spec_ticks(spec_tick(t), 0));
    } else {
        lemma_ticks_snoc(spec_tick(t), (n - 1) as nat);
    }
}

/// The AND signal for TAC=0b101 (enabled, tap bit 3) is divider bit 3:
/// set exactly on the second half of each 16-clock period.
proof fn lemma_tap3_signal(d: u16)
    by (bit_vector)
    ensures
        ((d >> 3u16) & 1u16 == 1) <==> d % 16 >= 8,
{
}

/// With TAC=0b101 (enabled, tap = divider bit 3) TIMA increments exactly
/// once every 16 clocks: a tick increments it exactly when the divider is
/// about to leave a multiple-of-16 period, i.e. when `divider % 16 == 15`,
/// which holds for exactly one of any 16 consecutive divider values.
pub proof fn lemma_tima_increments_every_16_clocks(t: Timer)
    requires
        t.control == 0b101,
        t.previous_and_result == spec_and_result(t.divider, t.control),
        !t.has_overflowed,
        t.counter < 0xFF,
    ensures
        spec_tick(t).counter == if t.divider % 16 == 15 {
            t.counter + 1
        } else {
            t.counter as int
        },
        spec_tick(t).previous_and_result == spec_and_result(spec_tick(t).divider, t.control),
        !spec_tick(t).has_overflowed,
{
    assert(spec_enable(0b101) == 1) by (bit_vector);
    lemma_tap3_signal(t.divider);
    lemma_tap3_signal(spec_tick(t).divider);
    assert(spec_tick(t).divider == (t.divider + 1) % 0x10000);
    let d = t.divider;
    assert(d % 16 == 15 ==> (d + 1) % 0x10000 % 16 == 0) by (bit_vector);
    assert(d % 16 < 15 ==> (d + 1) % 0x10000 % 16 == d % 16 + 1) by (bit_vector);
}

/// Disabling the timer while the tap bit is 1 produces one additional TIMA
/// increment: the AND signal falls because of the enable bit, not the tap
/// bit, and the falling-edge rule fires on the next clock.
pub proof fn lemma_disable_gives_spurious_increment(t: Timer, control2: u8)
    requires
        t.previous_and_result,
        spec_enable(control2) == 0,
        !t.has_overflowed,
        t.counter < 0xFF,
    ensures
        spec_tick(Timer { control: control2, ..t }).counter == t.counter + 1,
{
    let t2 = Timer { control: control2, ..t };
    let d2 = ((t.divider + 1) % 0x10000) as u16;
    let p = spec_tap_position(control2);
    assert((d2 >> p) & 0u16 != 1) by (bit_vector);
    assert(!spec_and_result(d2, control2));
}

/// On TIMA overflow the interrupt flag is latched and TIMA is reloaded from
/// TMA one clock later: a tick that wraps TIMA to zero marks the overflow,
/// and the following tick loads TMA and requests the interrupt.
pub proof fn lemma_overflow_reloads_and_interrupts(t: Timer)
    requires
        t.counter == 0xFF,
        !t.has_overflowed,
        spec_tick(t).has_overflowed,
    ensures
        spec_tick(t).counter == 0,
        spec_ticks(t, 2).counter == t.modulo,
        spec_ticks(t, 2).interrupt_request,
{
    assert(spec_ticks(spec_tick(t), 0) == spec_tick(t));
    assert(spec_ticks(spec_tick(t), 1) == spec_ticks(spec_tick(spec_tick(t)), 0));
    assert(spec_ticks(t, 2) == spec_ticks(spec_tick(t), 1));
}

} // verus!
