//! The MBC3 real-time clock. The live registers are recomputed from a
//! persisted epoch anchor (`zero`, in seconds), so the clock keeps ticking
//! while the emulator is not running. A latch command snapshots the live
//! registers; reads then return the snapshot until the next latch.

use vstd::prelude::*;

verus! {

/// The day counter and its flags in one 16-bit register: bits 0..8 hold the
/// 9-bit day count, bit 14 is the halt flag, bit 15 the sticky day-overflow
/// carry. Bits 8..15 are exactly the days-high byte the game sees.
pub struct Days(pub u16);

/// A latched snapshot of the five clock registers.
pub struct LatchedClockData {
    pub seconds: u8,
    pub minutes: u8,
    pub hours: u8,
    pub days_lower: u8,
    pub days_upper: u8,
}

/// The clock: an epoch anchor plus the five derived registers and the
/// optional latched snapshot.
pub struct RTC {
    pub zero: u64,
    pub seconds: u8,
    pub minutes: u8,
    pub hours: u8,
    pub days: Days,
    pub latched: Option<LatchedClockData>,
}

/// The persisted portion of the clock: the epoch anchor.
pub struct RTCState {
    pub zero: u64,
}

impl Days {
    /// The 9-bit day count.
    pub open spec fn spec_days(self) -> u16 {
        self.0 & 0x1FF
    }

    /// Bit 14: the halt flag (days-high bit 6).
    pub open spec fn spec_halted(self) -> bool {
        self.0 & 0x4000 != 0
    }

    /// Bit 15: the sticky overflow carry (days-high bit 7).
    pub open spec fn spec_overflow(self) -> bool {
        self.0 & 0x8000 != 0
    }

    /// The low 8 bits of the day count.
    pub open spec fn spec_lower(self) -> u8 {
        (self.0 % 256) as u8
    }

    /// The days-high byte: day bit 8, the halt flag and the carry.
    pub open spec fn spec_upper(self) -> u8 {
        (self.0 / 256) as u8
    }

    /// The register after the day count is replaced: the count wraps to nine
    /// bits and a count past 511 sets the sticky carry.
    pub open spec fn spec_update_days(self, new: u16) -> Days {
        let with_carry: u16 = if new >= 512 {
            self.0 | 0x8000
        } else {
            self.0
        };
        Days((new & 0x1FF) | (with_carry & !0x1FF))
    }

    pub fn new() -> (r: Days)
        ensures
            r == (Days(0)),
    {
        Days(0)
    }

    /// Replace the 9-bit day count, wrapping it and latching the sticky
    /// carry on overflow past 511.
    pub fn update_days(&mut self, new: u16)
        ensures
            *final(self) == old(self).spec_update_days(new),
    {
        if new >= 512 {
            self.set_overflow();
        }

        self.0 = (new & 0x1FF) | (self.0 & !0x1FF);
    }

    pub fn overflow(&self) -> (r: bool)
        ensures
            r == self.spec_overflow(),
    {
        self.0 & 0x8000 != 0
    }

    pub fn halted(&self) -> (r: bool)
        ensures
            r == self.spec_halted(),
    {
        self.0 & 0x4000 != 0
    }

    pub fn set_halted(&mut self, value: bool)
        ensures
            *final(self) == (Days(
                if value {
                    old(self).0 | 0x4000
                } else {
                    old(self).0 & !0x4000
                },
            )),
    {
        if value {
            self.0 = self.0 | 0x4000;
        } else {
            self.0 = self.0 & !0x4000;
        }
    }

    pub fn days(&self) -> (r: u16)
        ensures
            r == self.spec_days(),
    {
        self.0 & 0x1FF
    }

    pub fn set_overflow(&mut self)
        ensures
            *final(self) == (Days(old(self).0 | 0x8000)),
    {
        self.0 = self.0 | 0x8000;
    }

    pub fn set_upper(&mut self, new: u8)
        ensures
            *final(self) == (Days((old(self).0 & 0xFF) | ((new as u16) << 8u16))),
    {
        self.0 = (self.0 & 0xFF) | ((new as u16) << 8u16);
    }

    pub fn set_lower(&mut self, new: u8)
        ensures
            *final(self) == (Days((old(self).0 & 0xFF00) | new as u16)),
    {
        self.0 = (self.0 & 0xFF00) | new as u16;
    }

    pub fn lower(&self) -> (r: u8)
        ensures
            r == self.spec_lower(),
    {
        (self.0 % 256) as u8
    }

    pub fn upper(&self) -> (r: u8)
        ensures
            r == self.spec_upper(),
    {
        (self.0 / 256) as u8
    }
}

/// The registers folded back into a second count: what the displayed time
/// amounts to past the anchor.
pub open spec fn spec_elapsed(r: RTC) -> int {
    r.seconds + r.minutes * 60 + r.hours * 3600 + r.days.spec_days() * 86400
}

/// The anchor that makes `now` display the current registers; zero when
/// `now` is too small for them.
pub open spec fn spec_anchor(r: RTC, now: u64) -> u64 {
    if now >= spec_elapsed(r) {
        (now - spec_elapsed(r)) as u64
    } else {
        0
    }
}

/// The elapsed day count folded into the 16-bit register the day counter
/// takes: past its range the value keeps both its remainder mod 512 and a
/// value of at least 512, so the sticky overflow carry is never missed.
pub open spec fn spec_day_count(duration: u64) -> u16 {
    if duration / 86400 > 0xFFFF {
        (512 + (duration / 86400) % 512) as u16
    } else {
        (duration / 86400) as u16
    }
}

/// One clock refresh at time `now`: a halted clock first re-anchors, so its
/// registers stay frozen; then the registers are recomputed from the time
/// past the anchor.
pub open spec fn spec_rtc_update(r: RTC, now: u64) -> RTC {
    let zero = if r.days.spec_halted() {
        spec_anchor(r, now)
    } else {
        r.zero
    };
    let duration: u64 = if now >= zero {
        (now - zero) as u64
    } else {
        0
    };
    RTC {
        zero,
        seconds: (duration % 60) as u8,
        minutes: ((duration / 60) % 60) as u8,
        hours: ((duration / 3600) % 24) as u8,
        days: r.days.spec_update_days(spec_day_count(duration)),
        ..r
    }
}


/// The clock after a seconds write: the register clamped, the anchor moved
/// so `now` displays it.
pub open spec fn spec_rtc_write_seconds(r: RTC, now: u64, new: u8) -> RTC {
    let r1 = RTC { seconds: if new > 59 { 59u8 } else { new }, ..r };
    RTC { zero: spec_anchor(r1, now), ..r1 }
}

/// The clock after a minutes write.
pub open spec fn spec_rtc_write_minutes(r: RTC, now: u64, new: u8) -> RTC {
    let r1 = RTC { minutes: if new > 59 { 59u8 } else { new }, ..r };
    RTC { zero: spec_anchor(r1, now), ..r1 }
}

/// The clock after an hours write.
pub open spec fn spec_rtc_write_hours(r: RTC, now: u64, new: u8) -> RTC {
    let r1 = RTC { hours: if new > 23 { 23u8 } else { new }, ..r };
    RTC { zero: spec_anchor(r1, now), ..r1 }
}

/// The clock after a days-low write.
pub open spec fn spec_rtc_write_days_lower(r: RTC, now: u64, new: u8) -> RTC {
    let r1 = RTC { days: (Days((r.days.0 & 0xFF00) | new as u16)), ..r };
    RTC { zero: spec_anchor(r1, now), ..r1 }
}

/// The clock after a days-high write.
pub open spec fn spec_rtc_write_days_upper(r: RTC, now: u64, new: u8) -> RTC {
    let r1 = RTC { days: (Days((r.days.0 & 0xFF) | ((new as u16) << 8u16))), ..r };
    RTC { zero: spec_anchor(r1, now), ..r1 }
}

/// The clock after a latch: the live registers snapshotted.
pub open spec fn spec_rtc_latch(r: RTC) -> RTC {
    RTC {
        latched: Some(
            LatchedClockData {
                seconds: r.seconds,
                minutes: r.minutes,
                hours: r.hours,
                days_lower: r.days.spec_lower(),
                days_upper: r.days.spec_upper(),
            },
        ),
        ..r
    }
}

/// The byte a read of a clock register yields, by register index 0..=4:
/// seconds, minutes, hours, days-low, days-high; latched once latched.
pub open spec fn spec_rtc_read(r: RTC, index: int) -> u8 {
    match r.latched {
        Some(l) => if index == 0 {
            l.seconds
        } else if index == 1 {
            l.minutes
        } else if index == 2 {
            l.hours
        } else if index == 3 {
            l.days_lower
        } else {
            l.days_upper
        },
        None => if index == 0 {
            r.seconds
        } else if index == 1 {
            r.minutes
        } else if index == 2 {
            r.hours
        } else if index == 3 {
            r.days.spec_lower()
        } else {
            r.days.spec_upper()
        },
    }
}

impl RTC {
    /// A clock anchored at `now`, reading all zero, never latched.
    pub fn new(now: u64) -> (r: RTC)
        ensures
            r.zero == now,
            r.seconds == 0,
            r.minutes == 0,
            r.hours == 0,
            r.days == (Days(0)),
            r.latched is None,
    {
        RTC { zero: now, seconds: 0, minutes: 0, hours: 0, days: Days::new(), latched: None }
    }

    /// Write the seconds register (clamped to 0..=59) and re-anchor so the
    /// written value is what `now` displays.
    pub fn write_seconds(&mut self, now: u64, new: u8)
        ensures
            *final(self) == ({
                let r1 = RTC { seconds: if new > 59 { 59u8 } else { new }, ..*old(self) };
                RTC { zero: spec_anchor(r1, now), ..r1 }
            }),
    {
        self.seconds = if new > 59 {
            59
        } else {
            new
        };
        self.calculate_zero(now);
    }

    /// The seconds register: the latched value once latched, else live.
    pub fn read_seconds(&self) -> (r: u8)
        ensures
            r == (match self.latched {
                Some(l) => l.seconds,
                None => self.seconds,
            }),
    {
        match &self.latched {
            Some(latched) => latched.seconds,
            None => self.seconds,
        }
    }

    /// Write the minutes register (clamped to 0..=59) and re-anchor.
    pub fn write_minutes(&mut self, now: u64, new: u8)
        ensures
            *final(self) == ({
                let r1 = RTC { minutes: if new > 59 { 59u8 } else { new }, ..*old(self) };
                RTC { zero: spec_anchor(r1, now), ..r1 }
            }),
    {
        self.minutes = if new > 59 {
            59
        } else {
            new
        };
        self.calculate_zero(now);
    }

    /// The minutes register: the latched value once latched, else live.
    pub fn read_minutes(&self) -> (r: u8)
        ensures
            r == (match self.latched {
                Some(l) => l.minutes,
                None => self.minutes,
            }),
    {
        match &self.latched {
            Some(latched) => latched.minutes,
            None => self.minutes,
        }
    }

    /// Write the hours register (clamped to 0..=23) and re-anchor.
    pub fn write_hours(&mut self, now: u64, new: u8)
        ensures
            *final(self) == ({
                let r1 = RTC { hours: if new > 23 { 23u8 } else { new }, ..*old(self) };
                RTC { zero: spec_anchor(r1, now), ..r1 }
            }),
    {
        self.hours = if new > 23 {
            23
        } else {
            new
        };
        self.calculate_zero(now);
    }

    /// The hours register: the latched value once latched, else live.
    pub fn read_hours(&self) -> (r: u8)
        ensures
            r == (match self.latched {
                Some(l) => l.hours,
                None => self.hours,
            }),
    {
        match &self.latched {
            Some(latched) => latched.hours,
            None => self.hours,
        }
    }

    /// Write the low day byte and re-anchor.
    pub fn write_days_lower(&mut self, now: u64, new: u8)
        ensures
            *final(self) == ({
                let r1 = RTC {
                    days: (Days((old(self).days.0 & 0xFF00) | new as u16)),
                    ..*old(self)
                };
                RTC { zero: spec_anchor(r1, now), ..r1 }
            }),
    {
        self.days.set_lower(new);
        self.calculate_zero(now);
    }

    /// The low day byte: the latched value once latched, else live.
    pub fn read_days_lower(&self) -> (r: u8)
        ensures
            r == (match self.latched {
                Some(l) => l.days_lower,
                None => self.days.spec_lower(),
            }),
    {
        match &self.latched {
            Some(latched) => latched.days_lower,
            None => self.days.lower(),
        }
    }

    /// Write the days-high byte (day bit 8, halt, carry) and re-anchor.
    pub fn write_days_upper(&mut self, now: u64, new: u8)
        ensures
            *final(self) == ({
                let r1 = RTC {
                    days: (Days((old(self).days.0 & 0xFF) | ((new as u16) << 8u16))),
                    ..*old(self)
                };
                RTC { zero: spec_anchor(r1, now), ..r1 }
            }),
    {
        self.days.set_upper(new);
        self.calculate_zero(now);
    }

    /// The days-high byte: the latched value once latched, else live.
    pub fn read_days_upper(&self) -> (r: u8)
        ensures
            r == (match self.latched {
                Some(l) => l.days_upper,
                None => self.days.spec_upper(),
            }),
    {
        match &self.latched {
            Some(latched) => latched.days_upper,
            None => self.days.upper(),
        }
    }

    /// Re-anchor the epoch so the current registers are what `now` displays.
    fn calculate_zero(&mut self, now: u64)
        ensures
            *final(self) == (RTC { zero: spec_anchor(*old(self), now), ..*old(self) }),
    {
        let elapsed: u64 = self.seconds as u64 + self.minutes as u64 * 60 + self.hours as u64
            * 3600 + self.days.days() as u64 * 86400;
        if now >= elapsed {
            self.zero = now - elapsed;
        } else {
            self.zero = 0;
        }
    }

    /// Refresh the live registers from the time past the anchor. A halted
    /// clock re-anchors first, which freezes its registers in place.
    pub fn update(&mut self, now: u64)
        ensures
            *final(self) == spec_rtc_update(*old(self), now),
    {
        if self.days.halted() {
            self.calculate_zero(now);
        }

        let duration: u64 = if now >= self.zero {
            now - self.zero
        } else {
            0
        };

        self.seconds = (duration % 60) as u8;
        self.minutes = ((duration / 60) % 60) as u8;
        self.hours = ((duration / 3600) % 24) as u8;

        let day_total = duration / 86400;
        let days: u16 = if day_total > 0xFFFF {
            (512 + (day_total % 512)) as u16
        } else {
            day_total as u16
        };

        self.days.update_days(days);
    }

    /// Snapshot the live registers; reads return the snapshot until the next
    /// latch.
    pub fn latch(&mut self)
        ensures
            *final(self) == (RTC {
                latched: Some(
                    LatchedClockData {
                        seconds: old(self).seconds,
                        minutes: old(self).minutes,
                        hours: old(self).hours,
                        days_lower: old(self).days.spec_lower(),
                        days_upper: old(self).days.spec_upper(),
                    },
                ),
                ..*old(self)
            }),
    {
        self.latched = Some(
            LatchedClockData {
                seconds: self.seconds,
                minutes: self.minutes,
                hours: self.hours,
                days_lower: self.days.lower(),
                days_upper: self.days.upper(),
            },
        );
    }

    /// The persisted clock state.
    pub fn state(&self) -> (r: RTCState)
        ensures
            r.zero == self.zero,
    {
        RTCState { zero: self.zero }
    }
}

/// Once latched, the register view is frozen: refreshing the clock at any
/// later time changes none of the five bytes a read yields, until the clock
/// is latched again.
pub proof fn lemma_latched_view_is_frozen(r: RTC, now: u64)
    requires
        r.latched is Some,
    ensures
        spec_rtc_update(r, now).latched == r.latched,
{
}

/// A halted clock does not advance: refreshing it at any time `now` that
/// lies at or past the time its registers display leaves all five register
/// bytes unchanged, and the sticky carry stays.
pub proof fn lemma_halted_clock_does_not_advance(r: RTC, now: u64)
    requires
        r.days.spec_halted(),
        now >= spec_elapsed(r),
        r.seconds <= 59,
        r.minutes <= 59,
        r.hours <= 23,
    ensures
        spec_rtc_update(r, now).seconds == r.seconds,
        spec_rtc_update(r, now).minutes == r.minutes,
        spec_rtc_update(r, now).hours == r.hours,
        spec_rtc_update(r, now).days.spec_days() == r.days.spec_days(),
        spec_rtc_update(r, now).days.spec_halted(),
        spec_rtc_update(r, now).days.spec_overflow() == r.days.spec_overflow(),
{
    let s = r.seconds as int;
    let m = r.minutes as int;
    let h = r.hours as int;
    let d = r.days.spec_days() as int;
    let total = s + m * 60 + h * 3600 + d * 86400;
    assert(spec_anchor(r, now) == now - total);
    let duration = total;
    assert(duration % 60 == s) by (nonlinear_arith)
        requires
            duration == s + m * 60 + h * 3600 + d * 86400,
            0 <= s <= 59,
            0 <= m <= 59,
            0 <= h <= 23,
            0 <= d,
    ;
    assert((duration / 60) % 60 == m) by (nonlinear_arith)
        requires
            duration == s + m * 60 + h * 3600 + d * 86400,
            0 <= s <= 59,
            0 <= m <= 59,
            0 <= h <= 23,
            0 <= d,
    ;
    assert((duration / 3600) % 24 == h) by (nonlinear_arith)
        requires
            duration == s + m * 60 + h * 3600 + d * 86400,
            0 <= s <= 59,
            0 <= m <= 59,
            0 <= h <= 23,
            0 <= d,
    ;
    assert(duration / 86400 == d) by (nonlinear_arith)
        requires
            duration == s + m * 60 + h * 3600 + d * 86400,
            0 <= s <= 59,
            0 <= m <= 59,
            0 <= h <= 23,
            0 <= d,
    ;
    assert(d < 512) by {
        let v = r.days.0;
        assert(v & 0x1FF < 512) by (bit_vector);
    }
    let days0 = r.days.0;
    let dd = d as u16;
    assert(dd == days0 & 0x1FF ==> ((dd & 0x1FF) | (days0 & !0x1FF)) == days0) by (bit_vector);
    assert(((duration / 86400) % 0x10000) == d);
    assert(spec_rtc_update(r, now).days == r.days.spec_update_days(dd));
    assert(r.days.spec_update_days(dd) == r.days);
}

/// Days overflow past 511 sets the sticky carry in days-high bit 7 and
/// wraps the 9-bit count.
pub proof fn lemma_days_overflow_wraps_and_carries(d: Days, new: u16)
    requires
        new >= 512,
    ensures
        d.spec_update_days(new).spec_overflow(),
        d.spec_update_days(new).spec_days() == new % 512,
        d.spec_update_days(new).spec_halted() == d.spec_halted(),
{
    let v = d.0;
    assert(((new & 0x1FF) | ((v | 0x8000) & !0x1FF)) & 0x8000 != 0) by (bit_vector);
    assert((((new & 0x1FF) | ((v | 0x8000) & !0x1FF)) & 0x1FF) == new % 512) by (bit_vector);
    assert((((new & 0x1FF) | ((v | 0x8000) & !0x1FF)) & 0x4000) == v & 0x4000) by (bit_vector);
}


/// The sticky day carry is never missed: a refresh whose elapsed time spans
/// at least 512 days sets the overflow bit, however large the span is.
pub proof fn lemma_long_span_sets_day_carry(r: RTC, now: u64)
    requires
        !r.days.spec_halted(),
        now >= r.zero,
        (now - r.zero) / 86400 >= 512,
    ensures
        spec_rtc_update(r, now).days.spec_overflow(),
{
    let duration = (now - r.zero) as u64;
    assert(spec_day_count(duration) >= 512);
    let v = r.days.0;
    assert(((spec_day_count(duration) & 0x1FF) | ((v | 0x8000) & !0x1FF)) & 0x8000 != 0)
        by (bit_vector);
}

} // verus!
