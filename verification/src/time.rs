//! The calendar time value: an immutable record of second/minute/hour and
//! date fields, with rollover-aware increment operations. Every transition
//! produces a new value so that two consecutive readings can be compared.

use vstd::prelude::*;

verus! {

/// A wall-clock time value. Field-wise equality; the well-formedness
/// predicate [`Time::wf`] bounds the fields the clock logic depends on.
#[derive(PartialEq, Eq, Structural, Clone, Copy, Debug)]
pub struct Time {
    pub sec: u8,
    pub min: u8,
    pub hour: u8,
    pub day: u8,
    pub month: u8,
    pub year: u16,
}

impl Time {
    /// The ranges every value produced by this crate stays inside:
    /// seconds and minutes below sixty, hours below twenty-four.
    pub open spec fn wf(self) -> bool {
        self.sec < 60 && self.min < 60 && self.hour < 24
    }

    pub open spec fn spec_sec(self) -> u8 {
        self.sec
    }

    pub open spec fn spec_min(self) -> u8 {
        self.min
    }

    pub open spec fn spec_hour(self) -> u8 {
        self.hour
    }

    pub open spec fn spec_day(self) -> u8 {
        self.day
    }

    pub open spec fn spec_month(self) -> u8 {
        self.month
    }

    pub open spec fn spec_year(self) -> u16 {
        self.year
    }

    /// The value one minute later: minutes roll over into the hour,
    /// hours roll over at twenty-four. The date fields are untouched.
    pub open spec fn spec_inc_minutes(self) -> Time {
        if self.min + 1 < 60 {
            Time { min: (self.min + 1) as u8, ..self }
        } else {
            Time { min: 0, hour: if self.hour + 1 < 24 { (self.hour + 1) as u8 } else { 0 }, ..self }
        }
    }

    /// The value one hour later, rolling over at twenty-four.
    pub open spec fn spec_inc_hours(self) -> Time {
        Time { hour: if self.hour + 1 < 24 { (self.hour + 1) as u8 } else { 0 }, ..self }
    }

    /// Builds a time value from the plain fields a real-time-clock read
    /// hands over (hour already normalized to the 24-hour form). Fields
    /// out of range are rejected, so a glitched bus read is treated as a
    /// transient error and the caller falls back to its running time.
    pub fn from_rtc_fields(year: u16, month: u8, day: u8, hour: u8, min: u8, sec: u8) -> (r: Result<
        Time,
        (),
    >)
        ensures
            r matches Ok(t) ==> t == (Time { sec, min, hour, day, month, year }),
            r is Ok <==> (hour < 24 && min < 60 && sec < 60),
            r matches Ok(t) ==> t.wf(),
    {
        if hour < 24 && min < 60 && sec < 60 {
            Ok(Time { sec, min, hour, day, month, year })
        } else {
            Err(())
        }
    }

    pub fn minutes(&self) -> (r: u8)
        ensures
            r == self.spec_min(),
    {
        self.min
    }

    pub fn hour(&self) -> (r: u8)
        ensures
            r == self.spec_hour(),
    {
        self.hour
    }

    pub fn seconds(&self) -> (r: u8)
        ensures
            r == self.spec_sec(),
    {
        self.sec
    }

    pub fn day(&self) -> (r: u8)
        ensures
            r == self.spec_day(),
    {
        self.day
    }

    pub fn month(&self) -> (r: u8)
        ensures
            r == self.spec_month(),
    {
        self.month
    }

    pub fn year(&self) -> (r: u16)
        ensures
            r == self.spec_year(),
    {
        self.year
    }

    /// Returns the value one minute later (minute and hour rollover).
    pub fn inc_minutes(&self) -> (r: Time)
        requires
            self.wf(),
        ensures
            r == self.spec_inc_minutes(),
            r.wf(),
    {
        let mut time = *self;
        time.min += 1;
        if time.min >= 60 {
            time.hour += 1;
            time.min = 0;
        }
        if time.hour >= 24 {
            time.hour = 0;
        }
        time
    }

    /// Returns the value one hour later (rollover at twenty-four).
    pub fn inc_hours(&self) -> (r: Time)
        requires
            self.wf(),
        ensures
            r == self.spec_inc_hours(),
            r.wf(),
    {
        let mut time = *self;
        time.hour += 1;
        if time.hour >= 24 {
            time.hour = 0;
        }
        time
    }
}

impl Default for Time {
    /// The all-zero time value used before the first successful clock read.
    fn default() -> (r: Time)
        ensures
            r == (Time { sec: 0, min: 0, hour: 0, day: 0, month: 0, year: 0 }),
            r.wf(),
    {
        Time { sec: 0, min: 0, hour: 0, day: 0, month: 0, year: 0 }
    }
}

/// The time value after `n` single-minute increments.
pub open spec fn inc_minutes_n(t: Time, n: nat) -> Time
    decreases n,
{
    if n == 0 {
        t
    } else {
        inc_minutes_n(t, (n - 1) as nat).spec_inc_minutes()
    }
}

/// Law: sixty single-minute increments advance the clock by exactly one
/// hour — the minute field returns to its starting value and the hour
/// field advances once, rolling over at twenty-four. The date fields and
/// the seconds are untouched throughout.
pub proof fn lemma_sixty_minutes_is_one_hour(t: Time)
    requires
        t.wf(),
    ensures
        inc_minutes_n(t, 60) == t.spec_inc_hours(),
{
    lemma_inc_minutes_partial(t, 60);
}

/// Law: after sixty single-minute increments the minute field is back at
/// its starting value and the hour field has advanced once, modulo
/// twenty-four; seconds and date fields are untouched.
pub proof fn lemma_minute_rollover(t: Time)
    requires
        t.wf(),
    ensures
        inc_minutes_n(t, 60).min == t.min,
        inc_minutes_n(t, 60).hour == (t.hour + 1) % 24int,
        inc_minutes_n(t, 60).sec == t.sec,
        inc_minutes_n(t, 60).day == t.day,
        inc_minutes_n(t, 60).month == t.month,
        inc_minutes_n(t, 60).year == t.year,
{
    lemma_sixty_minutes_is_one_hour(t);
}

/// After `k <= 60` single-minute increments the clock reads as expected:
/// while the minute field has not yet wrapped the hour is unchanged, and
/// once it wraps the hour has advanced exactly once.
proof fn lemma_inc_minutes_partial(t: Time, k: nat)
    requires
        t.wf(),
        k <= 60,
    ensures
        t.min + k < 60 ==> inc_minutes_n(t, k) == (Time { min: (t.min + k) as u8, ..t }),
        t.min + k >= 60 ==> inc_minutes_n(t, k) == (Time {
            min: (t.min + k - 60) as u8,
            hour: if t.hour + 1 < 24 {
                (t.hour + 1) as u8
            } else {
                0
            },
            ..t
        }),
    decreases k,
{
    if k > 0 {
        lemma_inc_minutes_partial(t, (k - 1) as nat);
    }
}

} // verus!
