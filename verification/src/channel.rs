//! The state shared between the interrupt handlers and the main loop:
//! the bounded queue of sampled radio bits, the millisecond and second
//! counters, and the mirrors of the two status indicator lines.
//!
//! On the hardware every access to this state happens inside a critical
//! section (interrupts globally disabled); the functions here are the
//! pure transitions performed inside those sections, so each one is a
//! single bounded step with no blocking.

use vstd::prelude::*;

verus! {

/// Capacity of the sample queue: slightly more than one second of
/// 100 ms-spaced radio bits.
pub const SAMPLE_CAPACITY: usize = 10;

/// The millisecond ticker samples the radio line on every `N`th call.
pub const SAMPLE_PHASE_PERIOD: u8 = 10;

/// The second counter starts near a minute boundary so the first
/// clock-chip read happens shortly after boot.
pub const INITIAL_SECONDS: u8 = 50;

/// A bounded queue of sampled radio signal levels. When the queue is
/// full a new sample is dropped silently: the bit is resampled on the
/// next second, so backpressure by loss is acceptable here.
pub struct SampleQueue {
    pub slots: Vec<bool>,
}

/// The contents of a queue after one push: appended while there is room,
/// unchanged (the sample dropped) when full.
pub open spec fn pushed_sample(q: Seq<bool>, sample: bool) -> Seq<bool> {
    if q.len() < SAMPLE_CAPACITY {
        q.push(sample)
    } else {
        q
    }
}

impl SampleQueue {
    /// The queue never exceeds its fixed capacity.
    pub open spec fn wf(self) -> bool {
        self.slots@.len() <= SAMPLE_CAPACITY
    }

    /// An empty queue.
    pub fn new() -> (q: SampleQueue)
        ensures
            q.wf(),
            q.slots@ == Seq::<bool>::empty(),
    {
        SampleQueue { slots: Vec::new() }
    }

    /// Appends one sample, dropping it if the queue is full.
    pub fn push(&mut self, sample: bool)
        requires
            old(self).wf(),
        ensures
            final(self).wf(),
            final(self).slots@ == pushed_sample(old(self).slots@, sample),
    {
        if self.slots.len() < SAMPLE_CAPACITY {
            self.slots.push(sample);
        }
    }

    /// Atomically drains the queue: returns everything sampled so far, in
    /// order, and leaves the queue empty. On the hardware this is the
    /// take-and-replace done in one critical section, so the main loop
    /// never observes a queue changing mid-iteration.
    pub fn take_all(&mut self) -> (drained: Vec<bool>)
        ensures
            final(self).wf(),
            final(self).slots@ == Seq::<bool>::empty(),
            drained@ == old(self).slots@,
    {
        let mut drained: Vec<bool> = Vec::new();
        core::mem::swap(&mut self.slots, &mut drained);
        drained
    }
}

/// Everything the interrupt handlers and the main loop share.
pub struct SharedState {
    /// Wrapping count of millisecond-ticker invocations.
    pub millis: u32,
    /// Seconds elapsed since the last clock-chip reconciliation.
    pub seconds: u8,
    /// Phase of the millisecond ticker within its sampling period.
    pub phase: u8,
    /// The sampled radio bits not yet drained by the main loop.
    pub samples: SampleQueue,
    /// Mirror of the indicator showing the instantaneous radio level.
    pub radio_level_led: bool,
    /// Mirror of the indicator toggled by every second tick.
    pub heartbeat_led: bool,
}

impl SharedState {
    pub open spec fn wf(self) -> bool {
        self.phase < SAMPLE_PHASE_PERIOD && self.samples.wf()
    }

    /// The boot state: counters at their initial values, no samples yet,
    /// both indicators off.
    pub fn new() -> (s: SharedState)
        ensures
            s.wf(),
            s.millis == 0,
            s.seconds == INITIAL_SECONDS,
            s.phase == 0,
            s.samples.slots@ == Seq::<bool>::empty(),
            !s.radio_level_led,
            !s.heartbeat_led,
    {
        SharedState {
            millis: 0,
            seconds: INITIAL_SECONDS,
            phase: 0,
            samples: SampleQueue::new(),
            radio_level_led: false,
            heartbeat_led: false,
        }
    }

    /// One millisecond tick: always advances the wrapping millisecond
    /// counter; on phase zero it additionally mirrors the instantaneous
    /// radio level onto the indicator and queues the sample (dropped if
    /// the queue is full). All other phases change nothing else.
    pub fn millisecond_tick(&mut self, radio_level: bool)
        requires
            old(self).wf(),
        ensures
            final(self).wf(),
            final(self).millis == (old(self).millis + 1) % 0x1_0000_0000int,
            final(self).phase == (old(self).phase + 1) % (SAMPLE_PHASE_PERIOD as int),
            old(self).phase == 0 ==> final(self).radio_level_led == radio_level
                && final(self).samples.slots@ == pushed_sample(
                old(self).samples.slots@,
                radio_level,
            ),
            old(self).phase != 0 ==> final(self).radio_level_led == old(self).radio_level_led
                && final(self).samples.slots@ == old(self).samples.slots@,
            final(self).seconds == old(self).seconds,
            final(self).heartbeat_led == old(self).heartbeat_led,
    {
        self.millis = self.millis.wrapping_add(1);
        if self.phase == 0 {
            self.radio_level_led = radio_level;
            self.samples.push(radio_level);
        }
        self.phase += 1;
        if self.phase >= SAMPLE_PHASE_PERIOD {
            self.phase = 0;
        }
    }

    /// One second tick, fired on each rising edge of the clock chip's
    /// square-wave output: advances the wrapping seconds counter and
    /// toggles the heartbeat indicator.
    pub fn second_tick(&mut self)
        requires
            old(self).wf(),
        ensures
            final(self).wf(),
            final(self).seconds == (old(self).seconds + 1) % 0x100int,
            final(self).heartbeat_led == !old(self).heartbeat_led,
            final(self).millis == old(self).millis,
            final(self).phase == old(self).phase,
            final(self).samples.slots@ == old(self).samples.slots@,
            final(self).radio_level_led == old(self).radio_level_led,
    {
        self.seconds = self.seconds.wrapping_add(1);
        self.heartbeat_led = !self.heartbeat_led;
    }
}

} // verus!
