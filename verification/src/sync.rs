//! The synchronization state machine of the main loop: feeding drained
//! samples into the radio receiver, reconciling each completed decode
//! against the prediction from the previous one, and the periodic
//! fallback reconciliation against the battery-backed clock chip.
//!
//! A single radio decode is unreliable, so a correction is committed to
//! the clock chip only when two consecutive decodes differ by exactly one
//! minute — a cheap two-sample debounce before trusting either.

use vstd::prelude::*;
use crate::radio::Receiver;
use crate::time::Time;

verus! {

/// What one completed radio reception cycle decided.
pub struct CycleOutcome {
    /// The radio time the next cycle will be compared against.
    pub accepted: Time,
    /// The freshly confirmed time to write into the clock chip, if the
    /// decode matched the prediction.
    pub rtc_write: Option<Time>,
    /// The new level of the sync-health indicator: high when the decode
    /// confirmed the prediction, low when it contradicted it, and `None`
    /// — indicator left unchanged — when the parse failed and the whole
    /// cycle was discarded.
    pub sync_led: Option<bool>,
}

/// Decides one completed reception cycle.
///
/// A successful parse is always adopted as the new reference; it is
/// committed to the clock chip, and the sync-health indicator asserted,
/// exactly when it equals the previous reference advanced by one minute
/// (two consecutive decodes agree with the expected advance). A
/// mismatching parse is adopted without a commit and the indicator is
/// deasserted. A failed parse changes nothing, the indicator included.
pub fn reconcile_cycle(prev: &Time, parsed: &Result<Time, ()>) -> (out: CycleOutcome)
    requires
        prev.wf(),
        parsed matches Ok(t) ==> t.wf(),
    ensures
        out.accepted.wf(),
        parsed matches Ok(t) ==> out.accepted == t,
        parsed matches Ok(t) ==> out.rtc_write == (if t == prev.spec_inc_minutes() {
            Some(*t)
        } else {
            None::<Time>
        }),
        parsed matches Ok(t) ==> out.sync_led == Some(t == prev.spec_inc_minutes()),
        parsed is Err ==> out.accepted == *prev && out.sync_led is None && out.rtc_write is None,
{
    match parsed {
        Ok(new_time) => {
            let test_time = prev.inc_minutes();
            let confirmed = test_time == *new_time;
            let rtc_write = if confirmed {
                Some(*new_time)
            } else {
                None
            };
            CycleOutcome { accepted: *new_time, rtc_write, sync_led: Some(confirmed) }
        },
        Err(_) => CycleOutcome { accepted: *prev, rtc_write: None, sync_led: None },
    }
}

/// What a batch of drained samples asked the main loop to do.
pub struct SyncReport {
    /// The confirmed times to write into the clock chip, in order.
    pub rtc_writes: Vec<Time>,
    /// The last level decided for the sync-health indicator, if any
    /// reception cycle within the batch parsed successfully; `None`
    /// leaves the indicator as it was.
    pub sync_led: Option<bool>,
}

/// Feeds one batch of drained samples into the radio receiver, in order,
/// and decides every reception cycle that completes along the way. When
/// the receiver reports a completed cycle is opaque, so the exact
/// decisions are the contract of [`reconcile_cycle`]; what is promised
/// here is that every sample of the batch reaches the receiver, that
/// every adopted reference and requested clock-chip write is well-formed,
/// and that nothing changes when no cycle parsed.
pub fn process_samples(receiver: &mut Receiver, accepted: &mut Time, samples: &Vec<bool>) -> (out:
    SyncReport)
    requires
        old(accepted).wf(),
    ensures
        final(receiver).log() == old(receiver).log() + samples@,
        final(accepted).wf(),
        forall|i: int| 0 <= i < out.rtc_writes@.len() ==> out.rtc_writes@[i].wf(),
        out.sync_led is None ==> *final(accepted) == *old(accepted) && out.rtc_writes@.len() == 0,
        samples@.len() == 0 ==> out.sync_led is None,
{
    let mut rtc_writes: Vec<Time> = Vec::new();
    let mut sync_led: Option<bool> = None;
    let mut i: usize = 0;
    assert(samples@.subrange(0, 0) =~= Seq::<bool>::empty());
    while i < samples.len()
        invariant
            accepted.wf(),
            forall|j: int| 0 <= j < rtc_writes@.len() ==> rtc_writes@[j].wf(),
            sync_led is None ==> *accepted == *old(accepted) && rtc_writes@.len() == 0,
            i <= samples@.len(),
            i == 0 ==> sync_led is None,
            receiver.log() == old(receiver).log() + samples@.subrange(0, i as int),
        decreases samples.len() - i,
    {
        receiver.feed(samples[i]);
        assert(samples@.subrange(0, i as int).push(samples@[i as int]) =~= samples@.subrange(
            0,
            i + 1,
        ));
        if receiver.end_of_cycle() {
            let parsed = receiver.decode();
            let outcome = reconcile_cycle(accepted, &parsed);
            *accepted = outcome.accepted;
            if let Some(t) = outcome.rtc_write {
                rtc_writes.push(t);
            }
            if let Some(led) = outcome.sync_led {
                sync_led = Some(led);
            }
        }
        i += 1;
    }
    assert(samples@.subrange(0, samples@.len() as int) =~= samples@);
    SyncReport { rtc_writes, sync_led }
}

/// Whether the periodic clock-chip reconciliation is due: the seconds
/// counter has completed a minute.
pub fn rtc_update_due(seconds: u8) -> (r: bool)
    ensures
        r == (seconds >= 60),
{
    seconds >= 60
}

/// What the periodic reconciliation decided.
pub struct TickUpdate {
    /// The time the display follows from now on.
    pub time: Time,
    /// The value the seconds counter restarts from: the seconds field of
    /// the adopted time, so the next minute boundary stays phase-aligned
    /// with the wall clock.
    pub seconds_reset: u8,
}

/// Decides the periodic reconciliation once a minute has elapsed: adopt
/// the fresh clock-chip read, or — if the read failed — fall back to
/// advancing the current time by one minute so the clock keeps running
/// through a transient bus error.
pub fn reconcile_rtc(current: &Time, rtc_read: &Result<Time, ()>) -> (out: TickUpdate)
    requires
        current.wf(),
        rtc_read matches Ok(t) ==> t.wf(),
    ensures
        out.time.wf(),
        rtc_read matches Ok(t) ==> out.time == t,
        rtc_read is Err ==> out.time == current.spec_inc_minutes(),
        out.seconds_reset == out.time.sec,
{
    let time = match rtc_read {
        Ok(t) => *t,
        Err(_) => current.inc_minutes(),
    };
    let seconds_reset = time.seconds();
    TickUpdate { time, seconds_reset }
}

} // verus!
