//! Decoding of the radio time signal. The `dcf77` crate supplies the
//! sample-level receiver state machine (`SimpleDCF77Decoder`) and the
//! bit-field accessors over a raw 59-bit frame (`DCF77Time`); the accessors
//! are pure functions of the raw word, so their contracts restate exactly
//! what the crate computes, and the frame-to-time construction on top of
//! them is verified here.

use vstd::prelude::*;
use crate::time::Time;

verus! {

/// The raw-frame accessor type of the `dcf77` crate: a newtype over the
/// raw `u64` of received bits (its single field is public there).
#[verifier::external_type_specification]
pub struct ExDCF77Time(dcf77::DCF77Time);

/// The sample-fed receiver state machine of the `dcf77` crate. Its state
/// is private there, so it stays opaque here: nothing is assumed about
/// when a cycle completes or what raw word it accumulated.
#[verifier::external_type_specification]
#[verifier::external_body]
pub struct ExSimpleDCF77Decoder(dcf77::SimpleDCF77Decoder);

/// Whether bit `i` of the raw frame is set.
pub open spec fn frame_bit(raw: u64, i: u64) -> bool {
    (raw >> i) & 1 == 1
}

/// The minute field of a raw frame: binary-coded decimal in bits 21..=27.
pub open spec fn frame_minutes(raw: u64) -> int {
    (if frame_bit(raw, 21) { 1int } else { 0 }) + (if frame_bit(raw, 22) { 2int } else { 0 }) + (
    if frame_bit(raw, 23) {
        4int
    } else {
        0
    }) + (if frame_bit(raw, 24) { 8int } else { 0 }) + (if frame_bit(raw, 25) {
        10int
    } else {
        0
    }) + (if frame_bit(raw, 26) { 20int } else { 0 }) + (if frame_bit(raw, 27) {
        40int
    } else {
        0
    })
}

/// Even parity over the minute bits, as the frame carries it in bit 28.
pub open spec fn frame_minutes_parity(raw: u64) -> bool {
    frame_bit(raw, 21) ^ frame_bit(raw, 22) ^ frame_bit(raw, 23) ^ frame_bit(raw, 24) ^ frame_bit(
        raw,
        25,
    ) ^ frame_bit(raw, 26) ^ frame_bit(raw, 27)
}

/// The minute field decodes successfully: in range and parity matches.
pub open spec fn frame_minutes_ok(raw: u64) -> bool {
    frame_minutes(raw) <= 59 && frame_bit(raw, 28) == frame_minutes_parity(raw)
}

/// The hour field of a raw frame: binary-coded decimal in bits 29..=34.
pub open spec fn frame_hours(raw: u64) -> int {
    (if frame_bit(raw, 29) { 1int } else { 0 }) + (if frame_bit(raw, 30) { 2int } else { 0 }) + (
    if frame_bit(raw, 31) {
        4int
    } else {
        0
    }) + (if frame_bit(raw, 32) { 8int } else { 0 }) + (if frame_bit(raw, 33) {
        10int
    } else {
        0
    }) + (if frame_bit(raw, 34) { 20int } else { 0 })
}

/// Even parity over the hour bits, as the frame carries it in bit 35.
pub open spec fn frame_hours_parity(raw: u64) -> bool {
    frame_bit(raw, 29) ^ frame_bit(raw, 30) ^ frame_bit(raw, 31) ^ frame_bit(raw, 32) ^ frame_bit(
        raw,
        33,
    ) ^ frame_bit(raw, 34)
}

/// The hour field decodes successfully: in range and parity matches.
pub open spec fn frame_hours_ok(raw: u64) -> bool {
    frame_hours(raw) <= 23 && frame_bit(raw, 35) == frame_hours_parity(raw)
}

/// The day-of-month field of a raw frame: bits 36..=41.
pub open spec fn frame_day(raw: u64) -> int {
    (if frame_bit(raw, 36) { 1int } else { 0 }) + (if frame_bit(raw, 37) { 2int } else { 0 }) + (
    if frame_bit(raw, 38) {
        4int
    } else {
        0
    }) + (if frame_bit(raw, 39) { 8int } else { 0 }) + (if frame_bit(raw, 40) {
        10int
    } else {
        0
    }) + (if frame_bit(raw, 41) { 20int } else { 0 })
}

/// The day field decodes successfully (only a range check is carried).
pub open spec fn frame_day_ok(raw: u64) -> bool {
    frame_day(raw) <= 31
}

/// The month field of a raw frame: bits 45..=49, not parity-protected.
pub open spec fn frame_month(raw: u64) -> int {
    (if frame_bit(raw, 45) { 1int } else { 0 }) + (if frame_bit(raw, 46) { 2int } else { 0 }) + (
    if frame_bit(raw, 47) {
        4int
    } else {
        0
    }) + (if frame_bit(raw, 48) { 8int } else { 0 }) + (if frame_bit(raw, 49) {
        10int
    } else {
        0
    })
}

/// The year of a raw frame: 2000 plus the two-digit value in bits 50..=57.
pub open spec fn frame_year(raw: u64) -> int {
    2000 + (if frame_bit(raw, 50) { 1int } else { 0 }) + (if frame_bit(raw, 51) {
        2int
    } else {
        0
    }) + (if frame_bit(raw, 52) { 4int } else { 0 }) + (if frame_bit(raw, 53) {
        8int
    } else {
        0
    }) + (if frame_bit(raw, 54) { 10int } else { 0 }) + (if frame_bit(raw, 55) {
        20int
    } else {
        0
    }) + (if frame_bit(raw, 56) { 40int } else { 0 }) + (if frame_bit(raw, 57) {
        80int
    } else {
        0
    })
}

/// The start marker is valid: bit 0 of every frame is transmitted as zero.
pub open spec fn frame_start_ok(raw: u64) -> bool {
    !frame_bit(raw, 0)
}

/// Relies on dcf77::DCF77Time::new: wraps the raw frame word unchanged.
pub assume_specification[ dcf77::DCF77Time::new ](dcf77bits: u64) -> (r: dcf77::DCF77Time)
    ensures
        r.0 == dcf77bits,
;

/// Relies on dcf77::DCF77Time::validate_start: ok exactly when bit 0 of
/// the raw frame is clear.
pub assume_specification[ dcf77::DCF77Time::validate_start ](t: &dcf77::DCF77Time) -> (r: Result<
    (),
    (),
>)
    ensures
        r is Ok <==> frame_start_ok(t.0),
;

/// Relies on dcf77::DCF77Time::minutes: the binary-coded minute of bits
/// 21..=27, checked against the parity bit 28 and the range 0..=59.
pub assume_specification[ dcf77::DCF77Time::minutes ](t: &dcf77::DCF77Time) -> (r: Result<u8, ()>)
    ensures
        r is Ok <==> frame_minutes_ok(t.0),
        r matches Ok(m) ==> m == frame_minutes(t.0),
;

/// Relies on dcf77::DCF77Time::hours: the binary-coded hour of bits
/// 29..=34, checked against the parity bit 35 and the range 0..=23.
pub assume_specification[ dcf77::DCF77Time::hours ](t: &dcf77::DCF77Time) -> (r: Result<u8, ()>)
    ensures
        r is Ok <==> frame_hours_ok(t.0),
        r matches Ok(h) ==> h == frame_hours(t.0),
;

/// Relies on dcf77::DCF77Time::day: the binary-coded day of bits 36..=41,
/// range-checked against 0..=31 (the crate carries no parity check here).
pub assume_specification[ dcf77::DCF77Time::day ](t: &dcf77::DCF77Time) -> (r: Result<u8, ()>)
    ensures
        r is Ok <==> frame_day_ok(t.0),
        r matches Ok(d) ==> d == frame_day(t.0),
;

/// Relies on dcf77::DCF77Time::month_unchecked: the binary-coded month of
/// bits 45..=49, returned without validation.
pub assume_specification[ dcf77::DCF77Time::month_unchecked ](t: &dcf77::DCF77Time) -> (r: u8)
    ensures
        r == frame_month(t.0),
;

/// Relies on dcf77::DCF77Time::year_unchecked: 2000 plus the two-digit
/// binary-coded year of bits 50..=57, returned without validation.
pub assume_specification[ dcf77::DCF77Time::year_unchecked ](t: &dcf77::DCF77Time) -> (r: u16)
    ensures
        r == frame_year(t.0),
;

/// The bit position a decoder state machine has reached within the
/// current frame: the number of bits it has decided since its last reset.
/// The decoder's state is private in its crate, so the position is named
/// rather than stated; the trusted wrappers below say how each call moves
/// it, exactly as the crate's source shows.
pub uninterp spec fn decoder_position(dec: dcf77::SimpleDCF77Decoder) -> int;

/// Relies on dcf77::SimpleDCF77Decoder::new: a fresh receiver state
/// machine with an empty frame and its bit position at zero.
#[verifier::external_body]
fn decoder_new() -> (dec: dcf77::SimpleDCF77Decoder)
    ensures
        decoder_position(dec) == 0,
{
    dcf77::SimpleDCF77Decoder::new()
}

/// Relies on dcf77::SimpleDCF77Decoder::read_bit: ingests one sampled
/// signal level (one call per 10 ms sample) and decides at most one frame
/// bit, so the bit position grows by at most one. When the crate decides
/// a bit it shifts its 64-bit frame word by the position the call began
/// with, and the position is reset only when the end-of-minute gap is
/// detected, so a call is admitted only while the position is below 64:
/// past that the shift overflows.
#[verifier::external_body]
fn decoder_read_bit(dec: &mut dcf77::SimpleDCF77Decoder, bit: bool)
    requires
        decoder_position(*old(dec)) < 64,
    ensures
        decoder_position(*final(dec)) <= decoder_position(*old(dec)) + 1,
{
    dec.read_bit(bit)
}

/// Relies on dcf77::SimpleDCF77Decoder::seconds: returns the decoder's
/// current bit position within the frame.
#[verifier::external_body]
fn decoder_seconds(dec: &dcf77::SimpleDCF77Decoder) -> (r: usize)
    ensures
        r == decoder_position(*dec),
{
    dec.seconds()
}

/// Relies on dcf77::SimpleDCF77Decoder::end_of_cycle: whether the receiver
/// has just seen the long end-of-minute gap. No relation to the opaque
/// receiver state is assumed.
pub assume_specification[ dcf77::SimpleDCF77Decoder::end_of_cycle ](
    dec: &dcf77::SimpleDCF77Decoder,
) -> bool;

/// Relies on dcf77::SimpleDCF77Decoder::raw_data: the raw frame word the
/// receiver has accumulated so far.
pub assume_specification[ dcf77::SimpleDCF77Decoder::raw_data ](
    dec: &dcf77::SimpleDCF77Decoder,
) -> u64;

/// The whole raw frame yields a time value: valid start marker, the day,
/// hour and minute fields pass the receiver crate's own checks, and the
/// date fields lie in calendar range — day at least one and month one to
/// twelve, which the crate leaves unchecked. The year carries no range
/// and is passed through.
pub open spec fn frame_ok(raw: u64) -> bool {
    frame_start_ok(raw) && frame_day_ok(raw) && 1 <= frame_day(raw) && 1 <= frame_month(raw) <= 12
        && frame_hours_ok(raw) && frame_minutes_ok(raw)
}

/// The time value a valid raw frame denotes. The seconds are zero by
/// construction: a frame is complete exactly at a minute boundary.
pub open spec fn frame_time(raw: u64) -> Time {
    Time {
        sec: 0,
        min: frame_minutes(raw) as u8,
        hour: frame_hours(raw) as u8,
        day: frame_day(raw) as u8,
        month: frame_month(raw) as u8,
        year: frame_year(raw) as u16,
    }
}

impl Time {
    /// Decodes one raw frame word into a time value, rejecting it if the
    /// start marker or any field is invalid: the receiver crate checks
    /// minutes, hours and the day's upper bound itself, and the calendar
    /// range of day and month is checked here.
    pub fn decode_frame(raw: u64) -> (r: Result<Time, ()>)
        ensures
            r is Ok <==> frame_ok(raw),
            r matches Ok(t) ==> t == frame_time(raw) && t.wf() && t.sec == 0,
    {
        let dcf77_time = dcf77::DCF77Time::new(raw);

        dcf77_time.validate_start()?;

        let year = dcf77_time.year_unchecked();
        let month = dcf77_time.month_unchecked();
        if month < 1 || month > 12 {
            return Err(());
        }
        let day = match dcf77_time.day() {
            Ok(d) => d,
            Err(_) => {
                return Err(());
            },
        };
        if day < 1 {
            return Err(());
        }
        let hour = match dcf77_time.hours() {
            Ok(h) => h,
            Err(_) => {
                return Err(());
            },
        };
        let min = match dcf77_time.minutes() {
            Ok(m) => m,
            Err(_) => {
                return Err(());
            },
        };
        let sec: u8 = 0;

        Ok(Time { min, sec, hour, day, month, year })
    }

    /// Decodes the frame the receiver has accumulated. The receiver state
    /// is opaque, so only the shape of the result is promised here; the
    /// exact frame-to-time relation is the contract of [`Time::decode_frame`].
    pub fn try_from_dcf77(dcf77: &dcf77::SimpleDCF77Decoder) -> (r: Result<Time, ()>)
        ensures
            r matches Ok(t) ==> t.wf() && t.sec == 0,
    {
        Time::decode_frame(dcf77.raw_data())
    }
}

/// The radio receiver as the rest of the library sees it: the sample-fed
/// state machine of the receiver crate together with a ghost log of every
/// sample fed, so the contract of a caller can say that its samples truly
/// reach the receiver, in order.
pub struct Receiver {
    decoder: dcf77::SimpleDCF77Decoder,
    fed: Ghost<Seq<bool>>,
}

impl Receiver {
    /// Every sample fed into the receiver so far, oldest first.
    pub closed spec fn log(self) -> Seq<bool> {
        self.fed@
    }

    /// A fresh receiver that has seen no samples.
    pub fn new() -> (r: Receiver)
        ensures
            r.log() == Seq::<bool>::empty(),
    {
        Receiver { decoder: decoder_new(), fed: Ghost(Seq::empty()) }
    }

    /// Feeds one sampled signal level into the receiver. A receiver whose
    /// bit position has reached sixty holds more bits than a frame
    /// carries — the end-of-minute gap was missed and the partial frame
    /// is unusable — so it is replaced by a fresh state machine first.
    /// That keeps the position below the 64-bit bound the decoder's
    /// shift demands, which is its precondition here.
    pub fn feed(&mut self, bit: bool)
        ensures
            final(self).log() == old(self).log().push(bit),
    {
        if decoder_seconds(&self.decoder) >= 60 {
            self.decoder = decoder_new();
        }
        decoder_read_bit(&mut self.decoder, bit);
        self.fed = Ghost(self.fed@.push(bit));
    }

    /// Whether the receiver has just seen the end-of-minute gap and a
    /// full frame is ready to decode. Opaque receiver state: nothing is
    /// promised about when this holds.
    pub fn end_of_cycle(&self) -> bool {
        self.decoder.end_of_cycle()
    }

    /// Decodes the accumulated frame, as [`Time::try_from_dcf77`] does.
    pub fn decode(&self) -> (r: Result<Time, ()>)
        ensures
            r matches Ok(t) ==> t.wf() && t.sec == 0,
    {
        Time::try_from_dcf77(&self.decoder)
    }
}

} // verus!
