use wordclock::time::Time;

/// Builds a raw frame word with the given bit positions set.
fn frame(bits: &[u64]) -> u64 {
    let mut raw = 0u64;
    for b in bits {
        raw |= 1u64 << b;
    }
    raw
}

// Bit layout of a frame: 21..=27 minutes (1,2,4,8,10,20,40) with parity
// in 28; 29..=34 hours (1,2,4,8,10,20) with parity in 35; 36..=41 day;
// 45..=49 month; 50..=57 year minus 2000; bit 0 must be clear.

#[test]
fn decode_valid_frame() {
    // 14:25 on 2021-06-07.
    let raw = frame(&[
        21, 23, 26, 28, // minutes 25 (1+4+20), odd bit count, parity set
        31, 33, // hours 14 (4+10), even bit count, parity clear
        36, 37, 38, // day 7
        46, 47, // month 6
        50, 55, // year 2021
    ]);
    let t = Time::decode_frame(raw).unwrap();
    assert_eq!(t, Time { sec: 0, min: 25, hour: 14, day: 7, month: 6, year: 2021 });
}

#[test]
fn decode_rejects_start_marker() {
    // A valid first-of-January frame, then the same with bit 0 raised.
    let good = frame(&[36, 45]);
    assert!(Time::decode_frame(good).is_ok());
    let raw = frame(&[0, 36, 45]);
    assert!(Time::decode_frame(raw).is_err());
}

#[test]
fn decode_rejects_bad_minute_parity() {
    // Minute 1 with its parity bit missing (day and month valid).
    let raw = frame(&[21, 36, 45]);
    assert!(Time::decode_frame(raw).is_err());
    // The same frame with the parity bit present decodes.
    let ok = frame(&[21, 28, 36, 45]);
    assert_eq!(Time::decode_frame(ok).unwrap().minutes(), 1);
}

#[test]
fn decode_rejects_minute_out_of_range() {
    // Minutes 70 (10+20+40): parity of three bits is odd, so set bit 28
    // to make the parity itself pass and fail only the range check.
    let raw = frame(&[25, 26, 27, 28, 36, 45]);
    assert!(Time::decode_frame(raw).is_err());
}

#[test]
fn decode_rejects_bad_hour_parity() {
    let raw = frame(&[29, 36, 45]);
    assert!(Time::decode_frame(raw).is_err());
    let ok = frame(&[29, 35, 36, 45]);
    assert_eq!(Time::decode_frame(ok).unwrap().hour(), 1);
}

#[test]
fn decode_rejects_hour_out_of_range() {
    // Hours 24 (4+20): two bits set, parity even, range fails.
    let raw = frame(&[31, 34, 36, 45]);
    assert!(Time::decode_frame(raw).is_err());
}

#[test]
fn decode_rejects_day_out_of_range() {
    // Day 0 is not a calendar day.
    let raw = frame(&[45]);
    assert!(Time::decode_frame(raw).is_err());
    // Day 32 (2+10+20) fails the receiver crate's upper bound.
    let raw32 = frame(&[37, 40, 41, 45]);
    assert!(Time::decode_frame(raw32).is_err());
}

#[test]
fn decode_rejects_month_out_of_range() {
    // Month 0 is not a calendar month.
    let raw = frame(&[36]);
    assert!(Time::decode_frame(raw).is_err());
    // Month 15 (1+4+10) is past December.
    let raw15 = frame(&[36, 45, 47, 49]);
    assert!(Time::decode_frame(raw15).is_err());
    // Month 12 (2+10) passes.
    let ok = frame(&[36, 46, 49]);
    assert_eq!(Time::decode_frame(ok).unwrap().month(), 12);
}

#[test]
fn fresh_receiver_frame_is_rejected() {
    // An all-zero frame has day and month zero: no time value.
    let decoder = dcf77::SimpleDCF77Decoder::new();
    assert!(Time::try_from_dcf77(&decoder).is_err());
}

#[test]
fn year_is_carried_unvalidated() {
    // The year has no specified range; the largest encodable value is
    // carried through as long as the checked fields pass.
    let raw = frame(&[36, 45, 50, 51, 52, 53, 54, 55, 56, 57]);
    let t = Time::decode_frame(raw).unwrap();
    assert_eq!(t.year(), 2165);
    assert_eq!(t.month(), 1);
    assert_eq!(t.day(), 1);
}
