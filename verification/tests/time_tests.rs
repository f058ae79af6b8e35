use wordclock::time::Time;

#[test]
fn increment_within_hour() {
    let t = Time { sec: 12, min: 30, hour: 9, day: 4, month: 7, year: 2021 };
    let t2 = t.inc_minutes();
    assert_eq!(t2.minutes(), 31);
    assert_eq!(t2.hour(), 9);
    assert_eq!(t2.seconds(), 12);
    assert_eq!(t2.day(), 4);
    assert_eq!(t2.month(), 7);
    assert_eq!(t2.year(), 2021);
}

#[test]
fn increment_rolls_minute_into_hour() {
    let t = Time { sec: 0, min: 59, hour: 12, day: 1, month: 1, year: 2020 };
    let t2 = t.inc_minutes();
    assert_eq!(t2.minutes(), 0);
    assert_eq!(t2.hour(), 13);
}

#[test]
fn increment_rolls_over_midnight() {
    let t = Time { sec: 30, min: 59, hour: 23, day: 31, month: 12, year: 2020 };
    let t2 = t.inc_minutes();
    assert_eq!(t2.minutes(), 0);
    assert_eq!(t2.hour(), 0);
    assert_eq!(t2.day(), 31);
    assert_eq!(t2.month(), 12);
    assert_eq!(t2.year(), 2020);
}

#[test]
fn increment_hours_wraps() {
    let t = Time { sec: 0, min: 10, hour: 23, day: 2, month: 3, year: 2019 };
    let t2 = t.inc_hours();
    assert_eq!(t2.hour(), 0);
    assert_eq!(t2.minutes(), 10);
    let t3 = t2.inc_hours();
    assert_eq!(t3.hour(), 1);
}

#[test]
fn sixty_minute_steps_equal_one_hour_step() {
    let start = Time { sec: 7, min: 42, hour: 16, day: 9, month: 11, year: 2022 };
    let mut stepped = start;
    for _ in 0..60 {
        stepped = stepped.inc_minutes();
    }
    assert_eq!(stepped, start.inc_hours());
}

#[test]
fn sixty_minute_steps_restore_minute_field() {
    for hour in 0..24u8 {
        for min in [0u8, 1, 29, 30, 59] {
            let start = Time { sec: 3, min, hour, day: 1, month: 1, year: 2000 };
            let mut stepped = start;
            for _ in 0..60 {
                stepped = stepped.inc_minutes();
            }
            assert_eq!(stepped.minutes(), min);
            assert_eq!(stepped.hour(), (hour + 1) % 24);
            assert_eq!(stepped.seconds(), 3);
        }
    }
}

#[test]
fn default_time_is_all_zero() {
    let t = Time::default();
    assert_eq!(t, Time { sec: 0, min: 0, hour: 0, day: 0, month: 0, year: 0 });
}

#[test]
fn rtc_fields_accepted_in_range() {
    let t = Time::from_rtc_fields(2021, 6, 7, 14, 25, 59).unwrap();
    assert_eq!(t, Time { sec: 59, min: 25, hour: 14, day: 7, month: 6, year: 2021 });
}

#[test]
fn rtc_fields_rejected_out_of_range() {
    assert!(Time::from_rtc_fields(2021, 6, 7, 24, 0, 0).is_err());
    assert!(Time::from_rtc_fields(2021, 6, 7, 0, 60, 0).is_err());
    assert!(Time::from_rtc_fields(2021, 6, 7, 0, 0, 60).is_err());
}

#[test]
fn equality_is_field_wise() {
    let a = Time { sec: 1, min: 2, hour: 3, day: 4, month: 5, year: 6 };
    let b = Time { sec: 1, min: 2, hour: 3, day: 4, month: 5, year: 6 };
    let c = Time { sec: 1, min: 2, hour: 3, day: 4, month: 5, year: 7 };
    assert_eq!(a, b);
    assert_ne!(a, c);
}
