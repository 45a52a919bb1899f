use traccam_common::time::{Date, TimeOfDay};
use traccam_common::{DisplayState, DisplayTZ};

#[test]
fn combine_is_independent_of_update_order() {
    let d = Date { year: 2024, month: 6, day: 15 };
    let t = TimeOfDay { hour: 12, minute: 34, second: 56 };

    let mut date_first = DisplayState::default();
    date_first.update_date(d);
    date_first.update_utc_time(t);

    let mut time_first = DisplayState::default();
    time_first.update_utc_time(t);
    time_first.update_date(d);

    assert_eq!(date_first.now(), time_first.now());
    assert_eq!(date_first.now().date, d);
    assert_eq!(date_first.now().time, t);
}

#[test]
fn updates_touch_only_their_own_field() {
    let mut s = DisplayState::default();
    s.sats = 5;
    s.update_date(Date { year: 2024, month: 1, day: 2 });
    assert_eq!(s.time, TimeOfDay { hour: 0, minute: 0, second: 0 });
    assert_eq!(s.sats, 5);
    s.update_utc_time(TimeOfDay { hour: 23, minute: 59, second: 58 });
    assert_eq!(s.date, Date { year: 2024, month: 1, day: 2 });
}

#[test]
fn resolve_in_utc_is_identity() {
    let mut s = DisplayState::default();
    s.update_utc_time(TimeOfDay { hour: 23, minute: 30, second: 0 });
    assert_eq!(s.resolve(), TimeOfDay { hour: 23, minute: 30, second: 0 });
}

#[test]
fn midnight_rollover_forward() {
    // 23:30:00 UTC shown with a +02:00 offset is 01:30:00, not 25:30.
    let mut s = DisplayState::default();
    s.update_utc_time(TimeOfDay { hour: 23, minute: 30, second: 0 });
    s.display_tz = DisplayTZ::Local { fixed_offset: 2 * 3600 };
    assert_eq!(s.resolve(), TimeOfDay { hour: 1, minute: 30, second: 0 });
}

#[test]
fn midnight_rollover_backward() {
    // 00:30:00 UTC shown with a -01:00 offset is 23:30:00, never negative.
    let mut s = DisplayState::default();
    s.update_utc_time(TimeOfDay { hour: 0, minute: 30, second: 0 });
    s.display_tz = DisplayTZ::Local { fixed_offset: -3600 };
    assert_eq!(s.resolve(), TimeOfDay { hour: 23, minute: 30, second: 0 });
}

#[test]
fn resolve_with_sub_minute_offset() {
    let mut s = DisplayState::default();
    s.update_utc_time(TimeOfDay { hour: 10, minute: 59, second: 45 });
    s.display_tz = DisplayTZ::Local { fixed_offset: 30 };
    assert_eq!(s.resolve(), TimeOfDay { hour: 11, minute: 0, second: 15 });
}

#[test]
fn default_state_is_epoch_midnight_utc() {
    let s = DisplayState::default();
    assert_eq!(s.date, Date { year: 1970, month: 1, day: 1 });
    assert_eq!(s.time, TimeOfDay { hour: 0, minute: 0, second: 0 });
    assert_eq!(s.display_tz, DisplayTZ::Utc);
    assert_eq!(s.lat, 0);
    assert_eq!(s.lon, 0);
    assert_eq!(s.sats, 0);
    assert_eq!(s.hdop, 0);
}
