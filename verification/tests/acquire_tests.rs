use traccam_common::acquire::{build_snapshot, DecodedFix, LineAssembler};
use traccam_common::simulator::StateSimulator;
use traccam_common::time::{Date, TimeOfDay};
use traccam_common::{DisplayState, DisplayTZ};

fn feed(assembler: &mut LineAssembler, bytes: &[u8]) -> Vec<Vec<u8>> {
    let mut lines = Vec::new();
    for &b in bytes {
        if let Some(line) = assembler.push_byte(b) {
            lines.push(line);
        }
    }
    lines
}

fn empty_decode() -> DecodedFix {
    DecodedFix {
        latitude: None,
        longitude: None,
        date: None,
        time_of_day: None,
        satellite_count: 0,
        hdop: None,
    }
}

#[test]
fn assembles_a_line_and_strips_carriage_return() {
    let mut a = LineAssembler::new();
    let lines = feed(&mut a, b"abc\r\n");
    assert_eq!(lines, vec![b"abc".to_vec()]);
}

#[test]
fn line_feed_alone_yields_empty_line() {
    let mut a = LineAssembler::new();
    let lines = feed(&mut a, b"\n\n");
    assert_eq!(lines, vec![Vec::new(), Vec::new()]);
}

#[test]
fn buffer_clears_between_lines() {
    let mut a = LineAssembler::new();
    let lines = feed(&mut a, b"one\ntwo\n");
    assert_eq!(lines, vec![b"one".to_vec(), b"two".to_vec()]);
}

#[test]
fn overlong_line_is_silently_truncated() {
    let mut a = LineAssembler::new();
    let mut input = vec![b'x'; 200];
    input.push(b'\n');
    let lines = feed(&mut a, &input);
    assert_eq!(lines.len(), 1);
    assert_eq!(lines[0], vec![b'x'; 128]);
    // The loop goes on: the next line assembles normally.
    let more = feed(&mut a, b"ok\n");
    assert_eq!(more, vec![b"ok".to_vec()]);
}

#[test]
fn carriage_return_is_dropped_mid_line() {
    let mut a = LineAssembler::new();
    let lines = feed(&mut a, b"a\rb\n");
    assert_eq!(lines, vec![b"ab".to_vec()]);
}

#[test]
fn both_coordinates_present_are_applied() {
    let mut f = empty_decode();
    f.latitude = Some(5_321_680);
    f.longitude = Some(-630_337);
    let s = build_snapshot(&f, DisplayTZ::Utc);
    assert_eq!(s.lat, 5_321_680);
    assert_eq!(s.lon, -630_337);
}

#[test]
fn partial_fix_is_not_applied() {
    let mut f = empty_decode();
    f.latitude = Some(5_321_680);
    let s = build_snapshot(&f, DisplayTZ::Utc);
    assert_eq!(s.lat, 0);
    assert_eq!(s.lon, 0);
}

#[test]
fn date_and_time_are_recorded_independently() {
    let mut f = empty_decode();
    f.time_of_day = Some(TimeOfDay { hour: 9, minute: 27, second: 50 });
    let s = build_snapshot(&f, DisplayTZ::Utc);
    assert_eq!(s.time, TimeOfDay { hour: 9, minute: 27, second: 50 });
    assert_eq!(s.date, Date { year: 1970, month: 1, day: 1 });

    let mut g = empty_decode();
    g.date = Some(Date { year: 2024, month: 11, day: 19 });
    let t = build_snapshot(&g, DisplayTZ::Utc);
    assert_eq!(t.date, Date { year: 2024, month: 11, day: 19 });
    assert_eq!(t.time, TimeOfDay { hour: 0, minute: 0, second: 0 });
}

#[test]
fn satellite_count_and_hdop_are_taken_from_decode() {
    let mut f = empty_decode();
    f.satellite_count = 8;
    f.hdop = Some(103);
    let s = build_snapshot(&f, DisplayTZ::Utc);
    assert_eq!(s.sats, 8);
    assert_eq!(s.hdop, 103);
}

#[test]
fn decode_without_fields_builds_defaults() {
    let s = build_snapshot(&empty_decode(), DisplayTZ::Utc);
    assert_eq!(s, DisplayState::default());
}

#[test]
fn configured_timezone_is_stamped_on() {
    let tz = DisplayTZ::Local { fixed_offset: 7200 };
    let s = build_snapshot(&empty_decode(), tz);
    assert_eq!(s.display_tz, tz);
}

#[test]
fn simulated_snapshots_stay_in_range() {
    let mut sim = StateSimulator::new();
    for _ in 0..32 {
        let s = sim.gen_next();
        assert_eq!(s.display_tz, DisplayTZ::Utc);
        assert!((0..6_000_000).contains(&s.lat));
        assert!((0..6_000_000).contains(&s.lon));
        assert!(s.sats < 99);
        assert!(s.hdop < 2000);
        assert!((1..=12).contains(&s.date.month));
        assert!((1..=31).contains(&s.date.day));
        assert!(s.time.hour < 24 && s.time.minute < 60 && s.time.second < 60);
    }
}
