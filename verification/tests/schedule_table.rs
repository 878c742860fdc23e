use busmonitor::schedule::{
    derive_connection_time, is_missed, LineScheduleInfo, ScheduleTable, NO_ESTIMATE_SENTINEL,
};
use busmonitor::text::clock_string;

fn info(line: &str, home: u32, school: u32, work: u32) -> LineScheduleInfo {
    LineScheduleInfo {
        line_name: line.to_string(),
        seconds_from_stop_to_home: home,
        seconds_to_school: school,
        seconds_to_work: work,
    }
}

fn sample_table() -> ScheduleTable {
    ScheduleTable::new(vec![
        info("31", 300, 480, 960),
        info("33", 300, 660, 0),
        info("138", 180, 720, 1140),
    ])
}

#[test]
fn lookup_finds_exact_match() {
    let t = sample_table();
    let r = t.lookup("138");
    assert_eq!(r.line_name, "138");
    assert_eq!(r.seconds_from_stop_to_home, 180);
    assert_eq!(r.seconds_to_school, 720);
    assert_eq!(r.seconds_to_work, 1140);
}

#[test]
fn lookup_unknown_line_yields_default_record() {
    let t = sample_table();
    let r = t.lookup("unknown-line");
    assert_eq!(r.line_name, "??");
    assert_eq!(r.seconds_from_stop_to_home, 0);
    assert_eq!(r.seconds_to_school, 0);
    assert_eq!(r.seconds_to_work, 0);
}

#[test]
fn lookup_on_empty_table_never_fails() {
    let t = ScheduleTable::new(Vec::new());
    let r = t.lookup("31");
    assert_eq!(r.line_name, "??");
    assert_eq!(r.seconds_from_stop_to_home, 0);
}

#[test]
fn first_matching_entry_wins() {
    let t = ScheduleTable::new(vec![info("31", 100, 0, 0), info("31", 999, 0, 0)]);
    assert_eq!(t.lookup("31").seconds_from_stop_to_home, 100);
}

#[test]
fn missed_connection_flag() {
    assert!(is_missed(200, 300));
    assert!(!is_missed(400, 300));
    assert!(is_missed(300, 300));
}

#[test]
fn zero_offset_has_no_derived_time() {
    assert!(derive_connection_time(1000, 60, 0).is_none());
}

#[test]
fn sentinel_arrival_has_no_derived_time() {
    assert!(derive_connection_time(1000, NO_ESTIMATE_SENTINEL, 240).is_none());
    assert!(derive_connection_time(1000, 20000, 240).is_none());
}

#[test]
fn derived_time_is_now_plus_arrival_plus_offset() {
    // midnight + 60 s arrival + 240 s offset = 00:05
    assert_eq!(derive_connection_time(0, 60, 240).unwrap(), "00:05");
    // 08:00:00 + 120 s + 480 s = 08:10
    assert_eq!(derive_connection_time(8 * 3600, 120, 480).unwrap(), "08:10");
}

#[test]
fn clock_wraps_at_midnight() {
    assert_eq!(clock_string(0, 0), "00:00");
    assert_eq!(clock_string(23 * 3600 + 59 * 60, 0), "23:59");
    assert_eq!(clock_string(23 * 3600 + 59 * 60, 120), "00:01");
}
