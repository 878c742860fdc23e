use busmonitor::display::{
    DisplayActor, DisplayMessage, DrawOp, FontKind, IconKind, Shade, time_string,
};
use busmonitor::emtmadrid::ArrivalTime;
use busmonitor::mailbox::Mailbox;
use busmonitor::schedule::{LineScheduleInfo, ScheduleTable};

fn arrival(stop: &str, line: &str, secs: u64) -> ArrivalTime {
    ArrivalTime {
        stop_id: stop.to_string(),
        line: line.to_string(),
        destination: format!("DEST-{}", line),
        seconds_until_arrival: secs,
    }
}

fn sample_table() -> ScheduleTable {
    ScheduleTable::new(vec![LineScheduleInfo {
        line_name: "31".to_string(),
        seconds_from_stop_to_home: 300,
        seconds_to_school: 480,
        seconds_to_work: 960,
    }])
}

#[test]
fn mailbox_backpressure_at_capacity() {
    let mut mb: Mailbox<u32> = Mailbox::new(5);
    for i in 0..5 {
        assert!(mb.try_send(i).is_ok());
    }
    // the sixth command is refused while five are unconsumed
    assert_eq!(mb.try_send(5), Err(5));
    assert_eq!(mb.len(), 5);
    // once the consumer drains one, the sender gets through
    assert_eq!(mb.try_recv(), Some(0));
    assert!(mb.try_send(5).is_ok());
    assert_eq!(mb.len(), 5);
}

#[test]
fn mailbox_is_fifo() {
    let mut mb: Mailbox<u32> = Mailbox::new(5);
    for i in 10..13 {
        mb.try_send(i).unwrap();
    }
    assert_eq!(mb.try_recv(), Some(10));
    assert_eq!(mb.try_recv(), Some(11));
    assert_eq!(mb.try_recv(), Some(12));
    assert_eq!(mb.try_recv(), None);
}

#[test]
fn closed_mailbox_refuses_sends_but_drains() {
    let mut mb: Mailbox<u32> = Mailbox::new(5);
    mb.try_send(1).unwrap();
    mb.close();
    assert!(mb.closed_for_send());
    assert_eq!(mb.try_send(2), Err(2));
    assert_eq!(mb.try_recv(), Some(1));
    assert_eq!(mb.try_recv(), None);
}

#[test]
fn time_string_cases() {
    assert_eq!(time_string(&arrival("874", "31", 0)), ">>>>>>>");
    assert_eq!(time_string(&arrival("874", "31", 20000)), "      ");
    assert_eq!(time_string(&arrival("874", "31", 185)), " 3m 05s");
    assert_eq!(time_string(&arrival("874", "31", 19999)), "333m 19s");
    assert_eq!(time_string(&arrival("874", "31", 60)), " 1m 00s");
}

#[test]
fn update_command_emits_one_partial_flush() {
    let mut actor = DisplayActor::new(sample_table());
    let ops = actor.handle(DisplayMessage::Update, 0);
    assert_eq!(ops.len(), 1);
    assert!(matches!(ops[0], DrawOp::Flush { full: false }));
}

#[test]
fn clear_command_repaints_chrome_and_resets_cursor() {
    let mut actor = DisplayActor::new(sample_table());
    actor.handle(DisplayMessage::Message("hello".to_string()), 0);
    assert_eq!(actor.cursor_y, 36);
    let ops = actor.handle(DisplayMessage::Clear, 12 * 3600 + 34 * 60);
    assert_eq!(actor.cursor_y, 18);
    assert!(matches!(ops[0], DrawOp::ClearScreen { shade: Shade::White }));
    // header row, two column icons, battery icon, rule, clock
    assert_eq!(ops.len(), 7);
    match &ops[6] {
        DrawOp::Text { text, .. } => assert_eq!(text, "12:34"),
        other => panic!("expected the clock, got {:?}", other),
    }
}

#[test]
fn message_advances_cursor_then_wraps_with_a_clear() {
    let mut actor = DisplayActor::new(sample_table());
    let ops = actor.handle(DisplayMessage::Message("one".to_string()), 0);
    assert_eq!(ops.len(), 1);
    assert_eq!(actor.cursor_y, 36);
    // drive the cursor past the viewport: each message adds one line height
    let mut wrapped = false;
    for n in 0..20 {
        let ops = actor.handle(DisplayMessage::Message(format!("line {}", n)), 0);
        if ops.len() > 1 {
            // the wrap repaints the chrome before the text line
            assert!(matches!(ops[0], DrawOp::ClearScreen { shade: Shade::White }));
            assert_eq!(actor.cursor_y, 36);
            wrapped = true;
            break;
        }
    }
    assert!(wrapped, "cursor never wrapped");
}

#[test]
fn battery_and_wifi_produce_no_visual_change() {
    let mut actor = DisplayActor::new(sample_table());
    assert!(actor.handle(DisplayMessage::Battery(80), 0).is_empty());
    assert!(actor.handle(DisplayMessage::WiFi(2), 0).is_empty());
    assert_eq!(actor.cursor_y, 18);
}

#[test]
fn arrivals_render_rows_and_timeline() {
    let mut actor = DisplayActor::new(sample_table());
    let ops = actor.handle(
        DisplayMessage::Arrivals(vec![arrival("874", "31", 120)]),
        8 * 3600,
    );
    // one table row, then a bus icon with its line label on the timeline
    assert_eq!(ops.len(), 3);
    match &ops[0] {
        DrawOp::Text { x, y, font, text } => {
            assert_eq!((*x, *y), (0, 38));
            // 120 <= 300 s walk from home: the row is struck through
            assert_eq!(*font, FontKind::Strike);
            assert!(text.contains(" 31 "));
            assert!(text.contains("2m 00s"));
            assert!(text.contains("08:10")); // school: 8:00 + 120 s + 480 s
            assert!(text.contains("08:18")); // work: 8:00 + 120 s + 960 s
        }
        other => panic!("expected a table row, got {:?}", other),
    }
    assert!(matches!(ops[1], DrawOp::Icon { icon: IconKind::Bus, .. }));
    match &ops[2] {
        DrawOp::Text { font, text, .. } => {
            assert_eq!(*font, FontKind::Mini);
            assert_eq!(text, "31");
        }
        other => panic!("expected a timeline label, got {:?}", other),
    }
}

#[test]
fn empty_arrival_list_draws_nothing() {
    let mut actor = DisplayActor::new(sample_table());
    let ops = actor.handle(DisplayMessage::Arrivals(Vec::new()), 0);
    assert!(ops.is_empty());
}

#[test]
fn unknown_line_gets_no_derived_times_and_no_strike() {
    let mut actor = DisplayActor::new(sample_table());
    let ops = actor.handle(
        DisplayMessage::Arrivals(vec![arrival("874", "99", 120)]),
        8 * 3600,
    );
    match &ops[0] {
        DrawOp::Text { font, text, .. } => {
            // zero walking offset: 120 > 0, never flagged missed
            assert_eq!(*font, FontKind::Normal);
            // zero connection offsets: both derived cells stay blank
            assert!(!text.contains(':'));
        }
        other => panic!("expected a table row, got {:?}", other),
    }
}

#[test]
fn timeline_places_arrivals_proportionally() {
    let mut actor = DisplayActor::new(sample_table());
    let ops = actor.handle(
        DisplayMessage::Arrivals(vec![
            arrival("874", "31", 0),
            arrival("874", "31", 360),
            arrival("874", "31", 720),
            arrival("874", "31", 721), // outside the window: table only
        ]),
        0,
    );
    let icon_xs: Vec<u32> = ops
        .iter()
        .filter_map(|op| match op {
            DrawOp::Icon { x, icon: IconKind::Bus, .. } => Some(*x),
            _ => None,
        })
        .collect();
    assert_eq!(icon_xs, vec![389, 195, 0]);
}

#[test]
fn overlong_arrival_list_truncates_with_ellipsis() {
    let mut actor = DisplayActor::new(sample_table());
    let many: Vec<ArrivalTime> = (0..15).map(|i| arrival("874", "31", 800 + i)).collect();
    let ops = actor.handle(DisplayMessage::Arrivals(many), 0);
    let row_texts: Vec<&str> = ops
        .iter()
        .filter_map(|op| match op {
            DrawOp::Text { font, text, .. } if *font != FontKind::Mini => Some(text.as_str()),
            _ => None,
        })
        .collect();
    // eleven rows fit above the timeline strip, then one ellipsis row
    assert_eq!(row_texts.len(), 12);
    assert_eq!(*row_texts.last().unwrap(), "...");
    assert!(row_texts.len() < 15 + 1);
}

#[test]
fn startup_sequence_flashes_then_draws_chrome() {
    let ops = DisplayActor::startup_ops(12 * 3600 + 34 * 60);
    assert_eq!(ops.len(), 11);
    assert!(matches!(ops[0], DrawOp::ClearScreen { shade: Shade::Black }));
    assert!(matches!(ops[1], DrawOp::Flush { full: false }));
    assert!(matches!(ops[2], DrawOp::ClearScreen { shade: Shade::White }));
    assert!(matches!(ops[3], DrawOp::Flush { full: false }));
    assert!(matches!(ops[4], DrawOp::ClearScreen { shade: Shade::White }));
    match &ops[10] {
        DrawOp::Text { text, .. } => assert_eq!(text, "12:34"),
        other => panic!("expected the clock, got {:?}", other),
    }
}

#[test]
fn shutdown_runs_one_full_flush_then_one_sleep() {
    let ops = DisplayActor::shutdown_ops();
    assert_eq!(ops.len(), 3);
    assert!(matches!(ops[0], DrawOp::ClearScreen { shade: Shade::White }));
    assert!(matches!(ops[1], DrawOp::Flush { full: true }));
    assert!(matches!(ops[2], DrawOp::Sleep));
    // exactly one flush and one sleep, in that order
    let flushes = ops.iter().filter(|o| matches!(o, DrawOp::Flush { .. })).count();
    let sleeps = ops.iter().filter(|o| matches!(o, DrawOp::Sleep)).count();
    assert_eq!((flushes, sleeps), (1, 1));
}
