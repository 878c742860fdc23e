//! The display actor and its layout: interprets mailbox commands into a
//! list of drawing operations for the external output device. The actor
//! owns the cursor state and the schedule table; the physical surface
//! (clear, text, icons, lines, flush, sleep) is a capability the caller
//! implements, fed with the `DrawOp` lists this module computes.

use vstd::prelude::*;
use vstd::string::*;
use crate::emtmadrid::ArrivalTime;
use crate::schedule::{
    LineScheduleInfo, LineScheduleInfoView, ScheduleTable, derive_connection_time, lookup_text,
    missed_connection, NO_ESTIMATE_SENTINEL,
};
use crate::text::{
    clock_text, dec_digits, two_digit_text, pad_left_text, pad_right_text, clock_string,
    decimal_string, push_pad_left, push_pad_right, push_two_digits,
};

verus! {

/// Width of the drawing surface in pixels (the panel laid on its side).
pub const VIEW_WIDTH: u32 = 480;

/// Height of the drawing surface in pixels.
pub const VIEW_HEIGHT: u32 = 280;

/// Character cell width of the table font.
pub const FONT_WIDTH: u32 = 9;

/// Character cell height of the table font; one text line.
pub const FONT_HEIGHT: u32 = 18;

/// Width and height of the small icons (bus, school, work, battery).
pub const ICON_WIDTH: u32 = 30;

/// Height of the small icons.
pub const ICON_HEIGHT: u32 = 30;

/// Only arrivals within this window (seconds) appear on the timeline.
pub const TIMELINE_WINDOW_SECS: u64 = 12 * 60;

/// A clear colour of the two-tone panel.
#[derive(Debug, Clone, Copy, PartialEq, Eq, Structural)]
pub enum Shade {
    White,
    Black,
}

/// Which text style a drawn string uses.
#[derive(Debug, Clone, Copy, PartialEq, Eq, Structural)]
pub enum FontKind {
    /// The regular table font.
    Normal,
    /// The table font struck through: a missed connection.
    Strike,
    /// The small font of the timeline labels.
    Mini,
}

/// Which fixed bitmap to draw.
#[derive(Debug, Clone, Copy, PartialEq, Eq, Structural)]
pub enum IconKind {
    Bus,
    School,
    Work,
    Battery,
}

/// One operation for the output surface, in device pixels.
#[derive(Debug)]
pub enum DrawOp {
    ClearScreen { shade: Shade },
    Text { x: u32, y: u32, font: FontKind, text: String },
    Icon { x: u32, y: u32, icon: IconKind },
    Line { x0: u32, y0: u32, x1: u32, y1: u32 },
    /// Push the buffer to the physical panel; `full` asks for the slow
    /// full refresh instead of the quick partial one.
    Flush { full: bool },
    /// Put the panel into its low-power state.
    Sleep,
}

/// Mathematical image of a `DrawOp`.
pub enum DrawOpView {
    ClearScreen { shade: Shade },
    Text { x: int, y: int, font: FontKind, text: Seq<char> },
    Icon { x: int, y: int, icon: IconKind },
    Line { x0: int, y0: int, x1: int, y1: int },
    Flush { full: bool },
    Sleep,
}

impl View for DrawOp {
    type V = DrawOpView;

    open spec fn view(&self) -> DrawOpView {
        match *self {
            DrawOp::ClearScreen { shade } => DrawOpView::ClearScreen { shade },
            DrawOp::Text { x, y, font, ref text } => DrawOpView::Text {
                x: x as int,
                y: y as int,
                font,
                text: text@,
            },
            DrawOp::Icon { x, y, icon } => DrawOpView::Icon { x: x as int, y: y as int, icon },
            DrawOp::Line { x0, y0, x1, y1 } => DrawOpView::Line {
                x0: x0 as int,
                y0: y0 as int,
                x1: x1 as int,
                y1: y1 as int,
            },
            DrawOp::Flush { full } => DrawOpView::Flush { full },
            DrawOp::Sleep => DrawOpView::Sleep,
        }
    }
}

/// The views of a list of drawing operations, in order.
pub open spec fn ops_view(s: Seq<DrawOp>) -> Seq<DrawOpView> {
    s.map_values(|o: DrawOp| o@)
}

/// One command for the display actor's mailbox.
#[derive(Debug)]
pub enum DisplayMessage {
    /// Render the arrival table and the timeline.
    Arrivals(Vec<ArrivalTime>),
    /// Write one line of text at the cursor.
    Message(String),
    /// Battery level report; acknowledged, no visual change.
    Battery(u32),
    /// Signal strength report; acknowledged, no visual change.
    WiFi(u32),
    /// Repaint the static chrome and reset the cursor.
    Clear,
    /// Push the buffer to the physical panel.
    Update,
}

/// The table header row.
pub open spec fn header_text() -> Seq<char> {
    " STOP LINE                 TIME     "@
}

/// The `Mm SSs` rendering of an arrival estimate: arrows for "arriving
/// now", blank when there is no estimate, else minutes and seconds.
pub open spec fn time_text(secs: u64) -> Seq<char> {
    if secs == 0 {
        ">>>>>>>"@
    } else if secs > NO_ESTIMATE_SENTINEL {
        "      "@
    } else {
        pad_left_text(dec_digits(secs as int / 60), 2) + "m "@ + two_digit_text(secs as int % 60)
            + "s"@
    }
}

/// The arrival-estimate cell of one table row.
pub fn time_string(arrival: &ArrivalTime) -> (r: String)
    ensures
        r@ == time_text(arrival.seconds_until_arrival),
{
    let secs = arrival.seconds_until_arrival;
    if secs == 0 {
        String::from_str(">>>>>>>")
    } else if secs > NO_ESTIMATE_SENTINEL {
        String::from_str("      ")
    } else {
        let minutes = decimal_string(secs / 60);
        let mut r = String::new();
        push_pad_left(&mut r, minutes.as_str(), 2);
        proof {
            reveal_strlit("m ");
            reveal_strlit("s");
        }
        r.append("m ");
        push_two_digits(&mut r, secs % 60);
        r.append("s");
        proof {
            assert(Seq::<char>::empty() + pad_left_text(dec_digits(secs as int / 60), 2) + "m "@
                + two_digit_text(secs as int % 60) + "s"@ =~= time_text(secs));
        }
        r
    }
}

/// The arrow string means "arriving now" alone, and the blank string
/// means "no estimate" alone: `time_text` renders the arrows exactly for
/// zero, blank exactly above the sentinel, and minutes and seconds
/// otherwise.
pub proof fn lemma_time_text_cases(secs: u64)
    ensures
        (time_text(secs) == ">>>>>>>"@) <==> (secs == 0),
        (time_text(secs) == "      "@) <==> (secs > NO_ESTIMATE_SENTINEL),
{
    reveal_strlit(">>>>>>>");
    reveal_strlit("      ");
    reveal_strlit("m ");
    reveal_strlit("s");
    assert(">>>>>>>"@.len() == 7);
    assert("      "@.len() == 6);
    if secs != 0 && secs <= NO_ESTIMATE_SENTINEL {
        let body = pad_left_text(dec_digits(secs as int / 60), 2) + "m "@ + two_digit_text(
            secs as int % 60,
        ) + "s"@;
        assert(dec_digits(secs as int / 60).len() >= 1);
        assert(body.len() >= 7);
        assert(body[body.len() - 1] == 's');
        assert(body != ">>>>>>>"@) by {
            if body == ">>>>>>>"@ {
                assert(body[6] == '>');
            }
        }
        assert(body != "      "@);
    }
}

/// The static chrome: white screen, header row with the school and work
/// icons above their columns, a full battery icon in the corner, a rule
/// under the header, and the wall clock top right.
pub open spec fn chrome_ops(now: int) -> Seq<DrawOpView> {
    seq![
        DrawOpView::ClearScreen { shade: Shade::White },
        DrawOpView::Text { x: 0, y: FONT_HEIGHT as int, font: FontKind::Normal, text: header_text() },
        DrawOpView::Icon { x: header_text().len() * FONT_WIDTH, y: 0, icon: IconKind::School },
        DrawOpView::Icon {
            x: (header_text().len() + 7) * FONT_WIDTH,
            y: 0,
            icon: IconKind::Work,
        },
        DrawOpView::Icon {
            x: VIEW_WIDTH - 1 - ICON_WIDTH,
            y: VIEW_HEIGHT - 1 - ICON_HEIGHT,
            icon: IconKind::Battery,
        },
        DrawOpView::Line {
            x0: 0,
            y0: FONT_HEIGHT + 2,
            x1: VIEW_WIDTH - 1,
            y1: FONT_HEIGHT + 2,
        },
        DrawOpView::Text {
            x: VIEW_WIDTH - 1 - FONT_WIDTH * 5 - 3,
            y: FONT_HEIGHT - 4,
            font: FontKind::Normal,
            text: clock_text(now),
        },
    ]
}

/// Draws the static chrome for the wall-clock time `now` (seconds).
fn paint_chrome(now: u64, out: &mut Vec<DrawOp>)
    ensures
        ops_view(final(out)@) == ops_view(old(out)@) + chrome_ops(now as int),
{
    proof {
        reveal_strlit(" STOP LINE                 TIME     ");
    }
    let header = " STOP LINE                 TIME     ";
    let header_len: u32 = 36;
    proof {
        assert(header@.len() == 36);
    }
    out.push(DrawOp::ClearScreen { shade: Shade::White });
    out.push(
        DrawOp::Text {
            x: 0,
            y: FONT_HEIGHT,
            font: FontKind::Normal,
            text: String::from_str(header),
        },
    );
    out.push(DrawOp::Icon { x: header_len * FONT_WIDTH, y: 0, icon: IconKind::School });
    out.push(DrawOp::Icon { x: (header_len + 7) * FONT_WIDTH, y: 0, icon: IconKind::Work });
    out.push(
        DrawOp::Icon {
            x: VIEW_WIDTH - 1 - ICON_WIDTH,
            y: VIEW_HEIGHT - 1 - ICON_HEIGHT,
            icon: IconKind::Battery,
        },
    );
    out.push(
        DrawOp::Line { x0: 0, y0: FONT_HEIGHT + 2, x1: VIEW_WIDTH - 1, y1: FONT_HEIGHT + 2 },
    );
    let clock = clock_string(now, 0);
    out.push(
        DrawOp::Text {
            x: VIEW_WIDTH - 1 - FONT_WIDTH * 5 - 3,
            y: FONT_HEIGHT - 4,
            font: FontKind::Normal,
            text: clock,
        },
    );
    proof {
        assert(ops_view(out@) =~= ops_view(old(out)@) + chrome_ops(now as int));
    }
}

/// The connection cell for one offset: the wall clock at which the
/// connection is reached, or nothing when the offset is zero or the
/// arrival has no estimate.
pub open spec fn connection_text(secs: u64, offset: u32, now: int) -> Seq<char> {
    if secs < NO_ESTIMATE_SENTINEL && offset != 0 {
        clock_text(now + secs + offset)
    } else {
        Seq::empty()
    }
}

/// One table row: stop, line, destination, the arrival estimate, and the
/// derived school and work connection times.
pub open spec fn row_text(a: ArrivalTime, info: LineScheduleInfoView, now: int) -> Seq<char> {
    pad_left_text(a.stop_id@, 4) + " "@ + pad_left_text(a.line@, 3) + " "@ + pad_right_text(
        a.destination@,
        15,
    ) + " "@ + pad_right_text(time_text(a.seconds_until_arrival), 5) + "   "@ + pad_right_text(
        connection_text(a.seconds_until_arrival, info.seconds_to_school, now),
        5,
    ) + "   "@ + pad_right_text(
        connection_text(a.seconds_until_arrival, info.seconds_to_work, now),
        5,
    )
}

/// Builds one table row for `a` with its line's schedule info.
fn row_string(a: &ArrivalTime, info: &LineScheduleInfo, now: u64) -> (r: String)
    ensures
        r@ == row_text(*a, info@, now as int),
{
    proof {
        reveal_strlit(" ");
        reveal_strlit("   ");
    }
    let mut r = String::new();
    push_pad_left(&mut r, a.stop_id.as_str(), 4);
    r.append(" ");
    push_pad_left(&mut r, a.line.as_str(), 3);
    r.append(" ");
    push_pad_right(&mut r, a.destination.as_str(), 15);
    r.append(" ");
    let t = time_string(a);
    push_pad_right(&mut r, t.as_str(), 5);
    r.append("   ");
    let school = match derive_connection_time(now, a.seconds_until_arrival, info.seconds_to_school)
        {
        Some(s) => s,
        None => String::new(),
    };
    push_pad_right(&mut r, school.as_str(), 5);
    r.append("   ");
    let work = match derive_connection_time(now, a.seconds_until_arrival, info.seconds_to_work) {
        Some(s) => s,
        None => String::new(),
    };
    push_pad_right(&mut r, work.as_str(), 5);
    proof {
        assert(school@ == connection_text(a.seconds_until_arrival, info.seconds_to_school,
            now as int));
        assert(work@ == connection_text(a.seconds_until_arrival, info.seconds_to_work,
            now as int));
        assert(r@ =~= row_text(*a, info@, now as int));
    }
    r
}

/// The arrival table, one row per arrival from the top, struck through
/// where the connection is missed; when the next row would collide with
/// the timeline strip an ellipsis row is drawn instead and the remaining
/// arrivals are dropped (truncation, not an error).
pub open spec fn arrival_rows_ops(
    arrivals: Seq<ArrivalTime>,
    table: Seq<LineScheduleInfoView>,
    now: int,
    y: int,
) -> Seq<DrawOpView>
    decreases arrivals.len(),
{
    if arrivals.len() == 0 {
        Seq::empty()
    } else {
        let a = arrivals[0];
        let info = lookup_text(table, a.line@);
        let font = if missed_connection(a.seconds_until_arrival, info.seconds_from_stop_to_home) {
            FontKind::Strike
        } else {
            FontKind::Normal
        };
        let row = DrawOpView::Text { x: 0, y, font, text: row_text(a, info, now) };
        let y2 = y + FONT_HEIGHT;
        if y2 >= VIEW_HEIGHT - 2 * ICON_HEIGHT {
            seq![
                row,
                DrawOpView::Text { x: 0, y: y2 - 5, font: FontKind::Normal, text: "..."@ },
            ]
        } else {
            seq![row] + arrival_rows_ops(arrivals.drop_first(), table, now, y2)
        }
    }
}

/// Draws the arrival table rows for `arrivals[i..]` starting at height `y`.
fn paint_rows(
    arrivals: &Vec<ArrivalTime>,
    i: usize,
    table: &ScheduleTable,
    now: u64,
    y: u32,
    out: &mut Vec<DrawOp>,
)
    requires
        i <= arrivals@.len(),
        FONT_HEIGHT <= y <= VIEW_HEIGHT,
    ensures
        ops_view(final(out)@) == ops_view(old(out)@) + arrival_rows_ops(
            arrivals@.skip(i as int),
            table@,
            now as int,
            y as int,
        ),
    decreases arrivals@.len() - i,
{
    if i == arrivals.len() {
        proof {
            assert(arrivals@.skip(i as int).len() == 0);
            assert(ops_view(out@) =~= ops_view(old(out)@) + arrival_rows_ops(
                arrivals@.skip(i as int), table@, now as int, y as int));
        }
        return ;
    }
    proof {
        assert(arrivals@.skip(i as int)[0] == arrivals@[i as int]);
    }
    let a = &arrivals[i];
    let info = table.lookup(a.line.as_str());
    let missed = a.seconds_until_arrival <= info.seconds_from_stop_to_home as u64;
    let font = if missed {
        FontKind::Strike
    } else {
        FontKind::Normal
    };
    let text = row_string(a, &info, now);
    out.push(DrawOp::Text { x: 0, y, font, text });
    let y2 = y + FONT_HEIGHT;
    if y2 >= VIEW_HEIGHT - 2 * ICON_HEIGHT {
        proof {
            reveal_strlit("...");
        }
        out.push(
            DrawOp::Text {
                x: 0,
                y: y2 - 5,
                font: FontKind::Normal,
                text: String::from_str("..."),
            },
        );
        proof {
            assert(ops_view(out@) =~= ops_view(old(out)@) + arrival_rows_ops(
                arrivals@.skip(i as int), table@, now as int, y as int));
        }
    } else {
        proof {
            assert(ops_view(out@) =~= ops_view(old(out)@) + seq![
                arrival_rows_ops(arrivals@.skip(i as int), table@, now as int, y as int)[0],
            ]);
        }
        paint_rows(arrivals, i + 1, table, now, y2, out);
        proof {
            assert(arrivals@.skip(i as int).drop_first() =~= arrivals@.skip(i + 1));
            assert(ops_view(out@) =~= ops_view(old(out)@) + arrival_rows_ops(
                arrivals@.skip(i as int), table@, now as int, y as int));
        }
    }
}

/// The proportional timeline: each arrival within the visibility window
/// is placed on the bottom strip at a horizontal position proportional to
/// its time until arrival (now at the right edge, the window's start at
/// the left), with a bus icon and the line label; arrivals outside the
/// window are omitted from the timeline only.
pub open spec fn timeline_ops(arrivals: Seq<ArrivalTime>) -> Seq<DrawOpView>
    decreases arrivals.len(),
{
    if arrivals.len() == 0 {
        Seq::empty()
    } else {
        let a = arrivals[0];
        let rest = timeline_ops(arrivals.drop_first());
        if a.seconds_until_arrival > TIMELINE_WINDOW_SECS {
            rest
        } else {
            let tw = VIEW_WIDTH - 1 - 3 * ICON_WIDTH;
            let x = tw - a.seconds_until_arrival * tw / (TIMELINE_WINDOW_SECS as int);
            seq![
                DrawOpView::Icon { x, y: VIEW_HEIGHT - 1 - ICON_HEIGHT, icon: IconKind::Bus },
                DrawOpView::Text {
                    x: x + 7,
                    y: VIEW_HEIGHT - 1 - ICON_HEIGHT,
                    font: FontKind::Mini,
                    text: a.line@,
                },
            ] + rest
        }
    }
}

/// Draws the timeline icons and labels for `arrivals[i..]`.
fn paint_timeline(arrivals: &Vec<ArrivalTime>, i: usize, out: &mut Vec<DrawOp>)
    requires
        i <= arrivals@.len(),
    ensures
        ops_view(final(out)@) == ops_view(old(out)@) + timeline_ops(arrivals@.skip(i as int)),
    decreases arrivals@.len() - i,
{
    if i == arrivals.len() {
        proof {
            assert(arrivals@.skip(i as int).len() == 0);
            assert(ops_view(out@) =~= ops_view(old(out)@) + timeline_ops(
                arrivals@.skip(i as int)));
        }
        return ;
    }
    proof {
        assert(arrivals@.skip(i as int)[0] == arrivals@[i as int]);
        assert(arrivals@.skip(i as int).drop_first() =~= arrivals@.skip(i + 1));
    }
    let secs = arrivals[i].seconds_until_arrival;
    if secs > TIMELINE_WINDOW_SECS {
        paint_timeline(arrivals, i + 1, out);
        return ;
    }
    let tw: u64 = (VIEW_WIDTH - 1 - 3 * ICON_WIDTH) as u64;
    proof {
        assert(tw == 389);
        assert(secs * tw <= 720 * 389) by (nonlinear_arith)
            requires
                secs <= 720,
                tw == 389,
        ;
        assert(secs * tw / (TIMELINE_WINDOW_SECS as int) <= tw);
    }
    let x = (tw - secs * tw / TIMELINE_WINDOW_SECS) as u32;
    let label = arrivals[i].line.clone();
    out.push(DrawOp::Icon { x, y: VIEW_HEIGHT - 1 - ICON_HEIGHT, icon: IconKind::Bus });
    out.push(
        DrawOp::Text {
            x: x + 7,
            y: VIEW_HEIGHT - 1 - ICON_HEIGHT,
            font: FontKind::Mini,
            text: label,
        },
    );
    proof {
        assert(ops_view(out@) =~= ops_view(old(out)@) + seq![
            timeline_ops(arrivals@.skip(i as int))[0],
            timeline_ops(arrivals@.skip(i as int))[1],
        ]);
    }
    paint_timeline(arrivals, i + 1, out);
    proof {
        assert(ops_view(out@) =~= ops_view(old(out)@) + timeline_ops(arrivals@.skip(i as int)));
    }
}

/// The operations the actor issues once at start: a black flash, a
/// white wipe — each pushed to the panel — then the static chrome.
pub open spec fn startup_ops_text(now: int) -> Seq<DrawOpView> {
    seq![
        DrawOpView::ClearScreen { shade: Shade::Black },
        DrawOpView::Flush { full: false },
        DrawOpView::ClearScreen { shade: Shade::White },
        DrawOpView::Flush { full: false },
    ] + chrome_ops(now)
}

/// The single flush issued for an `Update` command.
pub open spec fn update_ops_text() -> Seq<DrawOpView> {
    seq![(DrawOpView::Flush { full: false })]
}

/// One line of message text at height `y`.
pub open spec fn message_line_text(y: int, text: Seq<char>) -> Seq<DrawOpView> {
    seq![(DrawOpView::Text { x: 0, y, font: FontKind::Normal, text })]
}

/// The ordered shutdown sequence: wipe to white, one full-refresh flush,
/// then the low-power sleep — exactly one flush and one sleep, in that
/// order, and nothing after the sleep.
pub open spec fn shutdown_ops_text() -> Seq<DrawOpView> {
    seq![
        DrawOpView::ClearScreen { shade: Shade::White },
        DrawOpView::Flush { full: true },
        DrawOpView::Sleep,
    ]
}

/// The display actor's rendering state: the message cursor and the
/// schedule table driving the derived columns. The actor is the sole
/// owner of the output surface; everything it draws goes through the
/// `DrawOp` lists these methods return.
pub struct DisplayActor {
    /// Height at which the next `Message` line is drawn.
    pub cursor_y: u32,
    /// Per-line connection offsets for the arrival table.
    pub table: ScheduleTable,
}

impl DisplayActor {
    /// The cursor stays within one line height below the viewport.
    pub open spec fn wf(&self) -> bool {
        FONT_HEIGHT <= self.cursor_y <= VIEW_HEIGHT + FONT_HEIGHT
    }

    /// A fresh actor with the cursor on the top text line.
    pub fn new(table: ScheduleTable) -> (a: Self)
        ensures
            a.cursor_y == FONT_HEIGHT,
            a.table == table,
            a.wf(),
    {
        DisplayActor { cursor_y: FONT_HEIGHT, table }
    }

    /// The one-time start sequence for the freshly initialised panel,
    /// ending with the static chrome at the wall-clock time `now`.
    pub fn startup_ops(now: u64) -> (ops: Vec<DrawOp>)
        ensures
            ops_view(ops@) == startup_ops_text(now as int),
    {
        let mut ops: Vec<DrawOp> = Vec::new();
        ops.push(DrawOp::ClearScreen { shade: Shade::Black });
        ops.push(DrawOp::Flush { full: false });
        ops.push(DrawOp::ClearScreen { shade: Shade::White });
        ops.push(DrawOp::Flush { full: false });
        paint_chrome(now, &mut ops);
        proof {
            assert(ops_view(ops@) =~= startup_ops_text(now as int));
        }
        ops
    }

    /// Interprets one mailbox command into the operations to draw, at the
    /// wall-clock time `now` (seconds): `Clear` repaints the chrome and
    /// resets the cursor; `Update` flushes; `Message` writes a line and
    /// advances the cursor, wrapping by a clear once the cursor has left
    /// the viewport (older lines are discarded); `Arrivals` lays out the
    /// table and the timeline; `Battery` and `WiFi` are acknowledged
    /// without visual change.
    pub fn handle(&mut self, msg: DisplayMessage, now: u64) -> (ops: Vec<DrawOp>)
        requires
            old(self).wf(),
        ensures
            final(self).wf(),
            final(self).table == old(self).table,
            match msg {
                DisplayMessage::Clear => ops_view(ops@) == chrome_ops(now as int)
                    && final(self).cursor_y == FONT_HEIGHT,
                DisplayMessage::Update => ops_view(ops@) == update_ops_text()
                    && final(self).cursor_y == old(self).cursor_y,
                DisplayMessage::Message(text) => if old(self).cursor_y > VIEW_HEIGHT {
                    &&& ops_view(ops@) == chrome_ops(now as int) + message_line_text(
                        FONT_HEIGHT as int,
                        text@,
                    )
                    &&& final(self).cursor_y == 2 * FONT_HEIGHT
                } else {
                    &&& ops_view(ops@) == message_line_text(old(self).cursor_y as int, text@)
                    &&& final(self).cursor_y == old(self).cursor_y + FONT_HEIGHT
                },
                DisplayMessage::Arrivals(list) => ops_view(ops@) == arrival_rows_ops(
                    list@,
                    old(self).table@,
                    now as int,
                    2 * FONT_HEIGHT + 2,
                ) + timeline_ops(list@) && final(self).cursor_y == old(self).cursor_y,
                DisplayMessage::Battery(_) => ops_view(ops@) == Seq::<DrawOpView>::empty()
                    && final(self).cursor_y == old(self).cursor_y,
                DisplayMessage::WiFi(_) => ops_view(ops@) == Seq::<DrawOpView>::empty()
                    && final(self).cursor_y == old(self).cursor_y,
            },
    {
        match msg {
            DisplayMessage::Clear => {
                let mut ops: Vec<DrawOp> = Vec::new();
                paint_chrome(now, &mut ops);
                self.cursor_y = FONT_HEIGHT;
                proof {
                    assert(ops_view(Seq::<DrawOp>::empty()) =~= Seq::<DrawOpView>::empty());
                    assert(ops_view(ops@) =~= chrome_ops(now as int));
                }
                ops
            },
            DisplayMessage::Update => {
                let mut ops: Vec<DrawOp> = Vec::new();
                ops.push(DrawOp::Flush { full: false });
                proof {
                    assert(ops_view(ops@) =~= update_ops_text());
                }
                ops
            },
            DisplayMessage::Message(text) => {
                let ghost tview = text@;
                let mut ops: Vec<DrawOp> = Vec::new();
                if self.cursor_y > VIEW_HEIGHT {
                    paint_chrome(now, &mut ops);
                    ops.push(
                        DrawOp::Text {
                            x: 0,
                            y: FONT_HEIGHT,
                            font: FontKind::Normal,
                            text,
                        },
                    );
                    self.cursor_y = 2 * FONT_HEIGHT;
                    proof {
                        assert(ops_view(Seq::<DrawOp>::empty()) =~= Seq::<DrawOpView>::empty());
                        assert(ops_view(ops@) =~= chrome_ops(now as int) + message_line_text(
                            FONT_HEIGHT as int, tview));
                    }
                } else {
                    ops.push(
                        DrawOp::Text {
                            x: 0,
                            y: self.cursor_y,
                            font: FontKind::Normal,
                            text,
                        },
                    );
                    self.cursor_y = self.cursor_y + FONT_HEIGHT;
                    proof {
                        assert(ops_view(ops@) =~= message_line_text(old(self).cursor_y as int,
                            tview));
                    }
                }
                ops
            },
            DisplayMessage::Arrivals(list) => {
                let mut ops: Vec<DrawOp> = Vec::new();
                paint_rows(&list, 0, &self.table, now, 2 * FONT_HEIGHT + 2, &mut ops);
                proof {
                    assert(list@.skip(0) =~= list@);
                    assert(ops_view(Seq::<DrawOp>::empty()) =~= Seq::<DrawOpView>::empty());
                }
                paint_timeline(&list, 0, &mut ops);
                proof {
                    assert(ops_view(ops@) =~= arrival_rows_ops(list@, self.table@, now as int,
                        2 * FONT_HEIGHT + 2) + timeline_ops(list@));
                }
                ops
            },
            DisplayMessage::Battery(_) => {
                let ops: Vec<DrawOp> = Vec::new();
                proof {
                    assert(ops_view(ops@) =~= Seq::<DrawOpView>::empty());
                }
                ops
            },
            DisplayMessage::WiFi(_) => {
                let ops: Vec<DrawOp> = Vec::new();
                proof {
                    assert(ops_view(ops@) =~= Seq::<DrawOpView>::empty());
                }
                ops
            },
        }
    }

    /// The ordered shutdown sequence the consumer runs when the mailbox
    /// closes, before its thread exits: one white wipe, exactly one
    /// full-refresh flush, then exactly one sleep, in that order.
    pub fn shutdown_ops() -> (ops: Vec<DrawOp>)
        ensures
            ops_view(ops@) == shutdown_ops_text(),
    {
        let mut ops: Vec<DrawOp> = Vec::new();
        ops.push(DrawOp::ClearScreen { shade: Shade::White });
        ops.push(DrawOp::Flush { full: true });
        ops.push(DrawOp::Sleep);
        proof {
            assert(ops_view(ops@) =~= shutdown_ops_text());
        }
        ops
    }
}

} // verus!
