//! Static per-line schedule table: walking offsets from each line's stop,
//! the derived onward connection times, and the missed-connection rule.

use vstd::prelude::*;
use vstd::string::*;
use crate::text::clock_text;

verus! {

/// Arrival estimates at or above this value mean "no estimate available";
/// such arrivals render blank and get no derived connection times.
pub const NO_ESTIMATE_SENTINEL: u64 = 19999;

/// Connection offsets of one bus line, in seconds. A zero offset means the
/// connection is not tracked for this line.
pub struct LineScheduleInfo {
    pub line_name: String,
    pub seconds_from_stop_to_home: u32,
    pub seconds_to_school: u32,
    pub seconds_to_work: u32,
}

/// Mathematical image of a `LineScheduleInfo`.
pub struct LineScheduleInfoView {
    pub line_name: Seq<char>,
    pub seconds_from_stop_to_home: u32,
    pub seconds_to_school: u32,
    pub seconds_to_work: u32,
}

impl View for LineScheduleInfo {
    type V = LineScheduleInfoView;

    open spec fn view(&self) -> LineScheduleInfoView {
        LineScheduleInfoView {
            line_name: self.line_name@,
            seconds_from_stop_to_home: self.seconds_from_stop_to_home,
            seconds_to_school: self.seconds_to_school,
            seconds_to_work: self.seconds_to_work,
        }
    }
}

impl Clone for LineScheduleInfo {
    fn clone(&self) -> (res: Self)
        ensures
            res == *self,
    {
        LineScheduleInfo {
            line_name: self.line_name.clone(),
            seconds_from_stop_to_home: self.seconds_from_stop_to_home,
            seconds_to_school: self.seconds_to_school,
            seconds_to_work: self.seconds_to_work,
        }
    }
}

/// The record a lookup yields for a line absent from the table:
/// placeholder name, every offset zero, so nothing derived is shown.
pub open spec fn default_info_text() -> LineScheduleInfoView {
    LineScheduleInfoView {
        line_name: "??"@,
        seconds_from_stop_to_home: 0u32,
        seconds_to_school: 0u32,
        seconds_to_work: 0u32,
    }
}

/// First entry whose name is `name`, else the zero-offset default record.
pub open spec fn lookup_text(entries: Seq<LineScheduleInfoView>, name: Seq<char>)
    -> LineScheduleInfoView
    decreases entries.len(),
{
    if entries.len() == 0 {
        default_info_text()
    } else if entries[0].line_name == name {
        entries[0]
    } else {
        lookup_text(entries.drop_first(), name)
    }
}

/// An arrival cannot be caught: the bus leaves the stop before the walk
/// from home reaches it.
pub open spec fn missed_connection(arrival_secs: u64, seconds_from_stop_to_home: u32) -> bool {
    arrival_secs <= seconds_from_stop_to_home
}

/// Static lookup table of per-line connection offsets, supplied as
/// configuration at startup.
pub struct ScheduleTable {
    pub entries: Vec<LineScheduleInfo>,
}

impl View for ScheduleTable {
    type V = Seq<LineScheduleInfoView>;

    open spec fn view(&self) -> Seq<LineScheduleInfoView> {
        self.entries@.map_values(|e: LineScheduleInfo| e@)
    }
}

impl ScheduleTable {
    /// A table holding exactly the given entries, in order.
    pub fn new(entries: Vec<LineScheduleInfo>) -> (t: Self)
        ensures
            t@ == entries@.map_values(|e: LineScheduleInfo| e@),
    {
        ScheduleTable { entries }
    }

    /// The zero-offset default record returned for unknown lines.
    pub fn default_info() -> (r: LineScheduleInfo)
        ensures
            r@ == default_info_text(),
    {
        LineScheduleInfo {
            line_name: String::from_str("??"),
            seconds_from_stop_to_home: 0,
            seconds_to_school: 0,
            seconds_to_work: 0,
        }
    }

    /// Exact-match lookup by line name; an unknown line yields the owned
    /// zero-offset default record. Never fails.
    pub fn lookup(&self, line: &str) -> (r: LineScheduleInfo)
        ensures
            r@ == lookup_text(self@, line@),
    {
        let key = String::from_str(line);
        let mut i: usize = 0;
        proof {
            assert(self@.skip(0) =~= self@);
        }
        while i < self.entries.len()
            invariant
                i <= self.entries.len(),
                key@ == line@,
                lookup_text(self@.skip(i as int), line@) == lookup_text(self@, line@),
            decreases self.entries.len() - i,
        {
            if self.entries[i].line_name == key {
                proof {
                    assert(self@.skip(i as int)[0] == self@[i as int]);
                }
                return self.entries[i].clone();
            }
            proof {
                assert(self@.skip(i as int).drop_first() =~= self@.skip(i + 1));
            }
            i = i + 1;
        }
        proof {
            assert(self@.skip(i as int).len() == 0);
        }
        Self::default_info()
    }
}

/// Whether an arrival is flagged missed (rendered struck through):
/// exactly when there is not enough walking time from home to catch it.
/// The flag affects rendering only, never the sort order or inclusion.
pub fn is_missed(arrival_secs: u64, seconds_from_stop_to_home: u32) -> (r: bool)
    ensures
        r == missed_connection(arrival_secs, seconds_from_stop_to_home),
{
    arrival_secs <= seconds_from_stop_to_home as u64
}

/// The wall-clock time `HH:MM` at which a tracked connection is reached:
/// nothing when the offset is zero (connection not tracked) or the arrival
/// has no estimate; else `now + arrival_secs + offset_seconds` rendered as
/// hours and minutes.
pub fn derive_connection_time(now: u64, arrival_secs: u64, offset_seconds: u32) -> (r: Option<
    String,
>)
    ensures
        match r {
            Some(s) => arrival_secs < NO_ESTIMATE_SENTINEL && offset_seconds != 0 && s@
                == clock_text(now as int + arrival_secs as int + offset_seconds as int),
            None => arrival_secs >= NO_ESTIMATE_SENTINEL || offset_seconds == 0,
        },
{
    if arrival_secs < NO_ESTIMATE_SENTINEL && offset_seconds != 0 {
        let delta = arrival_secs + (offset_seconds as u64);
        Some(crate::text::clock_string(now, delta))
    } else {
        None
    }
}

} // verus!
