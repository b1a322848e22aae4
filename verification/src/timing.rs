//! Timing points.

use vstd::prelude::*;
use crate::text::{dec_int, push_int, push_str, string_of};

verus! {

/// A timing point: where a timing section starts, and whether it sets its
/// own tempo (uninherited) or only scales the slider velocity (inherited).
#[derive(Clone, Copy, Debug, PartialEq, Eq, Structural)]
pub struct TimingPoint {
    /// Start of the section, in milliseconds.
    pub time: i32,
    /// Whether the point sets its own beat length.
    pub uninherited: bool,
}

impl TimingPoint {
    /// The start of the section in milliseconds.
    pub fn time(&self) -> (r: i32)
        ensures
            r == self.time,
    {
        self.time
    }

    /// Whether the point is uninherited.
    pub fn is_uninherited(&self) -> (r: bool)
        ensures
            r == self.uninherited,
    {
        self.uninherited
    }

    /// The text of `repr`, where `bpm` is the tempo of an uninherited point
    /// as shown with two decimals.
    pub open spec fn repr_text(&self, bpm: Seq<char>) -> Seq<char> {
        if self.uninherited {
            "TimingPoint(t="@ + dec_int(self.time as int) + "ms, bpm="@ + bpm + ")"@
        } else {
            "TimingPoint(t="@ + dec_int(self.time as int) + "ms, inherited)"@
        }
    }

    /// `TimingPoint(t=410ms, bpm=175.00)` for an uninherited point,
    /// `TimingPoint(t=410ms, inherited)` for an inherited one; `bpm` is the
    /// tempo already written with two decimals, and is not read for an
    /// inherited point.
    pub fn repr(&self, bpm: &str) -> (r: String)
        ensures
            r@ == self.repr_text(bpm@),
    {
        let mut s = string_of("TimingPoint(t=");
        push_int(&mut s, self.time as i64);
        if self.uninherited {
            push_str(&mut s, "ms, bpm=");
            push_str(&mut s, bpm);
            push_str(&mut s, ")");
        } else {
            push_str(&mut s, "ms, inherited)");
        }
        assert(s@ =~= self.repr_text(bpm@));
        s
    }
}

/// The text of a timing point gives its time, then the given tempo when it
/// is uninherited, or the word `inherited` when it is not.
pub proof fn law_timing_point_repr_layout(t: TimingPoint, bpm: Seq<char>)
    ensures
        t.uninherited ==> t.repr_text(bpm) == "TimingPoint(t="@ + dec_int(t.time as int)
            + "ms, bpm="@ + bpm + ")"@,
        !t.uninherited ==> t.repr_text(bpm) == "TimingPoint(t="@ + dec_int(t.time as int)
            + "ms, inherited)"@,
{
}

} // verus!
