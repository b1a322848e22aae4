//! Beatmap events: background, video, breaks and storyboard lines.

use vstd::prelude::*;
use crate::text::{dec_int, push_int, push_str, string_of};

verus! {

/// An event of a beatmap.
#[derive(Clone, Debug)]
pub enum Event {
    /// The background image.
    Background { filename: String },
    /// The background video, starting at `start_time` milliseconds.
    Video { filename: String, start_time: i32 },
    /// A break in the gameplay.
    Break { start_time: i32, end_time: i32 },
    /// A storyboard line.
    Storyboard,
    /// An event of a kind that this library does not know.
    Unknown,
}

/// The name an event's kind is shown by.
pub open spec fn event_kind_name(e: Event) -> Seq<char> {
    match e {
        Event::Background { .. } => "background"@,
        Event::Video { .. } => "video"@,
        Event::Break { .. } => "break"@,
        Event::Storyboard => "storyboard"@,
        Event::Unknown => "unknown"@,
    }
}

impl Event {
    /// The kind's name: `background`, `video`, `break`, `storyboard` or `unknown`.
    pub fn kind(&self) -> (r: &'static str)
        ensures
            r@ == event_kind_name(*self),
    {
        match self {
            Event::Background { .. } => "background",
            Event::Video { .. } => "video",
            Event::Break { .. } => "break",
            Event::Storyboard => "storyboard",
            Event::Unknown => "unknown",
        }
    }

    /// The image file, for a background.
    pub fn background_filename(&self) -> (r: Option<String>)
        ensures
            r == (match *self {
                Event::Background { filename } => Some(filename),
                _ => None,
            }),
    {
        match self {
            Event::Background { filename } => Some(filename.clone()),
            _ => None,
        }
    }

    /// The video file, for a video.
    pub fn video_filename(&self) -> (r: Option<String>)
        ensures
            r == (match *self {
                Event::Video { filename, .. } => Some(filename),
                _ => None,
            }),
    {
        match self {
            Event::Video { filename, .. } => Some(filename.clone()),
            _ => None,
        }
    }

    /// When the video starts, for a video.
    pub fn video_start_time(&self) -> (r: Option<i32>)
        ensures
            r == (match *self {
                Event::Video { start_time, .. } => Some(start_time),
                _ => None,
            }),
    {
        match self {
            Event::Video { start_time, .. } => Some(*start_time),
            _ => None,
        }
    }

    /// When the break starts, for a break.
    pub fn break_start_time(&self) -> (r: Option<i32>)
        ensures
            r == (match *self {
                Event::Break { start_time, .. } => Some(start_time),
                _ => None,
            }),
    {
        match self {
            Event::Break { start_time, .. } => Some(*start_time),
            _ => None,
        }
    }

    /// When the break ends, for a break.
    pub fn break_end_time(&self) -> (r: Option<i32>)
        ensures
            r == (match *self {
                Event::Break { end_time, .. } => Some(end_time),
                _ => None,
            }),
    {
        match self {
            Event::Break { end_time, .. } => Some(*end_time),
            _ => None,
        }
    }

    /// The text of `repr`.
    pub open spec fn repr_text(&self) -> Seq<char> {
        match *self {
            Event::Background { filename } => "Event::Background("@ + filename@ + ")"@,
            Event::Video { filename, start_time } => "Event::Video("@ + filename@ + ", t="@
                + dec_int(start_time as int) + ")"@,
            Event::Break { start_time, end_time } => "Event::Break("@ + dec_int(start_time as int)
                + "ms-"@ + dec_int(end_time as int) + "ms)"@,
            Event::Storyboard => "Event::Storyboard(...)"@,
            Event::Unknown => "Event::Unknown"@,
        }
    }

    /// `Event::Background(bg.jpg)`, `Event::Video(v.mp4, t=0)`,
    /// `Event::Break(1000ms-2000ms)`, `Event::Storyboard(...)` or `Event::Unknown`.
    pub fn repr(&self) -> (r: String)
        ensures
            r@ == self.repr_text(),
    {
        match self {
            Event::Background { filename } => {
                let mut s = string_of("Event::Background(");
                push_str(&mut s, filename.as_str());
                push_str(&mut s, ")");
                assert(s@ =~= self.repr_text());
                s
            },
            Event::Video { filename, start_time } => {
                let mut s = string_of("Event::Video(");
                push_str(&mut s, filename.as_str());
                push_str(&mut s, ", t=");
                push_int(&mut s, *start_time as i64);
                push_str(&mut s, ")");
                assert(s@ =~= self.repr_text());
                s
            },
            Event::Break { start_time, end_time } => {
                let mut s = string_of("Event::Break(");
                push_int(&mut s, *start_time as i64);
                push_str(&mut s, "ms-");
                push_int(&mut s, *end_time as i64);
                push_str(&mut s, "ms)");
                assert(s@ =~= self.repr_text());
                s
            },
            Event::Storyboard => string_of("Event::Storyboard(...)"),
            Event::Unknown => string_of("Event::Unknown"),
        }
    }
}

/// The kind name of an event tells which kind of event it is: backgrounds,
/// videos and breaks each have a name that no other kind has.
pub proof fn law_event_kind_names_distinct(e: Event)
    ensures
        (e matches Event::Background { .. }) <==> event_kind_name(e) == "background"@,
        (e matches Event::Video { .. }) <==> event_kind_name(e) == "video"@,
        (e matches Event::Break { .. }) <==> event_kind_name(e) == "break"@,
{
    reveal_strlit("background");
    reveal_strlit("video");
    reveal_strlit("break");
    reveal_strlit("storyboard");
    reveal_strlit("unknown");
    assert("background"@[0] == 'b');
    assert("break"@[1] == 'r');
    assert("video"@[0] == 'v');
    assert("storyboard"@[0] == 's');
    assert("unknown"@[0] == 'u');
}

/// Each kind of event is shown by its own name.
pub proof fn law_event_kind_names(filename: String, start_time: i32, end_time: i32)
    ensures
        event_kind_name(Event::Background { filename }) == "background"@,
        event_kind_name(Event::Video { filename, start_time }) == "video"@,
        event_kind_name(Event::Break { start_time, end_time }) == "break"@,
        event_kind_name(Event::Storyboard) == "storyboard"@,
        event_kind_name(Event::Unknown) == "unknown"@,
{
}

/// The text of an event: a background shows its file; a video its file,
/// then its start; a break its start, then its end, each in milliseconds.
pub proof fn law_event_repr_layout(filename: String, start_time: i32, end_time: i32)
    ensures
        (Event::Background { filename }).repr_text() == "Event::Background("@ + filename@ + ")"@,
        (Event::Video { filename, start_time }).repr_text() == "Event::Video("@ + filename@
            + ", t="@ + dec_int(start_time as int) + ")"@,
        (Event::Break { start_time, end_time }).repr_text() == "Event::Break("@
            + dec_int(start_time as int) + "ms-"@ + dec_int(end_time as int) + "ms)"@,
        Event::Storyboard.repr_text() == "Event::Storyboard(...)"@,
        Event::Unknown.repr_text() == "Event::Unknown"@,
{
}

} // verus!
