//! A beatmap: its metadata, hit objects, timing points, colours and events.

use vstd::prelude::*;
use crate::color::Color;
use crate::events::Event;
use crate::hitobject::{HitObject, HitObjectKind};
use crate::text::{dec, push_dec, push_str, string_of};
use crate::timing::TimingPoint;

verus! {

/// A game mode.
#[derive(Clone, Copy, Debug, PartialEq, Eq, Structural)]
pub enum Mode {
    Osu,
    Taiko,
    Catch,
    Mania,
}

/// The name a game mode is shown by.
pub open spec fn mode_name(m: Mode) -> Seq<char> {
    match m {
        Mode::Osu => "osu"@,
        Mode::Taiko => "taiko"@,
        Mode::Catch => "catch"@,
        Mode::Mania => "mania"@,
    }
}

/// Which of the three kinds a hit object kind is: 0 circle, 1 slider, 2 spinner.
pub open spec fn kind_code(k: HitObjectKind) -> int {
    match k {
        HitObjectKind::Circle => 0,
        HitObjectKind::Slider(_) => 1,
        HitObjectKind::Spinner(_) => 2,
    }
}

/// How many of the hit objects are of the kind with code `code`.
pub open spec fn count_of_kind(objects: Seq<HitObject>, code: int) -> nat
    decreases objects.len(),
{
    if objects.len() == 0 {
        0
    } else {
        count_of_kind(objects.drop_last(), code) + if kind_code(objects.last().kind) == code {
            1nat
        } else {
            0nat
        }
    }
}

/// A beatmap, with everything but its floating-point settings.
#[derive(Clone, Debug)]
pub struct Beatmap {
    /// The version of the file format.
    pub version: u32,
    /// The song title, in ASCII.
    pub title: String,
    /// The song title, in Unicode.
    pub title_unicode: String,
    /// The artist, in ASCII.
    pub artist: String,
    /// The artist, in Unicode.
    pub artist_unicode: String,
    /// The maker of the mapset.
    pub creator: String,
    /// The name of the difficulty.
    pub difficulty_name: String,
    /// The audio file, relative to the beatmap file.
    pub audio_filename: String,
    /// The beatmap id.
    pub beatmap_id: i32,
    /// The id of the beatmap set.
    pub beatmap_set_id: i32,
    /// Where the song comes from.
    pub source: String,
    /// Search tags.
    pub tags: Vec<String>,
    /// Whether a countdown is shown.
    pub countdown: bool,
    /// Whether breaks are letterboxed.
    pub letterbox_in_breaks: bool,
    /// The game mode.
    pub mode: Mode,
    /// The hit objects.
    pub hit_objects: Vec<HitObject>,
    /// The timing points.
    pub timing_points: Vec<TimingPoint>,
    /// The combo colours.
    pub colors: Vec<Color>,
    /// The events.
    pub events: Vec<Event>,
}

/// A copy of a vector of plain values.
fn copy_all<T: Copy>(v: &Vec<T>) -> (r: Vec<T>)
    ensures
        r@ == v@,
{
    let mut r: Vec<T> = Vec::new();
    let n = v.len();
    for i in 0..n
        invariant
            n == v@.len(),
            r@ == v@.take(i as int),
    {
        r.push(v[i]);
        assert(v@.take(i + 1) =~= v@.take(i as int).push(v@[i as int]));
    }
    assert(v@.take(n as int) =~= v@);
    r
}

/// How many of `objects` are of the kind with code `code`.
fn count_kind(objects: &Vec<HitObject>, code: u8) -> (r: usize)
    ensures
        r == count_of_kind(objects@, code as int),
{
    let mut c: usize = 0;
    let n = objects.len();
    for i in 0..n
        invariant
            n == objects@.len(),
            c == count_of_kind(objects@.take(i as int), code as int),
            c <= i,
    {
        let k: u8 = match &objects[i].kind {
            HitObjectKind::Circle => 0,
            HitObjectKind::Slider(_) => 1,
            HitObjectKind::Spinner(_) => 2,
        };
        assert(objects@.take(i + 1).drop_last() =~= objects@.take(i as int));
        if k == code {
            c = c + 1;
        }
    }
    assert(objects@.take(n as int) =~= objects@);
    c
}

impl Beatmap {
    /// The file format version.
    pub fn version(&self) -> (r: u32)
        ensures
            r == self.version,
    {
        self.version
    }

    /// The title in ASCII.
    pub fn title(&self) -> (r: &str)
        ensures
            r@ == self.title@,
    {
        self.title.as_str()
    }

    /// The title in Unicode.
    pub fn title_unicode(&self) -> (r: &str)
        ensures
            r@ == self.title_unicode@,
    {
        self.title_unicode.as_str()
    }

    /// The artist in ASCII.
    pub fn artist(&self) -> (r: &str)
        ensures
            r@ == self.artist@,
    {
        self.artist.as_str()
    }

    /// The artist in Unicode.
    pub fn artist_unicode(&self) -> (r: &str)
        ensures
            r@ == self.artist_unicode@,
    {
        self.artist_unicode.as_str()
    }

    /// The maker of the mapset.
    pub fn creator(&self) -> (r: &str)
        ensures
            r@ == self.creator@,
    {
        self.creator.as_str()
    }

    /// The difficulty name.
    pub fn difficulty_name(&self) -> (r: &str)
        ensures
            r@ == self.difficulty_name@,
    {
        self.difficulty_name.as_str()
    }

    /// The audio file name.
    pub fn audio_filename(&self) -> (r: &str)
        ensures
            r@ == self.audio_filename@,
    {
        self.audio_filename.as_str()
    }

    /// The beatmap id.
    pub fn beatmap_id(&self) -> (r: i32)
        ensures
            r == self.beatmap_id,
    {
        self.beatmap_id
    }

    /// The beatmap set id.
    pub fn beatmap_set_id(&self) -> (r: i32)
        ensures
            r == self.beatmap_set_id,
    {
        self.beatmap_set_id
    }

    /// The source of the song.
    pub fn source(&self) -> (r: &str)
        ensures
            r@ == self.source@,
    {
        self.source.as_str()
    }

    /// A copy of the tags, in order.
    pub fn tags(&self) -> (r: Vec<String>)
        ensures
            r@ == self.tags@,
    {
        let mut r: Vec<String> = Vec::new();
        let n = self.tags.len();
        for i in 0..n
            invariant
                n == self.tags@.len(),
                r@ == self.tags@.take(i as int),
        {
            r.push(self.tags[i].clone());
            assert(self.tags@.take(i + 1) =~= self.tags@.take(i as int).push(self.tags@[i as int]));
        }
        assert(self.tags@.take(n as int) =~= self.tags@);
        r
    }

    /// Whether a countdown is shown.
    pub fn countdown(&self) -> (r: bool)
        ensures
            r == self.countdown,
    {
        self.countdown
    }

    /// Whether breaks are letterboxed.
    pub fn letterbox_in_breaks(&self) -> (r: bool)
        ensures
            r == self.letterbox_in_breaks,
    {
        self.letterbox_in_breaks
    }

    /// The mode's name: `osu`, `taiko`, `catch` or `mania`.
    pub fn mode(&self) -> (r: &'static str)
        ensures
            r@ == mode_name(self.mode),
    {
        match self.mode {
            Mode::Osu => "osu",
            Mode::Taiko => "taiko",
            Mode::Catch => "catch",
            Mode::Mania => "mania",
        }
    }

    /// The hit objects, in order.
    pub fn hit_objects(&self) -> (r: &[HitObject])
        ensures
            r@ == self.hit_objects@,
    {
        self.hit_objects.as_slice()
    }

    /// A copy of the timing points, in order.
    pub fn timing_points(&self) -> (r: Vec<TimingPoint>)
        ensures
            r@ == self.timing_points@,
    {
        copy_all(&self.timing_points)
    }

    /// A copy of the combo colours, in order.
    pub fn colors(&self) -> (r: Vec<Color>)
        ensures
            r@ == self.colors@,
    {
        copy_all(&self.colors)
    }

    /// The events, in order.
    pub fn events(&self) -> (r: &[Event])
        ensures
            r@ == self.events@,
    {
        self.events.as_slice()
    }

    /// The number of hit objects.
    pub fn hit_object_count(&self) -> (r: usize)
        ensures
            r == self.hit_objects@.len(),
    {
        self.hit_objects.len()
    }

    /// The number of hit circles.
    pub fn circle_count(&self) -> (r: usize)
        ensures
            r == count_of_kind(self.hit_objects@, 0),
            r == self.hit_objects@.filter(|h: HitObject| h.kind is Circle).len(),
    {
        proof {
            law_counts_are_filters(self.hit_objects@);
        }
        count_kind(&self.hit_objects, 0)
    }

    /// The number of sliders.
    pub fn slider_count(&self) -> (r: usize)
        ensures
            r == count_of_kind(self.hit_objects@, 1),
            r == self.hit_objects@.filter(|h: HitObject| h.kind is Slider).len(),
    {
        proof {
            law_counts_are_filters(self.hit_objects@);
        }
        count_kind(&self.hit_objects, 1)
    }

    /// The number of spinners.
    pub fn spinner_count(&self) -> (r: usize)
        ensures
            r == count_of_kind(self.hit_objects@, 2),
            r == self.hit_objects@.filter(|h: HitObject| h.kind is Spinner).len(),
    {
        proof {
            law_counts_are_filters(self.hit_objects@);
        }
        count_kind(&self.hit_objects, 2)
    }

    /// The text of `repr`.
    pub open spec fn repr_text(&self) -> Seq<char> {
        "Beatmap("@ + self.artist@ + " - "@ + self.title@ + " ["@ + self.difficulty_name@
            + "] by "@ + self.creator@ + ")"@
    }

    /// `Beatmap(Artist - Title [Difficulty] by Creator)`.
    pub fn repr(&self) -> (r: String)
        ensures
            r@ == self.repr_text(),
    {
        let mut s = string_of("Beatmap(");
        push_str(&mut s, self.artist.as_str());
        push_str(&mut s, " - ");
        push_str(&mut s, self.title.as_str());
        push_str(&mut s, " [");
        push_str(&mut s, self.difficulty_name.as_str());
        push_str(&mut s, "] by ");
        push_str(&mut s, self.creator.as_str());
        push_str(&mut s, ")");
        assert(s@ =~= self.repr_text());
        s
    }
}

/// Every hit object is a circle, a slider or a spinner: the three counts add
/// up to the number of hit objects.
pub proof fn law_counts_add_up(objects: Seq<HitObject>)
    ensures
        count_of_kind(objects, 0) + count_of_kind(objects, 1) + count_of_kind(objects, 2)
            == objects.len(),
    decreases objects.len(),
{
    if objects.len() > 0 {
        law_counts_add_up(objects.drop_last());
    }
}

/// The counts of the three kinds are the numbers of hit objects that are
/// circles, sliders and spinners, each kind counted on its own.
pub proof fn law_counts_are_filters(objects: Seq<HitObject>)
    ensures
        count_of_kind(objects, 0) == objects.filter(|h: HitObject| h.kind is Circle).len(),
        count_of_kind(objects, 1) == objects.filter(|h: HitObject| h.kind is Slider).len(),
        count_of_kind(objects, 2) == objects.filter(|h: HitObject| h.kind is Spinner).len(),
    decreases objects.len(),
{
    reveal_with_fuel(Seq::filter, 1);
    if objects.len() > 0 {
        law_counts_are_filters(objects.drop_last());
    }
}

/// Each game mode is shown by its own name.
pub proof fn law_mode_names()
    ensures
        mode_name(Mode::Osu) == "osu"@,
        mode_name(Mode::Taiko) == "taiko"@,
        mode_name(Mode::Catch) == "catch"@,
        mode_name(Mode::Mania) == "mania"@,
{
}

/// The text of a beatmap is its artist, title, difficulty name and creator,
/// in that order, in the layout `Beatmap(artist - title [difficulty] by creator)`.
pub proof fn law_beatmap_repr_layout(b: Beatmap)
    ensures
        b.repr_text() == "Beatmap("@ + b.artist@ + " - "@ + b.title@ + " ["@
            + b.difficulty_name@ + "] by "@ + b.creator@ + ")"@,
{
}

/// The parse error message gives the line number in decimal, then the detail.
pub proof fn law_parse_error_layout(line: nat, detail: Seq<char>)
    ensures
        parse_error_text(line, detail) == "beatmap parse error at line "@ + dec(line) + ": "@
            + detail,
{
}

/// No count of one kind exceeds the number of hit objects.
pub proof fn law_count_bounded(objects: Seq<HitObject>, code: int)
    ensures
        count_of_kind(objects, code) <= objects.len(),
    decreases objects.len(),
{
    if objects.len() > 0 {
        law_count_bounded(objects.drop_last(), code);
    }
}

/// The text of the message for a beatmap that failed to parse.
pub open spec fn parse_error_text(line: nat, detail: Seq<char>) -> Seq<char> {
    "beatmap parse error at line "@ + dec(line) + ": "@ + detail
}

/// `beatmap parse error at line 12: ...`: the message for a beatmap that
/// failed to parse at `line`, where `detail` says what was wrong.
pub fn parse_error_message(line: usize, detail: &str) -> (r: String)
    ensures
        r@ == parse_error_text(line as nat, detail@),
{
    let mut s = string_of("beatmap parse error at line ");
    push_dec(&mut s, line as u64);
    push_str(&mut s, ": ");
    push_str(&mut s, detail);
    assert(s@ =~= parse_error_text(line as nat, detail@));
    s
}

} // verus!
