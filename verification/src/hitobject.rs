//! Hit objects: circles, sliders and spinners.

use vstd::prelude::*;
use crate::hitsounds::{Additions, SampleInfo};
use crate::text::{dec, dec_int, push_dec, push_int, push_str, string_of};

verus! {

/// The curve that a slider's body follows.
#[derive(Clone, Copy, Debug, PartialEq, Eq, Structural)]
pub enum SliderSplineKind {
    Linear,
    Bezier,
    Catmull,
    Perfect,
}

/// The name a spline kind is shown by.
pub open spec fn spline_kind_name(k: SliderSplineKind) -> Seq<char> {
    match k {
        SliderSplineKind::Linear => "linear"@,
        SliderSplineKind::Bezier => "bezier"@,
        SliderSplineKind::Catmull => "catmull"@,
        SliderSplineKind::Perfect => "perfect"@,
    }
}

/// What a slider holds besides its length in pixels.
#[derive(Clone, Debug)]
pub struct SliderInfo {
    /// The curve of the body.
    pub kind: SliderSplineKind,
    /// The control points of the body, as `(x, y)`.
    pub control_points: Vec<(i32, i32)>,
    /// How many times the slider repeats.
    pub num_repeats: u32,
}

impl SliderInfo {
    /// The curve's name: `linear`, `bezier`, `catmull` or `perfect`.
    pub fn kind(&self) -> (r: &'static str)
        ensures
            r@ == spline_kind_name(self.kind),
    {
        match self.kind {
            SliderSplineKind::Linear => "linear",
            SliderSplineKind::Bezier => "bezier",
            SliderSplineKind::Catmull => "catmull",
            SliderSplineKind::Perfect => "perfect",
        }
    }

    /// The number of repeats.
    pub fn num_repeats(&self) -> (r: u32)
        ensures
            r == self.num_repeats,
    {
        self.num_repeats
    }

    /// A copy of the control points, in order.
    pub fn control_points(&self) -> (r: Vec<(i32, i32)>)
        ensures
            r@ == self.control_points@,
    {
        let mut r: Vec<(i32, i32)> = Vec::new();
        let n = self.control_points.len();
        for i in 0..n
            invariant
                n == self.control_points@.len(),
                r@ == self.control_points@.take(i as int),
        {
            r.push(self.control_points[i]);
            assert(self.control_points@.take(i + 1) =~= self.control_points@.take(i as int).push(
                self.control_points@[i as int],
            ));
        }
        assert(self.control_points@.take(n as int) =~= self.control_points@);
        r
    }

    /// The text of `repr`, where `length` is the pixel length as shown with
    /// one decimal.
    pub open spec fn repr_text(&self, length: Seq<char>) -> Seq<char> {
        "SliderInfo(kind="@ + spline_kind_name(self.kind) + ", repeats="@
            + dec(self.num_repeats as nat) + ", length="@ + length + ", control_points="@
            + dec(self.control_points@.len()) + ")"@
    }

    /// `SliderInfo(kind=bezier, repeats=1, length=140.0, control_points=2)`;
    /// `length` is the pixel length already written with one decimal.
    pub fn repr(&self, length: &str) -> (r: String)
        ensures
            r@ == self.repr_text(length@),
    {
        let mut s = string_of("SliderInfo(kind=");
        push_str(&mut s, self.kind());
        push_str(&mut s, ", repeats=");
        push_dec(&mut s, self.num_repeats as u64);
        push_str(&mut s, ", length=");
        push_str(&mut s, length);
        push_str(&mut s, ", control_points=");
        push_dec(&mut s, self.control_points.len() as u64);
        push_str(&mut s, ")");
        assert(s@ =~= self.repr_text(length@));
        s
    }
}

/// What a spinner holds.
#[derive(Clone, Copy, Debug, PartialEq, Eq, Structural)]
pub struct SpinnerInfo {
    /// When the spinner ends, in milliseconds.
    pub end_time: i32,
}

impl SpinnerInfo {
    /// The end time in milliseconds.
    pub fn end_time(&self) -> (r: i32)
        ensures
            r == self.end_time,
    {
        self.end_time
    }

    /// The text of `repr`.
    pub open spec fn repr_text(&self) -> Seq<char> {
        "SpinnerInfo(end_time="@ + dec_int(self.end_time as int) + "ms)"@
    }

    /// `SpinnerInfo(end_time=5000ms)`.
    pub fn repr(&self) -> (r: String)
        ensures
            r@ == self.repr_text(),
    {
        let mut s = string_of("SpinnerInfo(end_time=");
        push_int(&mut s, self.end_time as i64);
        push_str(&mut s, "ms)");
        assert(s@ =~= self.repr_text());
        s
    }
}

/// The three kinds of hit objects.
#[derive(Clone, Debug)]
pub enum HitObjectKind {
    Circle,
    Slider(SliderInfo),
    Spinner(SpinnerInfo),
}

impl HitObjectKind {
    /// Whether this is a hit circle.
    pub fn is_circle(&self) -> (r: bool)
        ensures
            r == (self is Circle),
    {
        match self {
            HitObjectKind::Circle => true,
            _ => false,
        }
    }

    /// Whether this is a slider.
    pub fn is_slider(&self) -> (r: bool)
        ensures
            r == (self is Slider),
    {
        match self {
            HitObjectKind::Slider(_) => true,
            _ => false,
        }
    }

    /// Whether this is a spinner.
    pub fn is_spinner(&self) -> (r: bool)
        ensures
            r == (self is Spinner),
    {
        match self {
            HitObjectKind::Spinner(_) => true,
            _ => false,
        }
    }
}

/// The name a kind of hit object is shown by.
pub open spec fn kind_name(k: HitObjectKind) -> Seq<char> {
    match k {
        HitObjectKind::Circle => "circle"@,
        HitObjectKind::Slider(_) => "slider"@,
        HitObjectKind::Spinner(_) => "spinner"@,
    }
}

/// A hit object of a beatmap.
#[derive(Clone, Debug)]
pub struct HitObject {
    /// Horizontal position (of the head, for sliders).
    pub x: i32,
    /// Vertical position (of the head, for sliders).
    pub y: i32,
    /// When the object is to be hit, in milliseconds.
    pub start_time: i32,
    /// What kind of object this is, with its own data.
    pub kind: HitObjectKind,
    /// Whether the object starts a new combo.
    pub new_combo: bool,
    /// How many combo colours to skip.
    pub skip_color: i32,
    /// Its hitsound additions.
    pub additions: Additions,
    /// Its hitsound sample.
    pub sample_info: SampleInfo,
}

impl HitObject {
    /// The horizontal position.
    pub fn x(&self) -> (r: i32)
        ensures
            r == self.x,
    {
        self.x
    }

    /// The vertical position.
    pub fn y(&self) -> (r: i32)
        ensures
            r == self.y,
    {
        self.y
    }

    /// The time of the hit in milliseconds.
    pub fn start_time(&self) -> (r: i32)
        ensures
            r == self.start_time,
    {
        self.start_time
    }

    /// Whether the object starts a new combo.
    pub fn new_combo(&self) -> (r: bool)
        ensures
            r == self.new_combo,
    {
        self.new_combo
    }

    /// How many combo colours to skip.
    pub fn skip_color(&self) -> (r: i32)
        ensures
            r == self.skip_color,
    {
        self.skip_color
    }

    /// The kind's name: `circle`, `slider` or `spinner`.
    pub fn kind(&self) -> (r: &'static str)
        ensures
            r@ == kind_name(self.kind),
    {
        match &self.kind {
            HitObjectKind::Circle => "circle",
            HitObjectKind::Slider(_) => "slider",
            HitObjectKind::Spinner(_) => "spinner",
        }
    }

    /// The hitsound additions.
    pub fn additions(&self) -> (r: Additions)
        ensures
            r == self.additions,
    {
        self.additions
    }

    /// The hitsound sample.
    pub fn sample_info(&self) -> (r: &SampleInfo)
        ensures
            *r == self.sample_info,
    {
        &self.sample_info
    }

    /// The slider data, for a slider.
    pub fn slider_info(&self) -> (r: Option<&SliderInfo>)
        ensures
            r == (match self.kind {
                HitObjectKind::Slider(s) => Some(&s),
                _ => None,
            }),
    {
        match &self.kind {
            HitObjectKind::Slider(s) => Some(s),
            _ => None,
        }
    }

    /// The spinner data, for a spinner.
    pub fn spinner_info(&self) -> (r: Option<SpinnerInfo>)
        ensures
            r == (match self.kind {
                HitObjectKind::Spinner(s) => Some(s),
                _ => None,
            }),
    {
        match &self.kind {
            HitObjectKind::Spinner(s) => Some(*s),
            _ => None,
        }
    }

    /// Whether this is a hit circle.
    pub fn is_circle(&self) -> (r: bool)
        ensures
            r == (self.kind is Circle),
    {
        self.kind.is_circle()
    }

    /// Whether this is a slider.
    pub fn is_slider(&self) -> (r: bool)
        ensures
            r == (self.kind is Slider),
    {
        self.kind.is_slider()
    }

    /// Whether this is a spinner.
    pub fn is_spinner(&self) -> (r: bool)
        ensures
            r == (self.kind is Spinner),
    {
        self.kind.is_spinner()
    }

    /// The text of `repr`.
    pub open spec fn repr_text(&self) -> Seq<char> {
        "HitObject(kind="@ + kind_name(self.kind) + ", x="@ + dec_int(self.x as int) + ", y="@
            + dec_int(self.y as int) + ", t="@ + dec_int(self.start_time as int) + "ms)"@
    }

    /// `HitObject(kind=circle, x=256, y=192, t=1000ms)`.
    pub fn repr(&self) -> (r: String)
        ensures
            r@ == self.repr_text(),
    {
        let mut s = string_of("HitObject(kind=");
        push_str(&mut s, self.kind());
        push_str(&mut s, ", x=");
        push_int(&mut s, self.x as i64);
        push_str(&mut s, ", y=");
        push_int(&mut s, self.y as i64);
        push_str(&mut s, ", t=");
        push_int(&mut s, self.start_time as i64);
        push_str(&mut s, "ms)");
        assert(s@ =~= self.repr_text());
        s
    }
}

/// Each slider curve is shown by its own name.
pub proof fn law_spline_kind_names()
    ensures
        spline_kind_name(SliderSplineKind::Linear) == "linear"@,
        spline_kind_name(SliderSplineKind::Bezier) == "bezier"@,
        spline_kind_name(SliderSplineKind::Catmull) == "catmull"@,
        spline_kind_name(SliderSplineKind::Perfect) == "perfect"@,
{
}

/// Circles, sliders and spinners are shown by their own names.
pub proof fn law_kind_names(s: SliderInfo, p: SpinnerInfo)
    ensures
        kind_name(HitObjectKind::Circle) == "circle"@,
        kind_name(HitObjectKind::Slider(s)) == "slider"@,
        kind_name(HitObjectKind::Spinner(p)) == "spinner"@,
{
}

/// The text of a slider gives its curve, then its number of repeats, the
/// given length, and the number of control points, each in its place.
pub proof fn law_slider_repr_layout(s: SliderInfo, length: Seq<char>)
    ensures
        s.repr_text(length) == "SliderInfo(kind="@ + spline_kind_name(s.kind) + ", repeats="@
            + dec(s.num_repeats as nat) + ", length="@ + length + ", control_points="@
            + dec(s.control_points@.len()) + ")"@,
{
}

/// The text of a spinner gives its end time in milliseconds.
pub proof fn law_spinner_repr_layout(p: SpinnerInfo)
    ensures
        p.repr_text() == "SpinnerInfo(end_time="@ + dec_int(p.end_time as int) + "ms)"@,
{
}

/// The text of a hit object gives its kind, then x, then y, then its time.
pub proof fn law_hit_object_repr_layout(h: HitObject)
    ensures
        h.repr_text() == "HitObject(kind="@ + kind_name(h.kind) + ", x="@ + dec_int(h.x as int)
            + ", y="@ + dec_int(h.y as int) + ", t="@ + dec_int(h.start_time as int) + "ms)"@,
{
}

/// A hit object is of exactly one kind, and its name and its data agree
/// with that kind.
pub proof fn law_exactly_one_kind(h: HitObject)
    ensures
        (h.kind is Circle) as int + (h.kind is Slider) as int + (h.kind is Spinner) as int == 1,
        (h.kind is Circle) <==> kind_name(h.kind) == "circle"@,
        (h.kind is Slider) <==> kind_name(h.kind) == "slider"@,
        (h.kind is Spinner) <==> kind_name(h.kind) == "spinner"@,
{
    reveal_strlit("circle");
    reveal_strlit("slider");
    reveal_strlit("spinner");
    match h.kind {
        HitObjectKind::Circle => {
            assert("circle"@[1] != "slider"@[1]);
            assert("circle"@[1] != "spinner"@[1]);
        },
        HitObjectKind::Slider(_) => {
            assert("slider"@[1] != "circle"@[1]);
            assert("slider"@[1] != "spinner"@[1]);
        },
        HitObjectKind::Spinner(_) => {
            assert("spinner"@[1] != "circle"@[1]);
            assert("spinner"@[1] != "slider"@[1]);
        },
    }
}

} // verus!
