//! Plain, verified model of the osu! beatmap data that the Python bindings
//! expose, with the text each value shows itself as.

pub mod text;
pub mod mods;
pub mod hitsounds;
pub mod color;
pub mod hitobject;
pub mod chronology;
pub mod events;
pub mod timing;
pub mod beatmap;

pub use beatmap::{parse_error_message, Beatmap, Mode};
pub use color::Color;
pub use events::Event;
pub use hitobject::{HitObject, HitObjectKind, SliderInfo, SliderSplineKind, SpinnerInfo};
pub use hitsounds::{sample_set_str, Additions, SampleInfo, SampleSet};
pub use mods::Mods;
pub use timing::TimingPoint;
