use std::str::FromStr;

use libosu_py::{
    Additions, HitObject, HitObjectKind, Mods, SampleInfo, SampleSet, SliderInfo,
    SliderSplineKind, SpinnerInfo,
};

fn sample_set_of(s: libosu::hitsounds::SampleSet) -> SampleSet {
    match s {
        libosu::hitsounds::SampleSet::Default => SampleSet::Default,
        libosu::hitsounds::SampleSet::Normal => SampleSet::Normal,
        libosu::hitsounds::SampleSet::Soft => SampleSet::Soft,
        libosu::hitsounds::SampleSet::Drum => SampleSet::Drum,
    }
}

/// Reads a hit object line with libosu and keeps what the model holds.
fn hit_object(line: &str) -> HitObject {
    let h = libosu::hitobject::HitObject::from_str(line).expect("hit object line");
    let kind = match &h.kind {
        libosu::hitobject::HitObjectKind::Circle => HitObjectKind::Circle,
        libosu::hitobject::HitObjectKind::Slider(s) => HitObjectKind::Slider(SliderInfo {
            kind: match s.kind {
                libosu::hitobject::SliderSplineKind::Linear => SliderSplineKind::Linear,
                libosu::hitobject::SliderSplineKind::Bezier => SliderSplineKind::Bezier,
                libosu::hitobject::SliderSplineKind::Catmull => SliderSplineKind::Catmull,
                libosu::hitobject::SliderSplineKind::Perfect => SliderSplineKind::Perfect,
            },
            control_points: s.control_points.iter().map(|p| (p.x, p.y)).collect(),
            num_repeats: s.num_repeats,
        }),
        libosu::hitobject::HitObjectKind::Spinner(s) => {
            HitObjectKind::Spinner(SpinnerInfo { end_time: s.end_time.0 })
        }
    };
    HitObject {
        x: h.pos.x,
        y: h.pos.y,
        start_time: h.start_time.0,
        kind,
        new_combo: h.new_combo,
        skip_color: h.skip_color,
        additions: Additions::from_bits(h.additions.bits()).expect("known additions"),
        sample_info: SampleInfo {
            sample_set: sample_set_of(h.sample_info.sample_set),
            addition_set: sample_set_of(h.sample_info.addition_set),
            custom_index: h.sample_info.custom_index,
            sample_volume: h.sample_info.sample_volume,
            filename: h.sample_info.filename.clone(),
        },
    }
}

#[test]
fn test_mods_parse() {
    // All standard mods via comma delimiter
    let mods = Mods::parse_from_str("+NF,HR,SD,RX,HT,NC,FL,AU,SO,AP,PF", ",")
        .expect("should parse");
    assert!(mods.contains(Mods::NoFail));
    assert!(mods.contains(Mods::HardRock));
    assert!(mods.contains(Mods::SuddenDeath));
    assert!(mods.contains(Mods::Relax));
    assert!(mods.contains(Mods::HalfTime));
    assert!(mods.contains(Mods::Nightcore));
    assert!(mods.contains(Mods::Flashlight));
    assert!(mods.contains(Mods::Autoplay));
    assert!(mods.contains(Mods::SpunOut));
    assert!(mods.contains(Mods::Relax2));
    assert!(mods.contains(Mods::Perfect));

    // Mania key mods
    let key_mods =
        Mods::parse_from_str("+5K,6K,7K,8K,9K,1K,2K,3K,CM,TP", ",").expect("key mods");
    assert!(key_mods.contains(Mods::Key5));
    assert!(key_mods.contains(Mods::Key6));
    assert!(key_mods.contains(Mods::Key7));
    assert!(key_mods.contains(Mods::Key8));
    assert!(key_mods.contains(Mods::Key9));
    assert!(key_mods.contains(Mods::Key1));
    assert!(key_mods.contains(Mods::Key2));
    assert!(key_mods.contains(Mods::Key3));
    assert!(key_mods.contains(Mods::LastMod));
    assert!(key_mods.contains(Mods::TargetPractice));

    // Wrong delimiter must return None
    assert_eq!(Mods::parse_from_str("+NF,HR", "|"), None);

    // TouchDevice aliases
    assert_eq!(
        Mods::parse_from_str("TD", ""),
        Mods::parse_from_str("NV", "")
    );
}

#[test]
fn test_hitobject_predicates_and_parsing() {
    // Circle: type bit 0 set (type = 1)
    let circle = hit_object("256,192,1000,1,0");
    assert!(circle.kind.is_circle());
    assert!(!circle.kind.is_slider());
    assert!(!circle.kind.is_spinner());
    assert_eq!(circle.start_time, 1000);
    assert!(!circle.new_combo);

    // Circle with new_combo: type = 1 | 4 = 5
    let nc_circle = hit_object("100,100,2000,5,0");
    assert!(nc_circle.kind.is_circle());
    assert!(nc_circle.new_combo);

    // Slider: type bit 1 set (type = 2)
    let slider = hit_object("100,200,3000,2,0,L|300:200,1,200.0");
    assert!(slider.kind.is_slider());
    assert!(!slider.kind.is_circle());
    assert!(!slider.kind.is_spinner());

    // Spinner: type bit 3 set (type = 8)
    let spinner = hit_object("256,192,4000,8,0,5000");
    assert!(spinner.kind.is_spinner());
    assert!(!spinner.kind.is_circle());
    assert!(!spinner.kind.is_slider());
    if let HitObjectKind::Spinner(ref info) = spinner.kind {
        assert_eq!(info.end_time, 5000);
    } else {
        panic!("expected spinner");
    }
}

#[test]
fn test_hitobject_equality_and_ordering() {
    // eq is based solely on start_time
    let a = hit_object("100,100,1000,1,0");
    let b = hit_object("200,200,1000,1,0"); // same time, different pos
    let c = hit_object("100,100,2000,1,0"); // different time

    assert_eq!(a, b);
    assert_ne!(a, c);

    // ordering by start_time
    assert!(a < c);
    assert!(c > a);
    assert!(!(a < b)); // equal times
}
