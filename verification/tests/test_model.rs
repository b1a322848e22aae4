use libosu_py::text::{push_dec, push_hex_pad, push_int, string_of};
use libosu_py::{
    parse_error_message, sample_set_str, Additions, Beatmap, Color, Event, HitObject,
    HitObjectKind, Mode, Mods, SampleInfo, SampleSet, SliderInfo, SliderSplineKind, SpinnerInfo,
    TimingPoint,
};

fn sample() -> SampleInfo {
    SampleInfo {
        sample_set: SampleSet::Soft,
        addition_set: SampleSet::Default,
        custom_index: 0,
        sample_volume: 70,
        filename: String::new(),
    }
}

fn object(x: i32, y: i32, start_time: i32, kind: HitObjectKind) -> HitObject {
    HitObject {
        x,
        y,
        start_time,
        kind,
        new_combo: false,
        skip_color: 0,
        additions: Additions::empty(),
        sample_info: sample(),
    }
}

fn slider() -> SliderInfo {
    SliderInfo {
        kind: SliderSplineKind::Bezier,
        control_points: vec![(300, 200), (400, -10)],
        num_repeats: 2,
    }
}

fn beatmap(objects: Vec<HitObject>) -> Beatmap {
    Beatmap {
        version: 14,
        title: "Title".to_string(),
        title_unicode: "Tïtle".to_string(),
        artist: "Artist".to_string(),
        artist_unicode: "Ärtist".to_string(),
        creator: "Mapper".to_string(),
        difficulty_name: "Insane".to_string(),
        audio_filename: "audio.mp3".to_string(),
        beatmap_id: 1360,
        beatmap_set_id: -1,
        source: "src".to_string(),
        tags: vec!["a".to_string(), "b".to_string()],
        countdown: true,
        letterbox_in_breaks: false,
        mode: Mode::Taiko,
        hit_objects: objects,
        timing_points: vec![
            TimingPoint { time: 410, uninherited: true },
            TimingPoint { time: 900, uninherited: false },
        ],
        colors: vec![Color { red: 1, green: 2, blue: 3 }],
        events: vec![Event::Break { start_time: 10, end_time: 20 }],
    }
}

#[test]
fn decimal_and_hex_text() {
    let mut s = string_of("n=");
    push_dec(&mut s, 0);
    assert_eq!(s, "n=0");
    let mut s = String::new();
    push_dec(&mut s, 18446744073709551615);
    assert_eq!(s, "18446744073709551615");
    let mut s = String::new();
    push_int(&mut s, i64::MIN);
    assert_eq!(s, "-9223372036854775808");
    let mut s = String::new();
    push_int(&mut s, -7);
    assert_eq!(s, "-7");
    let mut s = String::new();
    push_hex_pad(&mut s, 0xbeef, 8);
    assert_eq!(s, "0000beef");
    let mut s = String::new();
    push_hex_pad(&mut s, 0x1_2345_6789, 8);
    assert_eq!(s, "23456789");
}

#[test]
fn color_repr_and_getters() {
    let c = Color { red: 255, green: 128, blue: 0 };
    assert_eq!(c.repr(), "Color(r=255, g=128, b=0)");
    assert_eq!((c.red(), c.green(), c.blue()), (255, 128, 0));
}

#[test]
fn mods_from_bits_drops_unknown_bits() {
    let all = Mods::from_bits(0xFFFF_FFFF);
    assert_eq!(all.bits(), 0x1FFF_FFFF);
    assert_eq!(Mods::from_bits(all.bits()), all);
    let m = Mods::from_bits(72);
    assert_eq!(m.bits(), 72);
    assert!(m.hidden());
    assert!(m.double_time());
    assert!(!m.no_fail());
    assert!(!m.easy());
    assert!(!m.hard_rock());
    assert!(!m.sudden_death());
    assert!(!m.relax());
    assert!(!m.half_time());
    assert!(!m.nightcore());
    assert!(!m.flashlight());
    assert!(!m.autoplay());
    assert!(!m.spun_out());
    assert!(!m.perfect());
    assert!(m.contains(Mods::Hidden | Mods::DoubleTime));
    assert!(!m.contains(Mods::Hidden | Mods::Easy));
    assert_eq!(m.repr(), "Mods(bits=0x00000048)");
    assert_eq!(Mods::from_bits(0).repr(), "Mods(bits=0x00000000)");
    assert_eq!(all.repr(), "Mods(bits=0x1fffffff)");
}

#[test]
fn mods_parse_reads_codes() {
    assert_eq!(Mods::parse_from_str("+HD", "").map(|m| m.bits()), Some(8));
    assert_eq!(Mods::parse_from_str("+EZDT", ","), None);
    assert_eq!(Mods::parse_from_str("+EZ,DT", ",").map(|m| m.bits()), Some(2 | 64));
    assert_eq!(
        Mods::parse_from_str("4K|FI|RD", "|").map(|m| m.bits()),
        Some(32768 | 1048576 | 2097152)
    );
    assert_eq!(Mods::parse_from_str("", ","), None);
    assert_eq!(Mods::parse_from_str("hd", "").map(|m| m.bits()), Some(8));
}

#[test]
fn additions_flags_and_repr() {
    assert_eq!(Additions::from_bits(1), None);
    assert_eq!(Additions::from_bits(16), None);
    let none = Additions::from_bits(0).unwrap();
    assert_eq!(none.repr(), "Additions(none)");
    let wc = Additions::from_bits(2 | 8).unwrap();
    assert!(wc.whistle());
    assert!(!wc.finish());
    assert!(wc.clap());
    assert_eq!(wc.bits(), 10);
    assert_eq!(wc.repr(), "Additions(WHISTLE|CLAP)");
    assert_eq!(Additions::from_bits(4).unwrap().repr(), "Additions(FINISH)");
    assert_eq!(Additions::from_bits(14).unwrap().repr(), "Additions(WHISTLE|FINISH|CLAP)");
    assert_eq!(Additions::from_bits(12).unwrap().repr(), "Additions(FINISH|CLAP)");
    assert_eq!(Additions::empty().bits(), 0);
}

#[test]
fn sample_info_names_and_repr() {
    assert_eq!(sample_set_str(SampleSet::Default), "default");
    assert_eq!(sample_set_str(SampleSet::Normal), "normal");
    assert_eq!(sample_set_str(SampleSet::Soft), "soft");
    assert_eq!(sample_set_str(SampleSet::Drum), "drum");
    let mut s = sample();
    s.sample_volume = -5;
    s.filename = "hit.wav".to_string();
    s.custom_index = 3;
    assert_eq!(s.repr(), "SampleInfo(sample_set=soft, addition_set=default, volume=-5)");
    assert_eq!(s.sample_set(), "soft");
    assert_eq!(s.addition_set(), "default");
    assert_eq!(s.custom_index(), 3);
    assert_eq!(s.sample_volume(), -5);
    assert_eq!(s.filename(), "hit.wav");
}

#[test]
fn slider_and_spinner() {
    let s = slider();
    assert_eq!(s.kind(), "bezier");
    assert_eq!(s.num_repeats(), 2);
    assert_eq!(s.control_points(), vec![(300, 200), (400, -10)]);
    assert_eq!(
        s.repr("140.0"),
        "SliderInfo(kind=bezier, repeats=2, length=140.0, control_points=2)"
    );
    let sp = SpinnerInfo { end_time: 5000 };
    assert_eq!(sp.end_time(), 5000);
    assert_eq!(sp.repr(), "SpinnerInfo(end_time=5000ms)");
    assert_eq!(SpinnerInfo { end_time: -1 }.repr(), "SpinnerInfo(end_time=-1ms)");
}

#[test]
fn hit_object_accessors_and_repr() {
    let c = object(256, 192, 1000, HitObjectKind::Circle);
    assert_eq!(c.kind(), "circle");
    assert_eq!(c.repr(), "HitObject(kind=circle, x=256, y=192, t=1000ms)");
    assert!(c.slider_info().is_none());
    assert!(c.spinner_info().is_none());
    assert!(c.is_circle() && !c.is_slider() && !c.is_spinner());
    let s = object(-5, 0, 3000, HitObjectKind::Slider(slider()));
    assert_eq!(s.kind(), "slider");
    assert_eq!(s.repr(), "HitObject(kind=slider, x=-5, y=0, t=3000ms)");
    assert_eq!(s.slider_info().unwrap().num_repeats, 2);
    assert!(s.is_slider());
    let p = object(1, 2, 4000, HitObjectKind::Spinner(SpinnerInfo { end_time: 5000 }));
    assert_eq!(p.kind(), "spinner");
    assert_eq!(p.spinner_info(), Some(SpinnerInfo { end_time: 5000 }));
    assert!(p.is_spinner());
    assert_eq!((p.x(), p.y(), p.start_time(), p.new_combo(), p.skip_color()), (1, 2, 4000, false, 0));
    assert_eq!(p.additions().bits(), 0);
    assert_eq!(p.sample_info().sample_volume, 70);
}

#[test]
fn hit_objects_order_by_time_only() {
    let a = object(0, 0, 10, HitObjectKind::Circle);
    let b = object(5, 5, 10, HitObjectKind::Spinner(SpinnerInfo { end_time: 20 }));
    let c = object(0, 0, 11, HitObjectKind::Circle);
    assert!(a == b);
    assert!(a <= b && a >= b);
    assert!(a < c && b < c && c > b);
    assert_eq!(a.partial_cmp(&c), Some(std::cmp::Ordering::Less));
}

#[test]
fn events_accessors_and_repr() {
    let bg = Event::Background { filename: "bg.jpg".to_string() };
    assert_eq!(bg.kind(), "background");
    assert_eq!(bg.background_filename(), Some("bg.jpg".to_string()));
    assert_eq!(bg.video_filename(), None);
    assert_eq!(bg.repr(), "Event::Background(bg.jpg)");
    let v = Event::Video { filename: "v.mp4".to_string(), start_time: -200 };
    assert_eq!(v.kind(), "video");
    assert_eq!(v.video_filename(), Some("v.mp4".to_string()));
    assert_eq!(v.video_start_time(), Some(-200));
    assert_eq!(v.break_start_time(), None);
    assert_eq!(v.repr(), "Event::Video(v.mp4, t=-200)");
    let br = Event::Break { start_time: 1000, end_time: 2000 };
    assert_eq!(br.kind(), "break");
    assert_eq!(br.break_start_time(), Some(1000));
    assert_eq!(br.break_end_time(), Some(2000));
    assert_eq!(br.background_filename(), None);
    assert_eq!(br.repr(), "Event::Break(1000ms-2000ms)");
    assert_eq!(Event::Storyboard.kind(), "storyboard");
    assert_eq!(Event::Storyboard.repr(), "Event::Storyboard(...)");
    assert_eq!(Event::Unknown.kind(), "unknown");
    assert_eq!(Event::Unknown.repr(), "Event::Unknown");
}

#[test]
fn timing_point_repr() {
    let u = TimingPoint { time: 410, uninherited: true };
    assert_eq!(u.time(), 410);
    assert!(u.is_uninherited());
    assert_eq!(u.repr("175.00"), "TimingPoint(t=410ms, bpm=175.00)");
    let i = TimingPoint { time: -3, uninherited: false };
    assert!(!i.is_uninherited());
    assert_eq!(i.repr("ignored"), "TimingPoint(t=-3ms, inherited)");
}

#[test]
fn beatmap_counts_and_repr() {
    let m = beatmap(vec![
        object(0, 0, 1, HitObjectKind::Circle),
        object(0, 0, 2, HitObjectKind::Slider(slider())),
        object(0, 0, 3, HitObjectKind::Circle),
        object(0, 0, 4, HitObjectKind::Spinner(SpinnerInfo { end_time: 9 })),
        object(0, 0, 5, HitObjectKind::Circle),
    ]);
    assert_eq!(m.hit_object_count(), 5);
    assert_eq!(m.circle_count(), 3);
    assert_eq!(m.slider_count(), 1);
    assert_eq!(m.spinner_count(), 1);
    assert_eq!(m.circle_count() + m.slider_count() + m.spinner_count(), m.hit_object_count());
    assert_eq!(m.repr(), "Beatmap(Artist - Title [Insane] by Mapper)");
    assert_eq!(m.mode(), "taiko");
    assert_eq!(m.version(), 14);
    assert_eq!(m.title(), "Title");
    assert_eq!(m.title_unicode(), "Tïtle");
    assert_eq!(m.artist(), "Artist");
    assert_eq!(m.artist_unicode(), "Ärtist");
    assert_eq!(m.creator(), "Mapper");
    assert_eq!(m.difficulty_name(), "Insane");
    assert_eq!(m.audio_filename(), "audio.mp3");
    assert_eq!((m.beatmap_id(), m.beatmap_set_id()), (1360, -1));
    assert_eq!(m.source(), "src");
    assert_eq!(m.tags(), vec!["a".to_string(), "b".to_string()]);
    assert!(m.countdown());
    assert!(!m.letterbox_in_breaks());
    assert_eq!(m.hit_objects().len(), 5);
    assert_eq!(m.timing_points(), m.timing_points.clone());
    assert_eq!(m.colors(), vec![Color { red: 1, green: 2, blue: 3 }]);
    assert_eq!(m.events().len(), 1);
    let empty = beatmap(Vec::new());
    assert_eq!(empty.circle_count(), 0);
    assert_eq!(empty.hit_object_count(), 0);
}

#[test]
fn parse_error_text() {
    assert_eq!(
        parse_error_message(12, "error parsing int: invalid digit found in string"),
        "beatmap parse error at line 12: error parsing int: invalid digit found in string"
    );
    assert_eq!(parse_error_message(0, ""), "beatmap parse error at line 0: ");
}
