//! Hitsound samples and additions.

use vstd::prelude::*;
use crate::text::{dec_int, push_int, push_str, string_of};

verus! {

/// A set of hitsound samples.
#[derive(Clone, Copy, Debug, PartialEq, Eq, Structural)]
pub enum SampleSet {
    Default,
    Normal,
    Soft,
    Drum,
}

/// The name a sample set is shown by.
pub open spec fn sample_set_name(s: SampleSet) -> Seq<char> {
    match s {
        SampleSet::Default => "default"@,
        SampleSet::Normal => "normal"@,
        SampleSet::Soft => "soft"@,
        SampleSet::Drum => "drum"@,
    }
}

/// The name of a sample set: `default`, `normal`, `soft` or `drum`.
pub fn sample_set_str(s: SampleSet) -> (r: &'static str)
    ensures
        r@ == sample_set_name(s),
{
    match s {
        SampleSet::Default => "default",
        SampleSet::Normal => "normal",
        SampleSet::Soft => "soft",
        SampleSet::Drum => "drum",
    }
}

/// Every bit that names an addition: whistle, finish and clap.
pub const ALL_ADDITION_BITS: u32 = 0b1110;

/// `bits` holds every bit of `flag`.
pub open spec fn has_addition(bits: u32, flag: u32) -> bool {
    bits & flag == flag
}

/// `libosu::hitsounds::Additions::from_bits`: the bitflags source returns
/// `Some` exactly when no bit outside the declared flags (2, 4, 8) is set,
/// and then keeps the bits as they are.
#[verifier::external_body]
fn outside_additions_from_bits(bits: u32) -> (r: Option<u32>)
    ensures
        r is Some <==> bits & ALL_ADDITION_BITS == bits,
        r matches Some(b) ==> b == bits,
{
    libosu::hitsounds::Additions::from_bits(bits).map(|a| a.bits())
}

/// `libosu::hitsounds::Additions::contains`: the bitflags source tests
/// `self & other == other`.
#[verifier::external_body]
fn outside_additions_contains(bits: u32, flag: u32) -> (r: bool)
    ensures
        r == has_addition(bits, flag),
{
    libosu::hitsounds::Additions::from_bits_retain(bits).contains(
        libosu::hitsounds::Additions::from_bits_retain(flag),
    )
}

/// The hitsound additions (whistle, finish, clap) of a hit object.
#[derive(Clone, Copy, Debug, PartialEq, Eq, Structural)]
pub struct Additions {
    bits: u32,
}

impl View for Additions {
    type V = u32;

    closed spec fn view(&self) -> u32 {
        self.bits
    }
}

/// The names of the additions that `bits` holds, in the order whistle,
/// finish, clap.
pub open spec fn addition_names(bits: u32) -> Seq<Seq<char>> {
    (if has_addition(bits, 2) { seq!["WHISTLE"@] } else { Seq::empty() })
        + (if has_addition(bits, 4) { seq!["FINISH"@] } else { Seq::empty() })
        + (if has_addition(bits, 8) { seq!["CLAP"@] } else { Seq::empty() })
}

/// The parts joined, with `|` between each two.
pub open spec fn join_bar(parts: Seq<Seq<char>>) -> Seq<char>
    decreases parts.len(),
{
    if parts.len() == 0 {
        Seq::empty()
    } else if parts.len() == 1 {
        parts[0]
    } else {
        join_bar(parts.drop_last()) + "|"@ + parts.last()
    }
}

#[allow(non_upper_case_globals)]
impl Additions {
    /// Whistle.
    pub const WHISTLE: u32 = 2;
    /// Finish (cymbal).
    pub const FINISH: u32 = 4;
    /// Clap.
    pub const CLAP: u32 = 8;

    #[verifier::type_invariant]
    spec fn only_known_bits(self) -> bool {
        self.bits & ALL_ADDITION_BITS == self.bits
    }

    /// The additions named by `bits`; `None` when a bit names no addition.
    pub fn from_bits(bits: u32) -> (r: Option<Additions>)
        ensures
            r is Some <==> bits & ALL_ADDITION_BITS == bits,
            r matches Some(a) ==> a@ == bits,
    {
        match outside_additions_from_bits(bits) {
            Some(b) => Some(Additions { bits: b }),
            None => None,
        }
    }

    /// No addition.
    pub fn empty() -> (r: Additions)
        ensures
            r@ == 0,
    {
        assert(0u32 & 0b1110u32 == 0u32) by (bit_vector);
        Additions { bits: 0 }
    }

    /// The bits of the additions.
    pub fn bits(&self) -> (r: u32)
        ensures
            r == self@,
            r & ALL_ADDITION_BITS == r,
    {
        proof {
            use_type_invariant(self);
        }
        self.bits
    }

    /// Whether the whistle is played.
    pub fn whistle(&self) -> (r: bool)
        ensures
            r == has_addition(self@, 2),
    {
        outside_additions_contains(self.bits, Self::WHISTLE)
    }

    /// Whether the finish is played.
    pub fn finish(&self) -> (r: bool)
        ensures
            r == has_addition(self@, 4),
    {
        outside_additions_contains(self.bits, Self::FINISH)
    }

    /// Whether the clap is played.
    pub fn clap(&self) -> (r: bool)
        ensures
            r == has_addition(self@, 8),
    {
        outside_additions_contains(self.bits, Self::CLAP)
    }

    /// The text of `repr`.
    pub open spec fn repr_text(self) -> Seq<char> {
        if addition_names(self@).len() == 0 {
            "Additions(none)"@
        } else {
            "Additions("@ + join_bar(addition_names(self@)) + ")"@
        }
    }

    /// `Additions(WHISTLE|CLAP)`, or `Additions(none)` when there is none.
    pub fn repr(&self) -> (r: String)
        ensures
            r@ == self.repr_text(),
    {
        let w = self.whistle();
        let f = self.finish();
        let c = self.clap();
        let ghost names = addition_names(self@);
        if !w && !f && !c {
            assert(names =~= Seq::<Seq<char>>::empty());
            return string_of("Additions(none)");
        }
        let mut s = string_of("Additions(");
        let ghost mut shown: Seq<Seq<char>> = Seq::empty();
        if w {
            push_str(&mut s, "WHISTLE");
            proof {
                assert(shown.push("WHISTLE"@) =~= seq!["WHISTLE"@]);
                shown = shown.push("WHISTLE"@);
            }
        }
        assert(s@ =~= "Additions("@ + join_bar(shown));
        if f {
            let ghost before = shown;
            if w {
                push_str(&mut s, "|");
            }
            push_str(&mut s, "FINISH");
            proof {
                assert(before.push("FINISH"@).drop_last() =~= before);
                shown = before.push("FINISH"@);
                if before.len() == 0 {
                    assert(shown =~= seq!["FINISH"@]);
                }
            }
            assert(s@ =~= "Additions("@ + join_bar(shown));
        }
        if c {
            let ghost before = shown;
            if w || f {
                push_str(&mut s, "|");
            }
            push_str(&mut s, "CLAP");
            proof {
                assert(before.push("CLAP"@).drop_last() =~= before);
                shown = before.push("CLAP"@);
                if before.len() == 0 {
                    assert(shown =~= seq!["CLAP"@]);
                }
            }
            assert(s@ =~= "Additions("@ + join_bar(shown));
        }
        push_str(&mut s, ")");
        assert(shown =~= names);
        assert(s@ =~= self.repr_text());
        s
    }
}

/// Each sample set is shown by its own name.
pub proof fn law_sample_set_names()
    ensures
        sample_set_name(SampleSet::Default) == "default"@,
        sample_set_name(SampleSet::Normal) == "normal"@,
        sample_set_name(SampleSet::Soft) == "soft"@,
        sample_set_name(SampleSet::Drum) == "drum"@,
{
}

/// The additions are listed in the order whistle (bit 2), finish (bit 4),
/// clap (bit 8), each exactly when its bit is set, and joined with `|`.
pub proof fn law_addition_list(bits: u32)
    ensures
        addition_names(bits).len() <= 3,
        has_addition(bits, 2) ==> addition_names(bits)[0] == "WHISTLE"@,
        !has_addition(bits, 2) && has_addition(bits, 4) ==> addition_names(bits)[0] == "FINISH"@,
        !has_addition(bits, 2) && !has_addition(bits, 4) && has_addition(bits, 8)
            ==> addition_names(bits) == seq!["CLAP"@],
        has_addition(bits, 2) && has_addition(bits, 4) && has_addition(bits, 8)
            ==> addition_names(bits) == seq!["WHISTLE"@, "FINISH"@, "CLAP"@],
        has_addition(bits, 8) ==> addition_names(bits).last() == "CLAP"@,
        !has_addition(bits, 8) && has_addition(bits, 4) ==> addition_names(bits).last() == "FINISH"@,
        join_bar(seq!["WHISTLE"@]) == "WHISTLE"@,
        join_bar(seq!["WHISTLE"@, "CLAP"@]) == "WHISTLE"@ + "|"@ + "CLAP"@,
        join_bar(seq!["WHISTLE"@, "FINISH"@, "CLAP"@]) == "WHISTLE"@ + "|"@ + "FINISH"@ + "|"@
            + "CLAP"@,
{
    let n = addition_names(bits);
    let w = seq!["WHISTLE"@];
    let wc = seq!["WHISTLE"@, "CLAP"@];
    let wf = seq!["WHISTLE"@, "FINISH"@];
    let wfc = seq!["WHISTLE"@, "FINISH"@, "CLAP"@];
    assert(wc.drop_last() =~= w);
    assert(wf.drop_last() =~= w);
    assert(wfc.drop_last() =~= wf);
    assert(join_bar(w) == "WHISTLE"@);
    assert(join_bar(wc) == join_bar(w) + "|"@ + "CLAP"@);
    assert(join_bar(wf) == join_bar(w) + "|"@ + "FINISH"@);
    assert(join_bar(wfc) == join_bar(wf) + "|"@ + "CLAP"@);
    assert(join_bar(wfc) =~= "WHISTLE"@ + "|"@ + "FINISH"@ + "|"@ + "CLAP"@);
    assert(seq!["WHISTLE"@, "FINISH"@, "CLAP"@].drop_last() =~= seq!["WHISTLE"@, "FINISH"@]);
    assert(seq!["WHISTLE"@, "FINISH"@].drop_last() =~= seq!["WHISTLE"@]);
    if has_addition(bits, 2) && has_addition(bits, 4) && has_addition(bits, 8) {
        assert(n =~= seq!["WHISTLE"@, "FINISH"@, "CLAP"@]);
    }
    if !has_addition(bits, 2) && !has_addition(bits, 4) && has_addition(bits, 8) {
        assert(n =~= seq!["CLAP"@]);
    }
}

/// The text of a sample gives its sample set, then its addition set, then
/// its volume.
pub proof fn law_sample_info_repr_layout(s: SampleInfo)
    ensures
        s.repr_text() == "SampleInfo(sample_set="@ + sample_set_name(s.sample_set)
            + ", addition_set="@ + sample_set_name(s.addition_set) + ", volume="@
            + dec_int(s.sample_volume as int) + ")"@,
{
}

/// The text of additions names each addition that is played, once, and says
/// `none` exactly when none is played.
pub proof fn law_repr_names_each_addition(a: Additions)
    ensures
        addition_names(a@).len() == (if has_addition(a@, 2) { 1int } else { 0 })
            + (if has_addition(a@, 4) { 1int } else { 0 }) + (if has_addition(a@, 8) { 1int } else { 0 }),
        a.repr_text() == "Additions(none)"@ <==> (!has_addition(a@, 2) && !has_addition(a@, 4)
            && !has_addition(a@, 8)),
{
    reveal_strlit("Additions(none)");
    reveal_strlit("Additions(");
    reveal_strlit("WHISTLE");
    reveal_strlit("FINISH");
    reveal_strlit("CLAP");
    reveal_strlit(")");
    let names = addition_names(a@);
    if names.len() > 0 {
        let t = a.repr_text();
        assert(t == "Additions("@ + join_bar(names) + ")"@);
        assert(t[9] == '(');
        assert("Additions(none)"@[9] == '(');
        assert(names[0].len() > 0) by {
            assert(names[0] == "WHISTLE"@ || names[0] == "FINISH"@ || names[0] == "CLAP"@);
        }
        lemma_join_bar_starts_with(names);
        assert(t[10] == names[0][0]);
        assert("Additions(none)"@[10] == 'n');
        assert(names[0][0] != 'n');
    }
}

/// The joined text starts with the first part.
proof fn lemma_join_bar_starts_with(parts: Seq<Seq<char>>)
    requires
        parts.len() > 0,
        parts[0].len() > 0,
    ensures
        join_bar(parts).len() > 0,
        join_bar(parts)[0] == parts[0][0],
    decreases parts.len(),
{
    if parts.len() > 1 {
        lemma_join_bar_starts_with(parts.drop_last());
    }
}

/// The sample that plays the hitsound of a hit object.
#[derive(Clone, Debug)]
pub struct SampleInfo {
    /// The sample set of the hitsound.
    pub sample_set: SampleSet,
    /// The sample set of the additions.
    pub addition_set: SampleSet,
    /// Index of the custom sample.
    pub custom_index: i32,
    /// Volume, 5 to 100.
    pub sample_volume: i32,
    /// Name of a custom sample file.
    pub filename: String,
}

impl SampleInfo {
    /// The name of the sample set.
    pub fn sample_set(&self) -> (r: &'static str)
        ensures
            r@ == sample_set_name(self.sample_set),
    {
        sample_set_str(self.sample_set)
    }

    /// The name of the addition sample set.
    pub fn addition_set(&self) -> (r: &'static str)
        ensures
            r@ == sample_set_name(self.addition_set),
    {
        sample_set_str(self.addition_set)
    }

    /// The custom sample index.
    pub fn custom_index(&self) -> (r: i32)
        ensures
            r == self.custom_index,
    {
        self.custom_index
    }

    /// The volume.
    pub fn sample_volume(&self) -> (r: i32)
        ensures
            r == self.sample_volume,
    {
        self.sample_volume
    }

    /// The custom sample file name.
    pub fn filename(&self) -> (r: &str)
        ensures
            r@ == self.filename@,
    {
        self.filename.as_str()
    }

    /// The text of `repr`.
    pub open spec fn repr_text(&self) -> Seq<char> {
        "SampleInfo(sample_set="@ + sample_set_name(self.sample_set) + ", addition_set="@
            + sample_set_name(self.addition_set) + ", volume="@ + dec_int(self.sample_volume as int)
            + ")"@
    }

    /// `SampleInfo(sample_set=soft, addition_set=default, volume=70)`.
    pub fn repr(&self) -> (r: String)
        ensures
            r@ == self.repr_text(),
    {
        let mut s = string_of("SampleInfo(sample_set=");
        push_str(&mut s, self.sample_set());
        push_str(&mut s, ", addition_set=");
        push_str(&mut s, self.addition_set());
        push_str(&mut s, ", volume=");
        push_int(&mut s, self.sample_volume as i64);
        push_str(&mut s, ")");
        assert(s@ =~= self.repr_text());
        s
    }
}

} // verus!
