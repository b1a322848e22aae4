//! Gameplay modifiers ("mods") as a set of bit flags.

use vstd::prelude::*;
use crate::text::{digits_value, hex_pad, law_hex_reads_back, push_hex_pad, push_str, string_of};

verus! {

/// Every bit that names a modifier.
pub const ALL_MOD_BITS: u32 = 0x1FFF_FFFF;

/// Keeps only the bits that name a modifier.
pub open spec fn truncate_mod_bits(bits: u32) -> u32 {
    bits & ALL_MOD_BITS
}

/// `bits` holds every bit of `flag`.
pub open spec fn has_flags(bits: u32, flag: u32) -> bool {
    bits & flag == flag
}

/// What the outside parser of mod strings makes of `text` with `delimiter`
/// between the mods: the bits of the mods it read, or nothing.
pub uninterp spec fn mods_from_text(text: Seq<char>, delimiter: Seq<char>) -> Option<u32>;

/// `libosu::data::Mods::from_bits_truncate`, read back with `bits()`: the
/// bitflags source keeps `bits & all()`, where `all()` is the union of the
/// declared flags, bits 0 to 28.
#[verifier::external_body]
fn outside_mods_from_bits_truncate(bits: u32) -> (r: u32)
    ensures
        r == truncate_mod_bits(bits),
{
    libosu::data::Mods::from_bits_truncate(bits).bits()
}

/// `libosu::data::Mods::contains`: the bitflags source tests
/// `self & other == other`.
#[verifier::external_body]
fn outside_mods_contains(bits: u32, flag: u32) -> (r: bool)
    ensures
        r == has_flags(bits, flag),
{
    libosu::data::Mods::from_bits_retain(bits).contains(libosu::data::Mods::from_bits_retain(flag))
}

/// `libosu::data::Mods::parse_from_str`, read back with `bits()`. Its result
/// is named by `mods_from_text`; the source starts from no mods and only adds
/// declared flags, so every bit it returns names a modifier, and an empty
/// text yields nothing. It does not panic.
#[verifier::external_body]
fn outside_mods_parse(text: &str, delimiter: &str) -> (r: Option<u32>)
    ensures
        r == mods_from_text(text@, delimiter@),
        r matches Some(b) ==> truncate_mod_bits(b) == b,
        text@.len() == 0 ==> r is None,
{
    libosu::data::Mods::parse_from_str(text, delimiter).map(|m| m.bits())
}

/// Reading the bits of mods made from some bits, and making mods from them
/// again, changes nothing: keeping only the known bits is idempotent.
pub proof fn law_truncation_idempotent(bits: u32)
    ensures
        truncate_mod_bits(truncate_mod_bits(bits)) == truncate_mod_bits(bits),
{
    assert((bits & 0x1FFF_FFFFu32) & 0x1FFF_FFFFu32 == bits & 0x1FFF_FFFFu32) by (bit_vector);
}

/// Dropping the unknown bits loses no modifier: the mods made from `bits`
/// hold a known flag exactly when `bits` holds it.
pub proof fn law_truncation_keeps_known_flags(bits: u32, flags: u32)
    requires
        truncate_mod_bits(flags) == flags,
    ensures
        has_flags(truncate_mod_bits(bits), flags) == has_flags(bits, flags),
{
    assert(flags & 0x1FFF_FFFFu32 == flags ==> ((bits & 0x1FFF_FFFFu32) & flags == flags <==> bits & flags == flags)) by (bit_vector);
}

/// Each modifier has the bit that osu! gives it: bit 0 for No-Fail up to
/// bit 28 for 2K, one bit each, except 8K, which spans bits 15 to 19.
pub proof fn law_flag_bits()
    ensures
        Mods::NoFail == 1u32 << 0u32,
        Mods::Easy == 1u32 << 1u32,
        Mods::TouchDevice == 1u32 << 2u32,
        Mods::Hidden == 1u32 << 3u32,
        Mods::HardRock == 1u32 << 4u32,
        Mods::SuddenDeath == 1u32 << 5u32,
        Mods::DoubleTime == 1u32 << 6u32,
        Mods::Relax == 1u32 << 7u32,
        Mods::HalfTime == 1u32 << 8u32,
        Mods::Nightcore == 1u32 << 9u32,
        Mods::Flashlight == 1u32 << 10u32,
        Mods::Autoplay == 1u32 << 11u32,
        Mods::SpunOut == 1u32 << 12u32,
        Mods::Relax2 == 1u32 << 13u32,
        Mods::Perfect == 1u32 << 14u32,
        Mods::Key4 == 1u32 << 15u32,
        Mods::Key5 == 1u32 << 16u32,
        Mods::Key6 == 1u32 << 17u32,
        Mods::Key7 == 1u32 << 18u32,
        Mods::Key8 == 1015808u32,
        Mods::FadeIn == 1u32 << 20u32,
        Mods::Random == 1u32 << 21u32,
        Mods::LastMod == 1u32 << 22u32,
        Mods::TargetPractice == 1u32 << 23u32,
        Mods::Key9 == 1u32 << 24u32,
        Mods::Key10 == 1u32 << 25u32,
        Mods::Key1 == 1u32 << 26u32,
        Mods::Key3 == 1u32 << 27u32,
        Mods::Key2 == 1u32 << 28u32,
{
    assert(1u32 << 0u32 == 1u32) by (bit_vector);
    assert(1u32 << 1u32 == 2u32) by (bit_vector);
    assert(1u32 << 2u32 == 4u32) by (bit_vector);
    assert(1u32 << 3u32 == 8u32) by (bit_vector);
    assert(1u32 << 4u32 == 16u32) by (bit_vector);
    assert(1u32 << 5u32 == 32u32) by (bit_vector);
    assert(1u32 << 6u32 == 64u32) by (bit_vector);
    assert(1u32 << 7u32 == 128u32) by (bit_vector);
    assert(1u32 << 8u32 == 256u32) by (bit_vector);
    assert(1u32 << 9u32 == 512u32) by (bit_vector);
    assert(1u32 << 10u32 == 1024u32) by (bit_vector);
    assert(1u32 << 11u32 == 2048u32) by (bit_vector);
    assert(1u32 << 12u32 == 4096u32) by (bit_vector);
    assert(1u32 << 13u32 == 8192u32) by (bit_vector);
    assert(1u32 << 14u32 == 16384u32) by (bit_vector);
    assert(1u32 << 15u32 == 32768u32) by (bit_vector);
    assert(1u32 << 16u32 == 65536u32) by (bit_vector);
    assert(1u32 << 17u32 == 131072u32) by (bit_vector);
    assert(1u32 << 18u32 == 262144u32) by (bit_vector);
    assert(1u32 << 20u32 == 1048576u32) by (bit_vector);
    assert(1u32 << 21u32 == 2097152u32) by (bit_vector);
    assert(1u32 << 22u32 == 4194304u32) by (bit_vector);
    assert(1u32 << 23u32 == 8388608u32) by (bit_vector);
    assert(1u32 << 24u32 == 16777216u32) by (bit_vector);
    assert(1u32 << 25u32 == 33554432u32) by (bit_vector);
    assert(1u32 << 26u32 == 67108864u32) by (bit_vector);
    assert(1u32 << 27u32 == 134217728u32) by (bit_vector);
    assert(1u32 << 28u32 == 268435456u32) by (bit_vector);
}

/// The text of mods shows their bits without loss: reading its eight
/// hexadecimal digits back gives the bits.
pub proof fn law_repr_shows_bits(m: Mods)
    ensures
        m.repr_text() == "Mods(bits=0x"@ + hex_pad(m@ as nat, 8) + ")"@,
        digits_value(hex_pad(m@ as nat, 8), 16) == m@,
        hex_pad(m@ as nat, 8).len() == 8,
{
    law_hex_reads_back(m@ as nat, 8);
    assert(vstd::arithmetic::power::pow(16, 8) == 4294967296) by {
        reveal_with_fuel(vstd::arithmetic::power::pow, 9);
    }
}

/// A set of gameplay modifiers; each associated constant is the bit (or bits)
/// of one modifier.
#[derive(Clone, Copy, Debug, PartialEq, Eq, Structural)]
pub struct Mods {
    bits: u32,
}

impl View for Mods {
    type V = u32;

    closed spec fn view(&self) -> u32 {
        self.bits
    }
}

#[allow(non_upper_case_globals)]
impl Mods {
    /// No-Fail (NF).
    pub const NoFail: u32 = 1;
    /// Easy (EZ).
    pub const Easy: u32 = 2;
    /// Touch Device (TD, formerly No Video, NV).
    pub const TouchDevice: u32 = 4;
    /// Hidden (HD).
    pub const Hidden: u32 = 8;
    /// Hard Rock (HR).
    pub const HardRock: u32 = 16;
    /// Sudden Death (SD).
    pub const SuddenDeath: u32 = 32;
    /// Double Time (DT).
    pub const DoubleTime: u32 = 64;
    /// Relax (RX, RL).
    pub const Relax: u32 = 128;
    /// Half Time (HT).
    pub const HalfTime: u32 = 256;
    /// Nightcore (NC).
    pub const Nightcore: u32 = 512;
    /// Flashlight (FL).
    pub const Flashlight: u32 = 1024;
    /// Autoplay (AU).
    pub const Autoplay: u32 = 2048;
    /// Spun Out (SO).
    pub const SpunOut: u32 = 4096;
    /// Autopilot (AP).
    pub const Relax2: u32 = 8192;
    /// Perfect (PF).
    pub const Perfect: u32 = 16384;
    /// 4 keys (4K).
    pub const Key4: u32 = 32768;
    /// 5 keys (5K).
    pub const Key5: u32 = 65536;
    /// 6 keys (6K).
    pub const Key6: u32 = 131072;
    /// 7 keys (7K).
    pub const Key7: u32 = 262144;
    /// 8 keys (8K); its value spans the bits of 4K to 7K as well.
    pub const Key8: u32 = 1015808;
    /// Fade In (FI).
    pub const FadeIn: u32 = 1048576;
    /// Random (RD).
    pub const Random: u32 = 2097152;
    /// Cinema (CM).
    pub const LastMod: u32 = 4194304;
    /// Target Practice (TP).
    pub const TargetPractice: u32 = 8388608;
    /// 9 keys (9K).
    pub const Key9: u32 = 16777216;
    /// 10 keys.
    pub const Key10: u32 = 33554432;
    /// 1 key (1K).
    pub const Key1: u32 = 67108864;
    /// 3 keys (3K).
    pub const Key3: u32 = 134217728;
    /// 2 keys (2K).
    pub const Key2: u32 = 268435456;

    #[verifier::type_invariant]
    spec fn only_known_bits(self) -> bool {
        truncate_mod_bits(self.bits) == self.bits
    }

    /// The mods named by `bits`; bits that name no mod are dropped.
    pub fn from_bits(bits: u32) -> (r: Mods)
        ensures
            r@ == truncate_mod_bits(bits),
    {
        let b = outside_mods_from_bits_truncate(bits);
        assert(truncate_mod_bits(b) == b) by (bit_vector)
            requires
                b == bits & 0x1FFF_FFFFu32,
        ;
        Mods { bits: b }
    }

    /// The bits of the mods.
    pub fn bits(&self) -> (r: u32)
        ensures
            r == self@,
            truncate_mod_bits(r) == r,
    {
        proof {
            use_type_invariant(self);
        }
        self.bits
    }

    /// Whether every mod whose bit is set in `flags` (one of the flag
    /// constants such as `Mods::Hidden`, or a union of them) is among these mods.
    pub fn contains(&self, flags: u32) -> (r: bool)
        ensures
            r == has_flags(self@, flags),
    {
        outside_mods_contains(self.bits, flags)
    }

    /// Reads mods written as two-letter codes (`"+HD,DT"`) with `delimiter`
    /// between them; `None` where the text is not such a list.
    pub fn parse_from_str(text: &str, delimiter: &str) -> (r: Option<Mods>)
        ensures
            r is Some <==> mods_from_text(text@, delimiter@) is Some,
            r matches Some(m) ==> mods_from_text(text@, delimiter@) == Some(m@),
    {
        match outside_mods_parse(text, delimiter) {
            Some(b) => Some(Mods { bits: b }),
            None => None,
        }
    }

    /// No-Fail.
    pub fn no_fail(&self) -> (r: bool)
        ensures
            r == has_flags(self@, Mods::NoFail),
            r == (self@ & 1u32 != 0),
    {
        let r = outside_mods_contains(self.bits, Self::NoFail);
        let b = self.bits;
        assert((b & 1u32 == 1u32) == (b & 1u32 != 0)) by (bit_vector);
        r
    }

    /// Easy.
    pub fn easy(&self) -> (r: bool)
        ensures
            r == has_flags(self@, Mods::Easy),
            r == (self@ & 2u32 != 0),
    {
        let r = outside_mods_contains(self.bits, Self::Easy);
        let b = self.bits;
        assert((b & 2u32 == 2u32) == (b & 2u32 != 0)) by (bit_vector);
        r
    }

    /// Hidden.
    pub fn hidden(&self) -> (r: bool)
        ensures
            r == has_flags(self@, Mods::Hidden),
            r == (self@ & 8u32 != 0),
    {
        let r = outside_mods_contains(self.bits, Self::Hidden);
        let b = self.bits;
        assert((b & 8u32 == 8u32) == (b & 8u32 != 0)) by (bit_vector);
        r
    }

    /// Hard Rock.
    pub fn hard_rock(&self) -> (r: bool)
        ensures
            r == has_flags(self@, Mods::HardRock),
            r == (self@ & 16u32 != 0),
    {
        let r = outside_mods_contains(self.bits, Self::HardRock);
        let b = self.bits;
        assert((b & 16u32 == 16u32) == (b & 16u32 != 0)) by (bit_vector);
        r
    }

    /// Sudden Death.
    pub fn sudden_death(&self) -> (r: bool)
        ensures
            r == has_flags(self@, Mods::SuddenDeath),
            r == (self@ & 32u32 != 0),
    {
        let r = outside_mods_contains(self.bits, Self::SuddenDeath);
        let b = self.bits;
        assert((b & 32u32 == 32u32) == (b & 32u32 != 0)) by (bit_vector);
        r
    }

    /// Double Time.
    pub fn double_time(&self) -> (r: bool)
        ensures
            r == has_flags(self@, Mods::DoubleTime),
            r == (self@ & 64u32 != 0),
    {
        let r = outside_mods_contains(self.bits, Self::DoubleTime);
        let b = self.bits;
        assert((b & 64u32 == 64u32) == (b & 64u32 != 0)) by (bit_vector);
        r
    }

    /// Relax.
    pub fn relax(&self) -> (r: bool)
        ensures
            r == has_flags(self@, Mods::Relax),
            r == (self@ & 128u32 != 0),
    {
        let r = outside_mods_contains(self.bits, Self::Relax);
        let b = self.bits;
        assert((b & 128u32 == 128u32) == (b & 128u32 != 0)) by (bit_vector);
        r
    }

    /// Half Time.
    pub fn half_time(&self) -> (r: bool)
        ensures
            r == has_flags(self@, Mods::HalfTime),
            r == (self@ & 256u32 != 0),
    {
        let r = outside_mods_contains(self.bits, Self::HalfTime);
        let b = self.bits;
        assert((b & 256u32 == 256u32) == (b & 256u32 != 0)) by (bit_vector);
        r
    }

    /// Nightcore.
    pub fn nightcore(&self) -> (r: bool)
        ensures
            r == has_flags(self@, Mods::Nightcore),
            r == (self@ & 512u32 != 0),
    {
        let r = outside_mods_contains(self.bits, Self::Nightcore);
        let b = self.bits;
        assert((b & 512u32 == 512u32) == (b & 512u32 != 0)) by (bit_vector);
        r
    }

    /// Flashlight.
    pub fn flashlight(&self) -> (r: bool)
        ensures
            r == has_flags(self@, Mods::Flashlight),
            r == (self@ & 1024u32 != 0),
    {
        let r = outside_mods_contains(self.bits, Self::Flashlight);
        let b = self.bits;
        assert((b & 1024u32 == 1024u32) == (b & 1024u32 != 0)) by (bit_vector);
        r
    }

    /// Autoplay.
    pub fn autoplay(&self) -> (r: bool)
        ensures
            r == has_flags(self@, Mods::Autoplay),
            r == (self@ & 2048u32 != 0),
    {
        let r = outside_mods_contains(self.bits, Self::Autoplay);
        let b = self.bits;
        assert((b & 2048u32 == 2048u32) == (b & 2048u32 != 0)) by (bit_vector);
        r
    }

    /// Spun Out.
    pub fn spun_out(&self) -> (r: bool)
        ensures
            r == has_flags(self@, Mods::SpunOut),
            r == (self@ & 4096u32 != 0),
    {
        let r = outside_mods_contains(self.bits, Self::SpunOut);
        let b = self.bits;
        assert((b & 4096u32 == 4096u32) == (b & 4096u32 != 0)) by (bit_vector);
        r
    }

    /// Perfect.
    pub fn perfect(&self) -> (r: bool)
        ensures
            r == has_flags(self@, Mods::Perfect),
            r == (self@ & 16384u32 != 0),
    {
        let r = outside_mods_contains(self.bits, Self::Perfect);
        let b = self.bits;
        assert((b & 16384u32 == 16384u32) == (b & 16384u32 != 0)) by (bit_vector);
        r
    }

    /// The text of `repr`: `Mods(bits=0x` and eight hexadecimal digits.
    pub open spec fn repr_text(self) -> Seq<char> {
        "Mods(bits=0x"@ + hex_pad(self@ as nat, 8) + ")"@
    }

    /// `Mods(bits=0x0000004a)`: the bits in eight lower-case hexadecimal digits.
    pub fn repr(&self) -> (r: String)
        ensures
            r@ == self.repr_text(),
    {
        let mut s = string_of("Mods(bits=0x");
        push_hex_pad(&mut s, self.bits as u64, 8);
        push_str(&mut s, ")");
        s
    }
}

} // verus!
