//! Combo colours.

use vstd::prelude::*;
use crate::text::{dec, push_dec, push_str, string_of};

verus! {

/// An RGB colour.
#[derive(Clone, Copy, Debug, PartialEq, Eq, Structural)]
pub struct Color {
    /// Red, 0 to 255.
    pub red: u8,
    /// Green, 0 to 255.
    pub green: u8,
    /// Blue, 0 to 255.
    pub blue: u8,
}

impl Color {
    /// The red component.
    pub fn red(&self) -> (r: u8)
        ensures
            r == self.red,
    {
        self.red
    }

    /// The green component.
    pub fn green(&self) -> (r: u8)
        ensures
            r == self.green,
    {
        self.green
    }

    /// The blue component.
    pub fn blue(&self) -> (r: u8)
        ensures
            r == self.blue,
    {
        self.blue
    }

    /// The text of `repr`.
    pub open spec fn repr_text(&self) -> Seq<char> {
        "Color(r="@ + dec(self.red as nat) + ", g="@ + dec(self.green as nat) + ", b="@
            + dec(self.blue as nat) + ")"@
    }

    /// `Color(r=255, g=128, b=0)`.
    pub fn repr(&self) -> (r: String)
        ensures
            r@ == self.repr_text(),
    {
        let mut s = string_of("Color(r=");
        push_dec(&mut s, self.red as u64);
        push_str(&mut s, ", g=");
        push_dec(&mut s, self.green as u64);
        push_str(&mut s, ", b=");
        push_dec(&mut s, self.blue as u64);
        push_str(&mut s, ")");
        assert(s@ =~= self.repr_text());
        s
    }
}

/// The text of a colour gives red, then green, then blue, in decimal.
pub proof fn law_color_repr_layout(c: Color)
    ensures
        c.repr_text() == "Color(r="@ + dec(c.red as nat) + ", g="@ + dec(c.green as nat)
            + ", b="@ + dec(c.blue as nat) + ")"@,
{
}

} // verus!
