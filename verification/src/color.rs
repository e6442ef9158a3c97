//! Ring and background colors.
//!
//! Every ring receives a color once, at spawn time, from a constrained
//! random draw: red and green range over the full byte short of 255, blue is
//! confined to a bright band so rings never fade into the dark background.
//! The draw comes from an explicit, seedable generator so a caller can
//! reproduce a run exactly.

use vstd::prelude::*;

verus! {

/// An sRGB color with 8-bit channels.
#[derive(Clone, Copy, Debug, PartialEq, Eq, Structural)]
pub struct Rgb {
    pub red: u8,
    pub green: u8,
    pub blue: u8,
}

#[verifier::external_type_specification]
#[verifier::external_body]
pub struct ExStdRng(rand::rngs::StdRng);

/// Relies on rand's `RngExt::random_range` over `lo..hi`: the sample lies
/// within the half-open range, which is non-empty by the precondition.
#[verifier::external_body]
fn random_in_range(rng: &mut rand::rngs::StdRng, lo: u8, hi: u8) -> (r: u8)
    requires
        lo < hi,
    ensures
        lo <= r < hi,
{
    rand::RngExt::random_range(rng, lo..hi)
}

/// Draws a fresh ring color: red and green anywhere below 255, blue in the
/// bright band from 200 up to (and excluding) 255.
pub fn random_color(rng: &mut rand::rngs::StdRng) -> (c: Rgb)
    ensures
        c.red < 255,
        c.green < 255,
        200 <= c.blue < 255,
{
    let red = random_in_range(rng, 0, 255);
    let green = random_in_range(rng, 0, 255);
    let blue = random_in_range(rng, 200, 255);
    Rgb { red, green, blue }
}

/// The named colors the presentation layer draws with, by their standard
/// CSS names.
#[derive(Clone, Copy, Debug, PartialEq, Eq, Structural)]
pub enum Color {
    Honeydew,
    SteelBlue,
    Black,
}

impl Color {
    /// The color's lowercase CSS name.
    pub open spec fn name_spec(self) -> Seq<char> {
        match self {
            Color::Honeydew => "honeydew"@,
            Color::SteelBlue => "steelblue"@,
            Color::Black => "black"@,
        }
    }

    /// The color's lowercase CSS name.
    pub fn name(self) -> (s: &'static str)
        ensures
            s@ == self.name_spec(),
    {
        match self {
            Color::Honeydew => "honeydew",
            Color::SteelBlue => "steelblue",
            Color::Black => "black",
        }
    }

    /// The standard CSS value of the named color.
    pub open spec fn rgb_spec(self) -> Rgb {
        match self {
            Color::Honeydew => Rgb { red: 240, green: 255, blue: 240 },
            Color::SteelBlue => Rgb { red: 70, green: 130, blue: 180 },
            Color::Black => Rgb { red: 0, green: 0, blue: 0 },
        }
    }

    /// Resolves the color name to its standard CSS value.
    pub fn to_rgb(self) -> (c: Rgb)
        ensures
            c == self.rgb_spec(),
    {
        match self {
            Color::Honeydew => Rgb { red: 240, green: 255, blue: 240 },
            Color::SteelBlue => Rgb { red: 70, green: 130, blue: 180 },
            Color::Black => Rgb { red: 0, green: 0, blue: 0 },
        }
    }
}

} // verus!
