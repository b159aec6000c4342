use vstd::prelude::*;

verus! {

/// An RGBA colour with one byte per channel.
#[derive(Debug, Clone, Copy, PartialEq, Eq, Structural)]
pub struct Color {
    pub r: u8,
    pub g: u8,
    pub b: u8,
    pub a: u8,
}

/// The lowercase form of a string, as `str::to_lowercase` computes it.
pub uninterp spec fn lower_of(s: Seq<char>) -> Seq<char>;

/// Relies on `str::to_lowercase`: its result is a function of the characters alone.
#[verifier::external_body]
fn to_lowercase(s: &str) -> (r: String)
    ensures
        r@ == lower_of(s@),
{
    s.to_lowercase()
}

pub open spec fn spec_black() -> Color {
    Color { r: 0, g: 0, b: 0, a: 255 }
}

pub open spec fn spec_red() -> Color {
    Color { r: 255, g: 0, b: 0, a: 255 }
}

pub open spec fn spec_blue() -> Color {
    Color { r: 0, g: 0, b: 255, a: 255 }
}

/// The colour a lowercase name stands for: red and blue are known, any other name is black.
pub open spec fn color_named(name: Seq<char>) -> Color {
    if name == "red"@ {
        spec_red()
    } else if name == "blue"@ {
        spec_blue()
    } else {
        spec_black()
    }
}

impl Color {
    pub fn new(r: u8, g: u8, b: u8, a: u8) -> (c: Color)
        ensures
            c == (Color { r, g, b, a }),
    {
        Color { r, g, b, a }
    }

    pub fn black() -> (c: Color)
        ensures
            c == spec_black(),
    {
        Color::new(0, 0, 0, 255)
    }

    pub fn red() -> (c: Color)
        ensures
            c == spec_red(),
    {
        Color::new(255, 0, 0, 255)
    }

    pub fn blue() -> (c: Color)
        ensures
            c == spec_blue(),
    {
        Color::new(0, 0, 255, 255)
    }

    /// The colour that an already lowercase name stands for.
    pub fn from_lowercase(name: &str) -> (c: Color)
        ensures
            c == color_named(name@),
    {
        let name = name.to_owned();
        if name == "red".to_owned() {
            Color::red()
        } else if name == "blue".to_owned() {
            Color::blue()
        } else {
            Color::black()
        }
    }

    /// The colour a name stands for, whatever its case.
    pub fn from_str(color_str: &str) -> (c: Color)
        ensures
            c == color_named(lower_of(color_str@)),
    {
        let lower = to_lowercase(color_str);
        Color::from_lowercase(lower.as_str())
    }
}

} // verus!
