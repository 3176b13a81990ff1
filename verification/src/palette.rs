//! The closed set of colours that a lily pad can take.

use vstd::prelude::*;
use crate::chance::draw_between;

verus! {

/// One of the five colours of the composition.
#[derive(Clone, Copy, Debug, PartialEq, Eq, Structural)]
pub enum Palette {
    One,
    Two,
    Three,
    Four,
    Five,
}

/// A colour as four 8-bit channels.
#[derive(Clone, Copy, Debug, PartialEq, Eq, Structural)]
pub struct Rgba {
    pub red: u8,
    pub green: u8,
    pub blue: u8,
    pub alpha: u8,
}

/// How many colours the palette holds.
pub const PALETTE_SIZE: u32 = 5;

/// How often `random_except` draws before it stops asking chance.
pub const COLOR_RETRIES: u32 = 16;

impl Palette {
    /// The position of a colour in the enumeration, from 0.
    pub open spec fn index(self) -> int {
        match self {
            Palette::One => 0,
            Palette::Two => 1,
            Palette::Three => 2,
            Palette::Four => 3,
            Palette::Five => 4,
        }
    }

    /// The colour that follows this one in the enumeration; the first follows
    /// the last.
    pub open spec fn successor(self) -> Palette {
        match self {
            Palette::One => Palette::Two,
            Palette::Two => Palette::Three,
            Palette::Three => Palette::Four,
            Palette::Four => Palette::Five,
            Palette::Five => Palette::One,
        }
    }

    /// The channels of each colour. All five are opaque.
    pub open spec fn rgba(self) -> Rgba {
        match self {
            Palette::One => Rgba { red: 74, green: 78, blue: 77, alpha: 255 },
            Palette::Two => Rgba { red: 14, green: 154, blue: 167, alpha: 255 },
            Palette::Three => Rgba { red: 61, green: 164, blue: 171, alpha: 255 },
            Palette::Four => Rgba { red: 246, green: 205, blue: 97, alpha: 255 },
            Palette::Five => Rgba { red: 254, green: 138, blue: 113, alpha: 255 },
        }
    }

    /// The colour at a position of the enumeration.
    pub fn from_index(i: u32) -> (c: Palette)
        requires
            i < PALETTE_SIZE,
        ensures
            c.index() == i,
    {
        if i == 0 {
            Palette::One
        } else if i == 1 {
            Palette::Two
        } else if i == 2 {
            Palette::Three
        } else if i == 3 {
            Palette::Four
        } else {
            Palette::Five
        }
    }

    /// The colour that follows this one in the enumeration.
    pub fn next(&self) -> (c: Palette)
        ensures
            c == self.successor(),
            c != *self,
            c.index() == (self.index() + 1) % 5,
    {
        match self {
            Palette::One => Palette::Two,
            Palette::Two => Palette::Three,
            Palette::Three => Palette::Four,
            Palette::Four => Palette::Five,
            Palette::Five => Palette::One,
        }
    }

    /// A colour picked by chance among the five.
    pub fn random() -> (c: Palette) {
        Palette::from_index(draw_between(0, PALETTE_SIZE - 1))
    }

    /// A colour other than this one.
    ///
    /// Draws until chance gives another colour, `COLOR_RETRIES` times at
    /// most; after that many equal draws the successor of this colour is
    /// taken, so that the search always ends.
    pub fn random_except(&self) -> (c: Palette)
        ensures
            c != *self,
    {
        let mut tries: u32 = 0;
        while tries < COLOR_RETRIES
            invariant
                tries <= COLOR_RETRIES,
            decreases COLOR_RETRIES - tries,
        {
            let new = Palette::random();
            if new != *self {
                return new;
            }
            tries = tries + 1;
        }
        self.next()
    }

    /// The channels of this colour.
    pub fn to_rgba(&self) -> (rgba: Rgba)
        ensures
            rgba == self.rgba(),
    {
        match self {
            Palette::One => Rgba { red: 74, green: 78, blue: 77, alpha: 255 },
            Palette::Two => Rgba { red: 14, green: 154, blue: 167, alpha: 255 },
            Palette::Three => Rgba { red: 61, green: 164, blue: 171, alpha: 255 },
            Palette::Four => Rgba { red: 246, green: 205, blue: 97, alpha: 255 },
            Palette::Five => Rgba { red: 254, green: 138, blue: 113, alpha: 255 },
        }
    }
}

} // verus!
