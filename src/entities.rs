use crate::palette::Color;
use vstd::prelude::*;

verus! {

/// A star of the night sky: a fixed cell and the glyph it shows.
#[derive(Clone, Copy, Debug, PartialEq, Eq, Structural)]
pub struct Star {
    pub x: u16,
    pub y: u16,
    pub glyph: char,
}

/// A raindrop, falling `speed` rows per tick.
#[derive(Clone, Copy, Debug, PartialEq, Eq, Structural)]
pub struct RainDrop {
    pub x: u16,
    pub y: u16,
    pub speed: u16,
}

/// A snowflake, falling `speed_y` rows per tick and drifting `speed_x`
/// columns per tick.
#[derive(Clone, Copy, Debug, PartialEq, Eq, Structural)]
pub struct Snowflake {
    pub x: u16,
    pub y: u16,
    pub speed_y: u16,
    pub speed_x: i8,
    pub glyph: char,
}

/// A cloud drifting right. Its position `x` is kept in hundredths of a
/// column, and it moves `speed` hundredths of a column per tick.
#[derive(Clone, Copy, Debug)]
pub struct Cloud {
    pub x: i32,
    pub y: u16,
    pub shape: &'static str,
    pub speed: u16,
}

/// One window of a building, lit or dark.
#[derive(Clone, Copy, Debug, PartialEq, Eq, Structural)]
pub struct Window {
    pub on: bool,
}

/// A building standing on the road, `x` columns from the left edge.
/// `windows` holds one row per inner floor line; rows of the odd lines hold
/// the windows at the odd inner columns, the others are empty.
#[derive(Debug)]
pub struct Building {
    pub x: u16,
    pub width: u16,
    pub height: u16,
    pub color: Color,
    pub windows: Vec<Vec<Window>>,
    pub has_antenna: bool,
    pub antenna_glyph: char,
}

/// A vehicle on one of the two lanes. Its position `x` is kept in hundredths
/// of a column, and it moves `speed` hundredths of a column per tick: to the
/// right when positive, to the left when negative. Its glyph covers `span`
/// columns on screen.
#[derive(Clone, Copy, Debug)]
pub struct Vehicle {
    pub x: i32,
    pub y: u16,
    pub style: &'static str,
    pub color: Color,
    pub speed: i32,
    pub span: u16,
}

} // verus!
