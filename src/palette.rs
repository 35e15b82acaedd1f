use vstd::prelude::*;

verus! {

/// A foreground colour, as the scene uses them: a grey or tint given by its
/// channels, or one of the terminal's named colours.
#[derive(Clone, Copy, Debug, PartialEq, Eq, Structural)]
pub enum Color {
    Rgb { r: u8, g: u8, b: u8 },
    Yellow,
    Green,
    Cyan,
    Magenta,
    Red,
    Blue,
    White,
}

pub open spec fn window_on_shade() -> Color {
    Color::Rgb { r: 255, g: 255, b: 0 }
}

/// The colour of lit windows.
pub fn window_on_color() -> (c: Color)
    ensures
        c == window_on_shade(),
{
    Color::Rgb { r: 255, g: 255, b: 0 }
}

pub open spec fn window_off_shade() -> Color {
    Color::Rgb { r: 40, g: 40, b: 40 }
}

/// The colour of dark windows.
pub fn window_off_color() -> (c: Color)
    ensures
        c == window_off_shade(),
{
    Color::Rgb { r: 40, g: 40, b: 40 }
}

pub open spec fn road_shade() -> Color {
    Color::Rgb { r: 20, g: 20, b: 20 }
}

/// The colour of the road.
pub fn road_color() -> (c: Color)
    ensures
        c == road_shade(),
{
    Color::Rgb { r: 20, g: 20, b: 20 }
}

pub open spec fn moon_shade() -> Color {
    Color::Rgb { r: 240, g: 240, b: 240 }
}

/// The colour of the moon.
pub fn moon_color() -> (c: Color)
    ensures
        c == moon_shade(),
{
    Color::Rgb { r: 240, g: 240, b: 240 }
}

pub open spec fn star_shade() -> Color {
    Color::Rgb { r: 255, g: 255, b: 255 }
}

/// The colour of stars.
pub fn star_color() -> (c: Color)
    ensures
        c == star_shade(),
{
    Color::Rgb { r: 255, g: 255, b: 255 }
}

pub open spec fn rain_shade() -> Color {
    Color::Rgb { r: 100, g: 100, b: 150 }
}

/// The colour of rain.
pub fn rain_color() -> (c: Color)
    ensures
        c == rain_shade(),
{
    Color::Rgb { r: 100, g: 100, b: 150 }
}

pub open spec fn snow_shade() -> Color {
    Color::Rgb { r: 200, g: 200, b: 200 }
}

/// The colour of snow.
pub fn snow_color() -> (c: Color)
    ensures
        c == snow_shade(),
{
    Color::Rgb { r: 200, g: 200, b: 200 }
}

pub open spec fn cloud_shade() -> Color {
    Color::Rgb { r: 150, g: 150, b: 150 }
}

/// The colour of clouds.
pub fn cloud_color() -> (c: Color)
    ensures
        c == cloud_shade(),
{
    Color::Rgb { r: 150, g: 150, b: 150 }
}

pub const STAR_GLYPH_COUNT: usize = 4;
pub const SNOWFLAKE_GLYPH_COUNT: usize = 3;
pub const CLOUD_SHAPE_COUNT: usize = 3;
pub const ANTENNA_GLYPH_COUNT: usize = 3;
pub const BUILDING_COLOR_COUNT: usize = 4;
pub const VEHICLE_STYLE_COUNT: usize = 9;

pub open spec fn star_glyph_at(i: int) -> char {
    if i == 0 { '.' } else if i == 1 { '*' } else if i == 2 { '+' } else { '\'' }
}

pub open spec fn is_star_glyph(c: char) -> bool {
    c == '.' || c == '*' || c == '+' || c == '\''
}

/// The `i`-th glyph a star may show.
pub fn star_glyph(i: usize) -> (c: char)
    requires
        i < STAR_GLYPH_COUNT,
    ensures
        c == star_glyph_at(i as int),
        is_star_glyph(c),
{
    if i == 0 { '.' } else if i == 1 { '*' } else if i == 2 { '+' } else { '\'' }
}

pub open spec fn snowflake_glyph_at(i: int) -> char {
    if i == 0 { '*' } else if i == 1 { '.' } else { 'o' }
}

pub open spec fn is_snowflake_glyph(c: char) -> bool {
    c == '*' || c == '.' || c == 'o'
}

/// The `i`-th glyph a snowflake may show.
pub fn snowflake_glyph(i: usize) -> (c: char)
    requires
        i < SNOWFLAKE_GLYPH_COUNT,
    ensures
        c == snowflake_glyph_at(i as int),
        is_snowflake_glyph(c),
{
    if i == 0 { '*' } else if i == 1 { '.' } else { 'o' }
}

pub open spec fn antenna_glyph_at(i: int) -> char {
    if i == 0 { '|' } else if i == 1 { 'Y' } else { 'i' }
}

pub open spec fn is_antenna_glyph(c: char) -> bool {
    c == '|' || c == 'Y' || c == 'i'
}

/// The `i`-th glyph an antenna on a roof may show.
pub fn antenna_glyph(i: usize) -> (c: char)
    requires
        i < ANTENNA_GLYPH_COUNT,
    ensures
        c == antenna_glyph_at(i as int),
        is_antenna_glyph(c),
{
    if i == 0 { '|' } else if i == 1 { 'Y' } else { 'i' }
}

pub open spec fn building_color_at(i: int) -> Color {
    if i == 0 {
        Color::Rgb { r: 60, g: 60, b: 60 }
    } else if i == 1 {
        Color::Rgb { r: 70, g: 70, b: 70 }
    } else if i == 2 {
        Color::Rgb { r: 80, g: 80, b: 80 }
    } else {
        Color::Rgb { r: 90, g: 90, b: 90 }
    }
}

pub open spec fn is_building_color(c: Color) -> bool {
    c == building_color_at(0) || c == building_color_at(1) || c == building_color_at(2)
        || c == building_color_at(3)
}

/// The `i`-th colour a building may have.
pub fn building_color(i: usize) -> (c: Color)
    requires
        i < BUILDING_COLOR_COUNT,
    ensures
        c == building_color_at(i as int),
        is_building_color(c),
{
    if i == 0 {
        Color::Rgb { r: 60, g: 60, b: 60 }
    } else if i == 1 {
        Color::Rgb { r: 70, g: 70, b: 70 }
    } else if i == 2 {
        Color::Rgb { r: 80, g: 80, b: 80 }
    } else {
        Color::Rgb { r: 90, g: 90, b: 90 }
    }
}

/// The glyph, colour, speed (in hundredths of a column per tick; the sign
/// gives the direction) and width on screen (in columns; a pictograph covers
/// two) of the `i`-th vehicle style.
pub open spec fn vehicle_style_at(i: int) -> (Seq<char>, Color, int, int) {
    if i == 0 {
        ("─=≡(°o°)"@, Color::Yellow, 50, 8)
    } else if i == 1 {
        ("[\\__\\_]"@, Color::Green, -30, 7)
    } else if i == 2 {
        ("o-o-o"@, Color::Cyan, 40, 5)
    } else if i == 3 {
        ("[##-##]"@, Color::Magenta, -25, 7)
    } else if i == 4 {
        ("<(o.o)>"@, Color::Red, 20, 7)
    } else if i == 5 {
        ("🚚"@, Color::Blue, -20, 2)
    } else if i == 6 {
        ("🚓"@, Color::White, 35, 2)
    } else if i == 7 {
        ("🚑"@, Color::Red, -40, 2)
    } else {
        ("🚌"@, Color::Green, 28, 2)
    }
}

/// The triple is one of the vehicle styles.
pub open spec fn is_vehicle_style(glyph: Seq<char>, color: Color, speed: int, span: int) -> bool {
    exists|i: int| 0 <= i < VEHICLE_STYLE_COUNT && #[trigger] vehicle_style_at(i) == (glyph, color, speed, span)
}

pub open spec fn cloud_shape_at(i: int) -> Seq<char> {
    if i == 0 {
        "_.-^-._"@
    } else if i == 1 {
        " ~~~"@
    } else {
        "(-.-)"@
    }
}

pub open spec fn is_cloud_shape(s: Seq<char>) -> bool {
    s == cloud_shape_at(0) || s == cloud_shape_at(1) || s == cloud_shape_at(2)
}

/// The `i`-th shape a cloud may have.
pub fn cloud_shape(i: usize) -> (s: &'static str)
    requires
        i < CLOUD_SHAPE_COUNT,
    ensures
        s@ == cloud_shape_at(i as int),
        is_cloud_shape(s@),
{
    if i == 0 {
        "_.-^-._"
    } else if i == 1 {
        " ~~~"
    } else {
        "(-.-)"
    }
}

/// The `i`-th vehicle style: glyph, colour, speed and width on screen.
pub fn vehicle_style(i: usize) -> (r: (&'static str, Color, i32, u16))
    requires
        i < VEHICLE_STYLE_COUNT,
    ensures
        (r.0@, r.1, r.2 as int, r.3 as int) == vehicle_style_at(i as int),
{
    if i == 0 {
        ("─=≡(°o°)", Color::Yellow, 50, 8)
    } else if i == 1 {
        ("[\\__\\_]", Color::Green, -30, 7)
    } else if i == 2 {
        ("o-o-o", Color::Cyan, 40, 5)
    } else if i == 3 {
        ("[##-##]", Color::Magenta, -25, 7)
    } else if i == 4 {
        ("<(o.o)>", Color::Red, 20, 7)
    } else if i == 5 {
        ("🚚", Color::Blue, -20, 2)
    } else if i == 6 {
        ("🚓", Color::White, 35, 2)
    } else if i == 7 {
        ("🚑", Color::Red, -40, 2)
    } else {
        ("🚌", Color::Green, 28, 2)
    }
}

/// Vehicle glyphs cover at most eight columns, and vehicles move at most
/// half a column per tick.
pub proof fn vehicle_styles_are_small(glyph: Seq<char>, color: Color, speed: int, span: int)
    requires
        is_vehicle_style(glyph, color, speed, span),
    ensures
        1 <= span <= 8,
        -50 <= speed <= 50,
{
    let i = choose|i: int| 0 <= i < VEHICLE_STYLE_COUNT && #[trigger] vehicle_style_at(i) == (glyph, color, speed, span);
    assert(vehicle_style_at(i) == (glyph, color, speed, span));
}

/// Cloud shapes are at most seven characters long.
pub proof fn cloud_shapes_are_short(shape: Seq<char>)
    requires
        is_cloud_shape(shape),
    ensures
        shape.len() <= 7,
{
    reveal_strlit("_.-^-._");
    reveal_strlit(" ~~~");
    reveal_strlit("(-.-)");
}

} // verus!
