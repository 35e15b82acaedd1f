use crate::entities::{Building, Cloud, RainDrop, Snowflake, Star, Vehicle, Window};
use crate::generate::{grid_shaped, window_row_len};
use crate::palette::{
    cloud_color, cloud_shade, moon_color, moon_shade, rain_color, rain_shade,
    road_color, road_shade, snow_color, snow_shade, star_color, star_shade, window_off_color,
    window_off_shade, window_on_color, window_on_shade, Color,
};
use vstd::prelude::*;

verus! {

/// What a paint operation writes: one glyph or a string.
#[derive(Clone, Copy, Debug)]
pub enum Mark {
    Glyph(char),
    Text(&'static str),
}

/// Writes `mark` in `color` with its first cell at column `col`, row `row`.
#[derive(Clone, Copy, Debug)]
pub struct PaintOp {
    pub col: u32,
    pub row: u32,
    pub color: Color,
    pub mark: Mark,
}

/// The column a position in hundredths of a column is drawn at: the whole
/// columns, or the first column for a position left of the screen.
pub open spec fn column_of(x: int) -> int {
    if x < 0 {
        0
    } else {
        x / 100
    }
}

fn screen_column(x: i32) -> (c: u32)
    ensures
        c == column_of(x as int),
{
    if x < 0 {
        0
    } else {
        (x / 100) as u32
    }
}

pub open spec fn cloud_op(c: Cloud) -> PaintOp {
    PaintOp { col: column_of(c.x as int) as u32, row: c.y as u32, color: cloud_shade(), mark: Mark::Text(c.shape) }
}

/// Paints each cloud at its column and row.
pub fn paint_clouds(out: &mut Vec<PaintOp>, clouds: &Vec<Cloud>)
    ensures
        final(out)@ == old(out)@ + clouds@.map_values(|c: Cloud| cloud_op(c)),
{
    let ghost start = out@;
    let mut i: usize = 0;
    while i < clouds.len()
        invariant
            i <= clouds@.len(),
            out@ == start + clouds@.subrange(0, i as int).map_values(|c: Cloud| cloud_op(c)),
        decreases clouds@.len() - i,
    {
        let c = clouds[i];
        out.push(PaintOp { col: screen_column(c.x), row: c.y as u32, color: cloud_color(), mark: Mark::Text(c.shape) });
        assert(clouds@.subrange(0, i + 1).map_values(|c: Cloud| cloud_op(c)) =~= clouds@.subrange(0, i as int).map_values(
            |c: Cloud| cloud_op(c),
        ).push(cloud_op(c)));
        i += 1;
    }
    assert(clouds@.subrange(0, clouds@.len() as int) == clouds@);
}

pub open spec fn star_op(s: Star) -> PaintOp {
    PaintOp { col: s.x as u32, row: s.y as u32, color: star_shade(), mark: Mark::Glyph(s.glyph) }
}

/// Paints each star's glyph on its cell.
pub fn paint_stars(out: &mut Vec<PaintOp>, stars: &Vec<Star>)
    ensures
        final(out)@ == old(out)@ + stars@.map_values(|s: Star| star_op(s)),
{
    let ghost start = out@;
    let mut i: usize = 0;
    while i < stars.len()
        invariant
            i <= stars@.len(),
            out@ == start + stars@.subrange(0, i as int).map_values(|s: Star| star_op(s)),
        decreases stars@.len() - i,
    {
        let s = stars[i];
        out.push(PaintOp { col: s.x as u32, row: s.y as u32, color: star_color(), mark: Mark::Glyph(s.glyph) });
        assert(stars@.subrange(0, i + 1).map_values(|s: Star| star_op(s)) =~= stars@.subrange(0, i as int).map_values(
            |s: Star| star_op(s),
        ).push(star_op(s)));
        i += 1;
    }
    assert(stars@.subrange(0, stars@.len() as int) == stars@);
}

/// The three lines of the moon, 15 columns left of the right edge.
pub open spec fn moon_ops(term_width: int) -> Seq<PaintOp> {
    let col = (term_width - 15) as u32;
    seq![
        PaintOp { col, row: 1, color: moon_shade(), mark: Mark::Text("  ,'.'.") },
        PaintOp { col, row: 2, color: moon_shade(), mark: Mark::Text(" ,'. ..'.") },
        PaintOp { col, row: 3, color: moon_shade(), mark: Mark::Text(".' .. '. '.") },
    ]
}

/// Paints the moon near the top right corner.
pub fn paint_moon(out: &mut Vec<PaintOp>, term_width: u16)
    requires
        term_width >= 15,
    ensures
        final(out)@ == old(out)@ + moon_ops(term_width as int),
{
    let col = (term_width - 15) as u32;
    let color = moon_color();
    out.push(PaintOp { col, row: 1, color, mark: Mark::Text("  ,'.'.") });
    out.push(PaintOp { col, row: 2, color, mark: Mark::Text(" ,'. ..'.") });
    out.push(PaintOp { col, row: 3, color, mark: Mark::Text(".' .. '. '.") });
    assert(final(out)@ =~= old(out)@ + moon_ops(term_width as int));
}

pub open spec fn road_op(col: int, row: int) -> PaintOp {
    PaintOp { col: col as u32, row: row as u32, color: road_shade(), mark: Mark::Glyph('=') }
}

/// The road: its two rows, three and two rows above the bottom edge, each
/// filled with `=` across the screen.
pub open spec fn road_ops(term_width: int, term_height: int) -> Seq<PaintOp> {
    Seq::new(term_width as nat, |c: int| road_op(c, term_height - 3)) + Seq::new(
        term_width as nat,
        |c: int| road_op(c, term_height - 2),
    )
}

fn paint_road_row(out: &mut Vec<PaintOp>, term_width: u16, row: u16)
    ensures
        final(out)@ == old(out)@ + Seq::new(term_width as nat, |c: int| road_op(c, row as int)),
{
    let ghost start = out@;
    let color = road_color();
    let mut c: u16 = 0;
    while c < term_width
        invariant
            c <= term_width,
            color == road_shade(),
            out@ == start + Seq::new(c as nat, |k: int| road_op(k, row as int)),
        decreases term_width - c,
    {
        out.push(PaintOp { col: c as u32, row: row as u32, color, mark: Mark::Glyph('=') });
        assert(Seq::new((c + 1) as nat, |k: int| road_op(k, row as int)) =~= Seq::new(
            c as nat,
            |k: int| road_op(k, row as int),
        ).push(road_op(c as int, row as int)));
        c += 1;
    }
}

/// Paints the two rows of the road.
pub fn paint_road(out: &mut Vec<PaintOp>, term_width: u16, term_height: u16)
    requires
        term_height >= 3,
    ensures
        final(out)@ == old(out)@ + road_ops(term_width as int, term_height as int),
{
    let ghost start = out@;
    paint_road_row(out, term_width, term_height - 3);
    paint_road_row(out, term_width, term_height - 2);
    assert(out@ =~= start + road_ops(term_width as int, term_height as int));
}

pub open spec fn snow_op(f: Snowflake) -> PaintOp {
    PaintOp { col: f.x as u32, row: f.y as u32, color: snow_shade(), mark: Mark::Glyph(f.glyph) }
}

pub open spec fn rain_op(d: RainDrop) -> PaintOp {
    PaintOp { col: d.x as u32, row: d.y as u32, color: rain_shade(), mark: Mark::Glyph('|') }
}

/// The weather layer: the snowflakes when it snows, else the raindrops.
pub open spec fn weather_ops(raindrops: Seq<RainDrop>, snowflakes: Seq<Snowflake>, is_snow: bool) -> Seq<PaintOp> {
    if is_snow {
        snowflakes.map_values(|f: Snowflake| snow_op(f))
    } else {
        raindrops.map_values(|d: RainDrop| rain_op(d))
    }
}

/// Paints the snowflakes when `is_snow` holds, else the raindrops.
pub fn paint_weather(out: &mut Vec<PaintOp>, raindrops: &Vec<RainDrop>, snowflakes: &Vec<Snowflake>, is_snow: bool)
    ensures
        final(out)@ == old(out)@ + weather_ops(raindrops@, snowflakes@, is_snow),
{
    let ghost start = out@;
    if is_snow {
        let mut i: usize = 0;
        while i < snowflakes.len()
            invariant
                i <= snowflakes@.len(),
                out@ == start + snowflakes@.subrange(0, i as int).map_values(|f: Snowflake| snow_op(f)),
            decreases snowflakes@.len() - i,
        {
            let f = snowflakes[i];
            out.push(PaintOp { col: f.x as u32, row: f.y as u32, color: snow_color(), mark: Mark::Glyph(f.glyph) });
            assert(snowflakes@.subrange(0, i + 1).map_values(|f: Snowflake| snow_op(f)) =~= snowflakes@.subrange(
                0,
                i as int,
            ).map_values(|f: Snowflake| snow_op(f)).push(snow_op(f)));
            i += 1;
        }
        assert(snowflakes@.subrange(0, snowflakes@.len() as int) == snowflakes@);
    } else {
        let mut i: usize = 0;
        while i < raindrops.len()
            invariant
                i <= raindrops@.len(),
                out@ == start + raindrops@.subrange(0, i as int).map_values(|d: RainDrop| rain_op(d)),
            decreases raindrops@.len() - i,
        {
            let d = raindrops[i];
            out.push(PaintOp { col: d.x as u32, row: d.y as u32, color: rain_color(), mark: Mark::Glyph('|') });
            assert(raindrops@.subrange(0, i + 1).map_values(|d: RainDrop| rain_op(d)) =~= raindrops@.subrange(
                0,
                i as int,
            ).map_values(|d: RainDrop| rain_op(d)).push(rain_op(d)));
            i += 1;
        }
        assert(raindrops@.subrange(0, raindrops@.len() as int) == raindrops@);
    }
}

pub open spec fn vehicle_op(v: Vehicle) -> PaintOp {
    PaintOp { col: column_of(v.x as int) as u32, row: v.y as u32, color: v.color, mark: Mark::Text(v.style) }
}

/// Paints each vehicle's glyph at its column and lane, in its colour.
pub fn paint_vehicles(out: &mut Vec<PaintOp>, vehicles: &Vec<Vehicle>)
    ensures
        final(out)@ == old(out)@ + vehicles@.map_values(|v: Vehicle| vehicle_op(v)),
{
    let ghost start = out@;
    let mut i: usize = 0;
    while i < vehicles.len()
        invariant
            i <= vehicles@.len(),
            out@ == start + vehicles@.subrange(0, i as int).map_values(|v: Vehicle| vehicle_op(v)),
        decreases vehicles@.len() - i,
    {
        let v = vehicles[i];
        out.push(PaintOp { col: screen_column(v.x), row: v.y as u32, color: v.color, mark: Mark::Text(v.style) });
        assert(vehicles@.subrange(0, i + 1).map_values(|v: Vehicle| vehicle_op(v)) =~= vehicles@.subrange(
            0,
            i as int,
        ).map_values(|v: Vehicle| vehicle_op(v)).push(vehicle_op(v)));
        i += 1;
    }
    assert(vehicles@.subrange(0, vehicles@.len() as int) == vehicles@);
}

/// Building `b` fits on a screen `term_height` rows high, its base on the
/// road and its antenna, if any, on the screen, and its window grid has the
/// generator's layout.
pub open spec fn paintable(b: Building, term_height: int) -> bool {
    &&& grid_shaped(b.windows@, b.width as int, b.height as int)
    &&& b.height + 3 <= term_height
    &&& b.has_antenna ==> b.height + 4 <= term_height
}

/// The body cell `dx` columns and `dy` rows into building `b`, whose base
/// stands on the road.
pub open spec fn body_op(b: Building, term_height: int, dx: int, dy: int) -> PaintOp {
    PaintOp {
        col: (b.x + dx) as u32,
        row: (term_height - b.height - 3 + dy) as u32,
        color: b.color,
        mark: Mark::Glyph('█'),
    }
}

/// The first `n` rows of the body of `b`, row by row, left to right.
pub open spec fn body_ops(b: Building, term_height: int, n: nat) -> Seq<PaintOp>
    decreases n,
{
    if n == 0 {
        Seq::empty()
    } else {
        body_ops(b, term_height, (n - 1) as nat) + Seq::new(
            b.width as nat,
            |dx: int| body_op(b, term_height, dx, n - 1),
        )
    }
}

/// The antenna of `b`, if it has one, on the row above its roof, above its
/// middle column.
pub open spec fn antenna_ops(b: Building, term_height: int) -> Seq<PaintOp> {
    if b.has_antenna {
        seq![
            PaintOp {
                col: (b.x + b.width / 2) as u32,
                row: (term_height - b.height - 4) as u32,
                color: b.color,
                mark: Mark::Glyph(b.antenna_glyph),
            },
        ]
    } else {
        Seq::empty()
    }
}

/// Window `wx` of grid row `wy` of `b`: every second column from the second,
/// on the inner line `wy + 1` below the roof, lit or dark.
pub open spec fn window_op(b: Building, term_height: int, wx: int, wy: int, w: Window) -> PaintOp {
    PaintOp {
        col: (b.x + 2 * wx + 1) as u32,
        row: (term_height - b.height - 2 + wy) as u32,
        color: if w.on { window_on_shade() } else { window_off_shade() },
        mark: Mark::Glyph('■'),
    }
}

/// The windows of the first `n` grid rows of `b`, row by row.
pub open spec fn window_ops(b: Building, term_height: int, n: nat) -> Seq<PaintOp>
    decreases n,
{
    if n == 0 {
        Seq::empty()
    } else {
        let wy = n - 1;
        window_ops(b, term_height, (n - 1) as nat) + Seq::new(
            b.windows@[wy]@.len(),
            |wx: int| window_op(b, term_height, wx, wy, b.windows@[wy]@[wx]),
        )
    }
}

/// Building `b`: its body, its antenna, then its windows.
pub open spec fn building_ops(b: Building, term_height: int) -> Seq<PaintOp> {
    body_ops(b, term_height, b.height as nat) + antenna_ops(b, term_height) + window_ops(
        b,
        term_height,
        b.windows@.len(),
    )
}

/// The buildings of `bs`, one after another.
pub open spec fn buildings_ops(bs: Seq<Building>, term_height: int) -> Seq<PaintOp>
    decreases bs.len(),
{
    if bs.len() == 0 {
        Seq::empty()
    } else {
        buildings_ops(bs.drop_last(), term_height) + building_ops(bs.last(), term_height)
    }
}

fn paint_body(out: &mut Vec<PaintOp>, b: &Building, term_height: u16)
    requires
        paintable(*b, term_height as int),
    ensures
        final(out)@ == old(out)@ + body_ops(*b, term_height as int, b.height as nat),
{
    let ghost start = out@;
    let top = (term_height - b.height - 3) as u32;
    let mut dy: u16 = 0;
    while dy < b.height
        invariant
            dy <= b.height,
            paintable(*b, term_height as int),
            top == term_height - b.height - 3,
            out@ == start + body_ops(*b, term_height as int, dy as nat),
        decreases b.height - dy,
    {
        let ghost row_start = out@;
        let mut dx: u16 = 0;
        while dx < b.width
            invariant
                dx <= b.width,
                dy < b.height,
                paintable(*b, term_height as int),
                top == term_height - b.height - 3,
                out@ == row_start + Seq::new(dx as nat, |k: int| body_op(*b, term_height as int, k, dy as int)),
            decreases b.width - dx,
        {
            out.push(PaintOp { col: b.x as u32 + dx as u32, row: top + dy as u32, color: b.color, mark: Mark::Glyph('█') });
            assert(Seq::new((dx + 1) as nat, |k: int| body_op(*b, term_height as int, k, dy as int)) =~= Seq::new(
                dx as nat,
                |k: int| body_op(*b, term_height as int, k, dy as int),
            ).push(body_op(*b, term_height as int, dx as int, dy as int)));
            dx += 1;
        }
        assert(body_ops(*b, term_height as int, (dy + 1) as nat) == body_ops(*b, term_height as int, dy as nat)
            + Seq::new(b.width as nat, |k: int| body_op(*b, term_height as int, k, dy as int)));
        assert(out@ =~= start + body_ops(*b, term_height as int, (dy + 1) as nat));
        dy += 1;
    }
}

fn paint_windows(out: &mut Vec<PaintOp>, b: &Building, term_height: u16)
    requires
        paintable(*b, term_height as int),
    ensures
        final(out)@ == old(out)@ + window_ops(*b, term_height as int, b.windows@.len()),
{
    let ghost start = out@;
    let top = (term_height - b.height - 2) as u32;
    let mut wy: usize = 0;
    while wy < b.windows.len()
        invariant
            wy <= b.windows@.len(),
            paintable(*b, term_height as int),
            top == term_height - b.height - 2,
            out@ == start + window_ops(*b, term_height as int, wy as nat),
        decreases b.windows@.len() - wy,
    {
        let ghost row_start = out@;
        let row = &b.windows[wy];
        assert(row@.len() == window_row_len(b.width as int, wy as int));
        let mut wx: usize = 0;
        while wx < row.len()
            invariant
                wx <= row@.len(),
                wy < b.windows@.len(),
                row == b.windows@[wy as int],
                row@.len() <= 32767,
                paintable(*b, term_height as int),
                top == term_height - b.height - 2,
                out@ == row_start + Seq::new(
                    wx as nat,
                    |k: int| window_op(*b, term_height as int, k, wy as int, row@[k]),
                ),
            decreases row@.len() - wx,
        {
            let w = row[wx];
            let color = if w.on {
                window_on_color()
            } else {
                window_off_color()
            };
            out.push(PaintOp { col: b.x as u32 + 2 * wx as u32 + 1, row: top + wy as u32, color, mark: Mark::Glyph('■') });
            assert(Seq::new((wx + 1) as nat, |k: int| window_op(*b, term_height as int, k, wy as int, row@[k])) =~= Seq::new(
                wx as nat,
                |k: int| window_op(*b, term_height as int, k, wy as int, row@[k]),
            ).push(window_op(*b, term_height as int, wx as int, wy as int, w)));
            wx += 1;
        }
        assert(out@ =~= start + window_ops(*b, term_height as int, (wy + 1) as nat));
        wy += 1;
    }
}

/// Paints each building standing on the road: body, antenna, windows.
pub fn paint_buildings(out: &mut Vec<PaintOp>, buildings: &Vec<Building>, term_height: u16)
    requires
        forall|i: int| 0 <= i < buildings@.len() ==> paintable(#[trigger] buildings@[i], term_height as int),
    ensures
        final(out)@ == old(out)@ + buildings_ops(buildings@, term_height as int),
{
    let ghost start = out@;
    let mut i: usize = 0;
    while i < buildings.len()
        invariant
            i <= buildings@.len(),
            forall|k: int| 0 <= k < buildings@.len() ==> paintable(#[trigger] buildings@[k], term_height as int),
            out@ == start + buildings_ops(buildings@.subrange(0, i as int), term_height as int),
        decreases buildings@.len() - i,
    {
        let b = &buildings[i];
        assert(paintable(*b, term_height as int));
        let ghost before = out@;
        paint_body(out, b, term_height);
        if b.has_antenna {
            out.push(PaintOp {
                col: b.x as u32 + (b.width / 2) as u32,
                row: (term_height - b.height - 4) as u32,
                color: b.color,
                mark: Mark::Glyph(b.antenna_glyph),
            });
        }
        paint_windows(out, b, term_height);
        assert(buildings@.subrange(0, i + 1).drop_last() == buildings@.subrange(0, i as int));
        assert(buildings@.subrange(0, i + 1).last() == *b);
        assert(out@ =~= before + building_ops(*b, term_height as int));
        assert(out@ =~= start + buildings_ops(buildings@.subrange(0, i + 1), term_height as int));
        i += 1;
    }
    assert(buildings@.subrange(0, buildings@.len() as int) == buildings@);
}

} // verus!
