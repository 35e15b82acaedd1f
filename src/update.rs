use crate::entities::{Building, Cloud, RainDrop, Snowflake, Star, Vehicle, Window};
use crate::palette::{is_star_glyph, star_glyph, star_glyph_at, STAR_GLYPH_COUNT};
use crate::random::{chance, pick_index, random_in};
use rand::rngs::ThreadRng;
use vstd::prelude::*;

verus! {

/// Two window grids have the same rows, each of the same length.
pub open spec fn same_grid_shape(a: Seq<Vec<Window>>, b: Seq<Vec<Window>>) -> bool {
    &&& a.len() == b.len()
    &&& forall|r: int| 0 <= r < a.len() ==> #[trigger] a[r]@.len() == b[r]@.len()
}

/// `b` is `a` with, at most, its windows switched: nothing else changes.
pub open spec fn same_but_windows(a: Building, b: Building) -> bool {
    &&& b.x == a.x
    &&& b.width == a.width
    &&& b.height == a.height
    &&& b.color == a.color
    &&& b.has_antenna == a.has_antenna
    &&& b.antenna_glyph == a.antenna_glyph
    &&& same_grid_shape(a.windows@, b.windows@)
}

/// `flips` has one entry for each window of `grid`.
pub open spec fn flips_fit(grid: Seq<Vec<Window>>, flips: Seq<Vec<bool>>) -> bool {
    &&& flips.len() == grid.len()
    &&& forall|r: int| 0 <= r < grid.len() ==> #[trigger] flips[r]@.len() == grid[r]@.len()
}

/// The grid with each window whose entry in `flips` is true switched, the
/// others kept.
pub fn switch_windows(grid: &Vec<Vec<Window>>, flips: &Vec<Vec<bool>>) -> (r: Vec<Vec<Window>>)
    requires
        flips_fit(grid@, flips@),
    ensures
        same_grid_shape(grid@, r@),
        forall|i: int, j: int|
            0 <= i < grid@.len() && 0 <= j < grid@[i]@.len() ==> #[trigger] r@[i]@[j].on == (grid@[i]@[j].on
                != flips@[i]@[j]),
{
    let mut out: Vec<Vec<Window>> = Vec::new();
    let mut i: usize = 0;
    while i < grid.len()
        invariant
            i <= grid@.len(),
            flips_fit(grid@, flips@),
            out@.len() == i,
            forall|r: int| 0 <= r < i ==> #[trigger] out@[r]@.len() == grid@[r]@.len(),
            forall|r: int, j: int|
                0 <= r < i && 0 <= j < grid@[r]@.len() ==> #[trigger] out@[r]@[j].on == (grid@[r]@[j].on
                    != flips@[r]@[j]),
        decreases grid@.len() - i,
    {
        let row = &grid[i];
        let row_flips = &flips[i];
        assert(row_flips@.len() == row@.len());
        let mut next: Vec<Window> = Vec::new();
        let mut j: usize = 0;
        while j < row.len()
            invariant
                j <= row@.len(),
                row_flips@.len() == row@.len(),
                next@.len() == j,
                forall|c: int| 0 <= c < j ==> #[trigger] next@[c].on == (row@[c].on != row_flips@[c]),
            decreases row@.len() - j,
        {
            next.push(Window { on: row[j].on != row_flips[j] });
            j += 1;
        }
        out.push(next);
        assert forall|r: int, c: int| 0 <= r < i + 1 && 0 <= c < grid@[r]@.len() implies #[trigger] out@[r]@[c].on
            == (grid@[r]@[c].on != flips@[r]@[c]) by {
            if r == i {
                assert(out@[r] == next);
            }
        }
        i += 1;
    }
    out
}

/// One draw per window of `grid`, each true with chance 1 in 100.
fn draw_flips(grid: &Vec<Vec<Window>>, rng: &mut ThreadRng) -> (flips: Vec<Vec<bool>>)
    ensures
        flips_fit(grid@, flips@),
{
    let mut out: Vec<Vec<bool>> = Vec::new();
    let mut i: usize = 0;
    while i < grid.len()
        invariant
            i <= grid@.len(),
            out@.len() == i,
            forall|r: int| 0 <= r < i ==> #[trigger] out@[r]@.len() == grid@[r]@.len(),
        decreases grid@.len() - i,
    {
        let n = grid[i].len();
        let mut row: Vec<bool> = Vec::new();
        let mut j: usize = 0;
        while j < n
            invariant
                j <= n,
                row@.len() == j,
            decreases n - j,
        {
            row.push(chance(rng, 1, 100));
            j += 1;
        }
        out.push(row);
        i += 1;
    }
    out
}

/// Switches each window of each building with chance 1 in 100; the
/// buildings and the shape of their grids stay as they were.
pub fn update_windows(buildings: &mut Vec<Building>, rng: &mut ThreadRng)
    ensures
        final(buildings)@.len() == old(buildings)@.len(),
        forall|i: int|
            0 <= i < old(buildings)@.len() ==> same_but_windows(
                old(buildings)@[i],
                #[trigger] final(buildings)@[i],
            ),
{
    let ghost start = buildings@;
    let mut i: usize = 0;
    while i < buildings.len()
        invariant
            i <= buildings@.len(),
            buildings@.len() == start.len(),
            forall|k: int| 0 <= k < start.len() ==> (if k < i {
                same_but_windows(#[trigger] start[k], buildings@[k])
            } else {
                buildings@[k] == start[k]
            }),
        decreases buildings@.len() - i,
    {
        let flips = draw_flips(&buildings[i].windows, rng);
        let grid = switch_windows(&buildings[i].windows, &flips);
        buildings[i].windows = grid;
        i += 1;
    }
}

/// `v` after one tick of motion.
pub open spec fn advanced(v: Vehicle) -> Vehicle {
    Vehicle { x: (v.x + v.speed) as i32, ..v }
}

/// `v` has left the screen, `term_width` columns wide: past the right edge
/// when it moves right, past the left edge by the width of its glyph when it
/// moves left.
pub open spec fn off_road(v: Vehicle, term_width: int) -> bool {
    ||| v.speed > 0 && v.x > 100 * term_width
    ||| v.speed < 0 && v.x < -100 * v.span
}

/// The vehicles of `vs` after one tick: each moved, those that left the
/// screen dropped, the others kept in order.
pub open spec fn vehicles_after_tick(vs: Seq<Vehicle>, term_width: int) -> Seq<Vehicle>
    decreases vs.len(),
{
    if vs.len() == 0 {
        Seq::empty()
    } else {
        let rest = vehicles_after_tick(vs.drop_last(), term_width);
        let moved = advanced(vs.last());
        if off_road(moved, term_width) {
            rest
        } else {
            rest.push(moved)
        }
    }
}

/// The step of each vehicle fits the position's integer type.
pub open spec fn steps_fit(vs: Seq<Vehicle>) -> bool {
    forall|i: int| 0 <= i < vs.len() ==> i32::MIN <= #[trigger] vs[i].x + vs[i].speed <= i32::MAX
}

/// Moves every vehicle by its speed and drops those that have left the
/// screen.
pub fn update_vehicles(vehicles: &mut Vec<Vehicle>, term_width: u16)
    requires
        steps_fit(old(vehicles)@),
    ensures
        final(vehicles)@ == vehicles_after_tick(old(vehicles)@, term_width as int),
{
    let mut next: Vec<Vehicle> = Vec::new();
    let mut i: usize = 0;
    while i < vehicles.len()
        invariant
            i <= vehicles@.len(),
            steps_fit(vehicles@),
            next@ == vehicles_after_tick(vehicles@.subrange(0, i as int), term_width as int),
        decreases vehicles@.len() - i,
    {
        let v = vehicles[i];
        let nx: i32 = v.x + v.speed;
        let past_right = v.speed > 0 && nx as i64 > 100 * term_width as i64;
        let past_left = v.speed < 0 && -(nx as i64) > 100 * (v.span as i64);
        proof {
            assert(vehicles@.subrange(0, i + 1).drop_last() == vehicles@.subrange(0, i as int));
            assert(vehicles@.subrange(0, i + 1).last() == v);
            assert(advanced(v) == Vehicle { x: nx, ..v });
            assert(off_road(advanced(v), term_width as int) == (past_right || past_left));
        }
        if !(past_right || past_left) {
            next.push(Vehicle { x: nx, ..v });
        }
        i += 1;
    }
    assert(vehicles@.subrange(0, vehicles@.len() as int) == vehicles@);
    *vehicles = next;
}

/// A star of `b` is the star of `a` on the same cell, with its glyph kept or
/// drawn anew from the star glyphs.
pub open spec fn star_step(a: Star, b: Star) -> bool {
    &&& b.x == a.x
    &&& b.y == a.y
    &&& (b.glyph == a.glyph || is_star_glyph(b.glyph))
}

/// Star `s` with its glyph replaced by the `k`-th star glyph when `pick` is
/// `Some(k)`, kept when it is `None`.
pub open spec fn redrawn(s: Star, pick: Option<usize>) -> Star {
    match pick {
        Some(k) => Star { glyph: star_glyph_at(k as int), ..s },
        None => s,
    }
}

/// Gives each star the glyph its pick names, if any.
pub fn redraw_stars(stars: &mut Vec<Star>, picks: &Vec<Option<usize>>)
    requires
        old(stars)@.len() == picks@.len(),
        forall|i: int| 0 <= i < picks@.len() && (#[trigger] picks@[i]).is_some() ==> picks@[i].unwrap() < STAR_GLYPH_COUNT,
    ensures
        final(stars)@.len() == old(stars)@.len(),
        forall|i: int| 0 <= i < old(stars)@.len() ==> #[trigger] final(stars)@[i] == redrawn(old(stars)@[i], picks@[i]),
{
    let ghost start = stars@;
    let mut i: usize = 0;
    while i < stars.len()
        invariant
            i <= stars@.len(),
            stars@.len() == start.len(),
            start.len() == picks@.len(),
            forall|i: int| 0 <= i < picks@.len() && (#[trigger] picks@[i]).is_some() ==> picks@[i].unwrap() < STAR_GLYPH_COUNT,
            forall|k: int| 0 <= k < start.len() ==> #[trigger] stars@[k] == if k < i {
                redrawn(start[k], picks@[k])
            } else {
                start[k]
            },
        decreases stars@.len() - i,
    {
        match picks[i] {
            Some(k) => {
                stars[i].glyph = star_glyph(k);
            },
            None => {},
        }
        i += 1;
    }
}

/// Draws a new glyph for each star with chance 1 in 20; stars do not move.
pub fn update_stars(stars: &mut Vec<Star>, rng: &mut ThreadRng)
    ensures
        final(stars)@.len() == old(stars)@.len(),
        forall|i: int| 0 <= i < old(stars)@.len() ==> star_step(old(stars)@[i], #[trigger] final(stars)@[i]),
{
    let mut picks: Vec<Option<usize>> = Vec::new();
    let mut i: usize = 0;
    while i < stars.len()
        invariant
            i <= stars@.len(),
            picks@.len() == i,
            forall|k: int| 0 <= k < i && (#[trigger] picks@[k]).is_some() ==> picks@[k].unwrap() < STAR_GLYPH_COUNT,
        decreases stars@.len() - i,
    {
        if chance(rng, 1, 20) {
            picks.push(Some(pick_index(rng, STAR_GLYPH_COUNT)));
        } else {
            picks.push(None);
        }
        i += 1;
    }
    redraw_stars(stars, &picks);
}

/// Drop `b` is drop `a` one tick later on a screen `term_width` by
/// `term_height`: it falls by its speed, and once it reaches the bottom it
/// starts again at the top row, on a freshly drawn column.
pub open spec fn rain_step(a: RainDrop, b: RainDrop, term_width: int, term_height: int) -> bool {
    &&& b.speed == a.speed
    &&& if a.y + a.speed >= term_height {
        b.y == 0 && b.x < term_width
    } else {
        b.y == a.y + a.speed && b.x == a.x
    }
}

/// A drop that will pass the bottom edge needs a column to restart on.
pub open spec fn rain_fits(drops: Seq<RainDrop>, term_width: int, term_height: int) -> bool {
    forall|i: int| 0 <= i < drops.len() ==> #[trigger] drops[i].y + drops[i].speed >= term_height ==> term_width > 0
}

/// Lets every raindrop fall one tick.
pub fn update_raindrops(raindrops: &mut Vec<RainDrop>, term_width: u16, term_height: u16, rng: &mut ThreadRng)
    requires
        rain_fits(old(raindrops)@, term_width as int, term_height as int),
    ensures
        final(raindrops)@.len() == old(raindrops)@.len(),
        forall|i: int|
            0 <= i < old(raindrops)@.len() ==> rain_step(
                old(raindrops)@[i],
                #[trigger] final(raindrops)@[i],
                term_width as int,
                term_height as int,
            ),
{
    let ghost start = raindrops@;
    let mut i: usize = 0;
    while i < raindrops.len()
        invariant
            i <= raindrops@.len(),
            raindrops@.len() == start.len(),
            rain_fits(start, term_width as int, term_height as int),
            forall|k: int| 0 <= k < start.len() ==> (if k < i {
                rain_step(#[trigger] start[k], raindrops@[k], term_width as int, term_height as int)
            } else {
                raindrops@[k] == start[k]
            }),
        decreases raindrops@.len() - i,
    {
        let d = raindrops[i];
        let y = d.y as u32 + d.speed as u32;
        if y >= term_height as u32 {
            assert(start[i as int].y + start[i as int].speed >= term_height);
            let x = random_in(rng, 0, term_width as u32) as u16;
            raindrops.set(i, RainDrop { x, y: 0, speed: d.speed });
        } else {
            raindrops.set(i, RainDrop { y: y as u16, ..d });
        }
        i += 1;
    }
}

/// The column after drifting `speed_x` from `x` on a screen `term_width`
/// wide: past the right edge it wraps to the first column, past the left
/// edge to the last.
pub open spec fn drifted(x: int, speed_x: int, term_width: int) -> int {
    let nx = x + speed_x;
    if nx >= term_width {
        0
    } else if nx < 0 {
        term_width - 1
    } else {
        nx
    }
}

/// Flake `a` one tick later on a screen `term_width` by `term_height`, where
/// `fresh` is the column drawn for it should it restart: it falls by its
/// vertical speed; once it reaches the bottom it starts again on the top row
/// at column `fresh`; then it drifts sideways with wraparound.
pub open spec fn snow_next(a: Snowflake, fresh: int, term_width: int, term_height: int) -> Snowflake {
    let restart = a.y + a.speed_y >= term_height;
    let col = if restart { fresh } else { a.x as int };
    Snowflake {
        x: drifted(col, a.speed_x as int, term_width) as u16,
        y: if restart { 0 } else { (a.y + a.speed_y) as u16 },
        ..a
    }
}

/// Flake `b` is flake `a` one tick later, for some column of the screen
/// drawn for its restart.
pub open spec fn snow_step(a: Snowflake, b: Snowflake, term_width: int, term_height: int) -> bool {
    exists|c: int| 0 <= c < term_width && b == #[trigger] snow_next(a, c, term_width, term_height)
}

/// Flake `f` one tick later, restarting at column `fresh` if it reaches the
/// bottom.
pub fn snowflake_step(f: Snowflake, fresh: u16, term_width: u16, term_height: u16) -> (r: Snowflake)
    requires
        term_width > 0,
    ensures
        r == snow_next(f, fresh as int, term_width as int, term_height as int),
{
    let fall = f.y as u32 + f.speed_y as u32;
    let (col, y) = if fall >= term_height as u32 {
        (fresh as i32, 0u16)
    } else {
        (f.x as i32, fall as u16)
    };
    let nx = col + f.speed_x as i32;
    let x = if nx >= term_width as i32 {
        0u16
    } else if nx < 0 {
        term_width - 1
    } else {
        nx as u16
    };
    Snowflake { x, y, ..f }
}

/// Lets every snowflake fall and drift one tick.
pub fn update_snowflakes(snowflakes: &mut Vec<Snowflake>, term_width: u16, term_height: u16, rng: &mut ThreadRng)
    requires
        old(snowflakes)@.len() > 0 ==> term_width > 0,
    ensures
        final(snowflakes)@.len() == old(snowflakes)@.len(),
        forall|i: int|
            0 <= i < old(snowflakes)@.len() ==> snow_step(
                old(snowflakes)@[i],
                #[trigger] final(snowflakes)@[i],
                term_width as int,
                term_height as int,
            ),
{
    let ghost start = snowflakes@;
    let mut i: usize = 0;
    while i < snowflakes.len()
        invariant
            i <= snowflakes@.len(),
            snowflakes@.len() == start.len(),
            start.len() > 0 ==> term_width > 0,
            forall|k: int| 0 <= k < start.len() ==> (if k < i {
                snow_step(#[trigger] start[k], snowflakes@[k], term_width as int, term_height as int)
            } else {
                snowflakes@[k] == start[k]
            }),
        decreases snowflakes@.len() - i,
    {
        let f = snowflakes[i];
        let fresh = if f.y as u32 + f.speed_y as u32 >= term_height as u32 {
            random_in(rng, 0, term_width as u32) as u16
        } else {
            0
        };
        let next = snowflake_step(f, fresh, term_width, term_height);
        assert(0 <= fresh < term_width);
        snowflakes.set(i, next);
        i += 1;
    }
}

/// Cloud `b` is cloud `a` one tick later on a screen `term_width` wide: it
/// moves right by its speed, and once past the right edge it starts again
/// just off the left edge, one shape width out.
pub open spec fn cloud_step(a: Cloud, b: Cloud, term_width: int) -> bool {
    &&& b.y == a.y
    &&& b.shape == a.shape
    &&& b.speed == a.speed
    &&& b.x == if a.x + a.speed > 100 * term_width {
        -100 * a.shape@.len()
    } else {
        a.x + a.speed
    }
}

/// Each cloud's step and wrapped position fit the position's integer type.
pub open spec fn clouds_fit(clouds: Seq<Cloud>) -> bool {
    forall|i: int|
        0 <= i < clouds.len() ==> #[trigger] clouds[i].x + clouds[i].speed <= i32::MAX && -100
            * clouds[i].shape@.len() >= i32::MIN
}

/// Moves every cloud one tick to the right, wrapping it around.
pub fn update_clouds(clouds: &mut Vec<Cloud>, term_width: u16)
    requires
        clouds_fit(old(clouds)@),
    ensures
        final(clouds)@.len() == old(clouds)@.len(),
        forall|i: int|
            0 <= i < old(clouds)@.len() ==> cloud_step(
                old(clouds)@[i],
                #[trigger] final(clouds)@[i],
                term_width as int,
            ),
{
    let ghost start = clouds@;
    let mut i: usize = 0;
    while i < clouds.len()
        invariant
            i <= clouds@.len(),
            clouds@.len() == start.len(),
            clouds_fit(start),
            forall|k: int| 0 <= k < start.len() ==> (if k < i {
                cloud_step(#[trigger] start[k], clouds@[k], term_width as int)
            } else {
                clouds@[k] == start[k]
            }),
        decreases clouds@.len() - i,
    {
        let c = clouds[i];
        assert(c == start[i as int]);
        let nx: i32 = c.x + c.speed as i32;
        let x = if nx as i64 > 100 * term_width as i64 {
            -100 * (c.shape.unicode_len() as i32)
        } else {
            nx
        };
        clouds.set(i, Cloud { x, ..c });
        i += 1;
    }
}

/// Updating an empty road leaves it empty (the other kinds keep their
/// length by the contracts of their updaters).
pub proof fn empty_road_stays_empty(term_width: int)
    ensures
        vehicles_after_tick(Seq::<Vehicle>::empty(), term_width) == Seq::<Vehicle>::empty(),
{
}

/// A raindrop on the bottom row with a speed of at least one is, one tick
/// later, on the top row, on a column of the screen.
pub proof fn raindrop_at_bottom_wraps(a: RainDrop, b: RainDrop, term_width: int, term_height: int)
    requires
        rain_step(a, b, term_width, term_height),
        a.y == term_height - 1,
        a.speed >= 1,
    ensures
        b.y == 0,
        b.x < term_width,
{
}

/// A vehicle moving right that one tick takes past the right edge is gone
/// after that tick: the result is as if it had never been there.
pub proof fn vehicle_past_right_edge_removed(vs: Seq<Vehicle>, i: int, term_width: int)
    requires
        0 <= i < vs.len(),
        vs[i].speed > 0,
        vs[i].x + vs[i].speed > 100 * term_width,
        i32::MIN <= vs[i].x + vs[i].speed <= i32::MAX,
    ensures
        vehicles_after_tick(vs, term_width) == vehicles_after_tick(vs.remove(i), term_width),
    decreases vs.len(),
{
    if i == vs.len() - 1 {
        assert(vs.remove(i) == vs.drop_last());
    } else {
        vehicle_past_right_edge_removed(vs.drop_last(), i, term_width);
        assert(vs.remove(i).drop_last() == vs.drop_last().remove(i));
        assert(vs.remove(i).last() == vs.last());
    }
}

} // verus!
