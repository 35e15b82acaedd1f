use crate::entities::{Building, Cloud, RainDrop, Snowflake, Star, Vehicle, Window};
use crate::palette::{
    antenna_glyph, building_color, cloud_shape, is_antenna_glyph, is_building_color,
    is_cloud_shape, is_snowflake_glyph, is_star_glyph, is_vehicle_style, snowflake_glyph,
    star_glyph, vehicle_style, vehicle_style_at, ANTENNA_GLYPH_COUNT, BUILDING_COLOR_COUNT,
    CLOUD_SHAPE_COUNT, SNOWFLAKE_GLYPH_COUNT, STAR_GLYPH_COUNT, VEHICLE_STYLE_COUNT,
};
use crate::random::{chance, pick_index, random_in};
use rand::rngs::ThreadRng;
use vstd::prelude::*;

verus! {

/// How many windows row `r` of a building `width` columns wide holds: the
/// odd inner columns on odd floor lines (even `r`), none on the others.
pub open spec fn window_row_len(width: int, r: int) -> int {
    if r % 2 == 0 {
        (width - 1) / 2
    } else {
        0
    }
}

/// The window grid has one row per inner line and the layout above.
pub open spec fn grid_shaped(grid: Seq<Vec<Window>>, width: int, height: int) -> bool {
    &&& grid.len() == height - 2
    &&& forall|r: int| 0 <= r < grid.len() ==> #[trigger] grid[r]@.len() == window_row_len(width, r)
}

/// A building as the generator makes them for a screen `term_height` rows
/// high.
pub open spec fn valid_building(b: Building, term_height: int) -> bool {
    &&& 5 <= b.width < 15
    &&& 5 <= b.height < term_height - 5
    &&& is_building_color(b.color)
    &&& grid_shaped(b.windows@, b.width as int, b.height as int)
    &&& if b.has_antenna {
        is_antenna_glyph(b.antenna_glyph)
    } else {
        b.antenna_glyph == ' '
    }
}

/// Every building the generator makes has at least one row of windows.
pub proof fn generated_building_has_windows(b: Building, term_height: int)
    requires
        valid_building(b, term_height),
    ensures
        b.height > 2,
        b.windows@.len() > 0,
{
}

/// The window grid of a new building, each window lit with chance 3 in 10.
fn window_grid(width: u16, height: u16, rng: &mut ThreadRng) -> (grid: Vec<Vec<Window>>)
    requires
        3 <= width,
        3 <= height,
    ensures
        grid_shaped(grid@, width as int, height as int),
{
    let mut grid: Vec<Vec<Window>> = Vec::new();
    let mut y: u16 = 1;
    while y < height - 1
        invariant
            1 <= y <= height - 1,
            3 <= width,
            grid@.len() == y - 1,
            forall|r: int| 0 <= r < grid@.len() ==> #[trigger] grid@[r]@.len() == window_row_len(width as int, r),
        decreases height - y,
    {
        let mut row: Vec<Window> = Vec::new();
        let mut wx: u16 = 1;
        while wx < width - 1
            invariant
                1 <= wx <= width - 1,
                1 <= y,
                row@.len() == if y % 2 == 1 { wx / 2 } else { 0 },
            decreases width - wx,
        {
            if y % 2 != 0 && wx % 2 != 0 {
                row.push(Window { on: chance(rng, 3, 10) });
            }
            wx += 1;
        }
        grid.push(row);
        y += 1;
    }
    grid
}

/// Lines the screen with buildings from the left edge: each one 5 to 14
/// columns wide and 5 to `term_height - 6` rows high, followed by a gap of
/// 1 to 4 columns, until the next one would start at or past `term_width`.
pub fn create_buildings(term_width: u16, term_height: u16, rng: &mut ThreadRng) -> (r: Vec<Building>)
    requires
        term_width > 0 ==> term_height >= 11,
    ensures
        (r@.len() == 0) == (term_width == 0),
        forall|i: int| 0 <= i < r@.len() ==> valid_building(#[trigger] r@[i], term_height as int),
        forall|i: int| 0 <= i < r@.len() ==> #[trigger] r@[i].x < term_width,
        r@.len() > 0 ==> r@[0].x == 0,
        forall|i: int|
            0 <= i < r@.len() - 1 ==> r@[i].x + r@[i].width + 1 <= #[trigger] r@[i + 1].x <= r@[i].x
                + r@[i].width + 4,
        r@.len() > 0 ==> term_width <= r@.last().x + r@.last().width + 4,
{
    let mut buildings: Vec<Building> = Vec::new();
    let mut x: u32 = 0;
    while x < term_width as u32
        invariant
            term_width > 0 ==> term_height >= 11,
            x <= term_width + 18,
            buildings@.len() == 0 ==> x == 0,
            buildings@.len() > 0 ==> buildings@[0].x == 0,
            buildings@.len() > 0 ==> buildings@.last().x + buildings@.last().width + 1 <= x
                <= buildings@.last().x + buildings@.last().width + 4,
            forall|i: int| 0 <= i < buildings@.len() ==> valid_building(#[trigger] buildings@[i], term_height as int),
            forall|i: int| 0 <= i < buildings@.len() ==> #[trigger] buildings@[i].x < term_width,
            forall|i: int|
                0 <= i < buildings@.len() - 1 ==> buildings@[i].x + buildings@[i].width + 1
                    <= #[trigger] buildings@[i + 1].x <= buildings@[i].x + buildings@[i].width + 4,
        decreases term_width + 18 - x,
    {
        let width = random_in(rng, 5, 15) as u16;
        let height = random_in(rng, 5, (term_height - 5) as u32) as u16;
        let color = building_color(pick_index(rng, BUILDING_COLOR_COUNT));
        let windows = window_grid(width, height, rng);
        let has_antenna = chance(rng, 3, 10);
        let antenna = if has_antenna {
            antenna_glyph(pick_index(rng, ANTENNA_GLYPH_COUNT))
        } else {
            ' '
        };
        let b = Building { x: x as u16, width, height, color, windows, has_antenna, antenna_glyph: antenna };
        buildings.push(b);
        x = x + width as u32 + random_in(rng, 1, 5);
    }
    buildings
}

/// The vehicles at start: none; they come only by `spawn_vehicle`.
pub fn create_vehicles(_term_height: u16) -> (r: Vec<Vehicle>)
    ensures
        r@.len() == 0,
{
    Vec::new()
}

/// A vehicle as `spawn_vehicle` makes them on a screen `term_width` columns
/// wide and `term_height` rows high: a style of the palette, one of the two
/// lanes just above the bottom rows, entering at the edge it moves away from.
pub open spec fn valid_spawn(v: Vehicle, term_width: int, term_height: int) -> bool {
    &&& is_vehicle_style(v.style@, v.color, v.speed as int, v.span as int)
    &&& v.y == term_height - 3 || v.y == term_height - 4
    &&& v.x == if v.speed > 0 { 0 } else { 100 * term_width }
}

/// A new vehicle of a style drawn uniformly from the palette, on either lane.
pub fn spawn_vehicle(term_width: u16, term_height: u16, rng: &mut ThreadRng) -> (v: Vehicle)
    requires
        term_height >= 4,
    ensures
        valid_spawn(v, term_width as int, term_height as int),
{
    let road_y = term_height - 3;
    let i = pick_index(rng, VEHICLE_STYLE_COUNT);
    let (style, color, speed, span) = vehicle_style(i);
    assert(vehicle_style_at(i as int) == (style@, color, speed as int, span as int));
    let y = if chance(rng, 1, 2) {
        road_y
    } else {
        road_y - 1
    };
    let x: i32 = if speed > 0 {
        0
    } else {
        100 * term_width as i32
    };
    Vehicle { x, y, style, color, speed, span }
}

/// `count` stars, each on a uniformly drawn cell of the upper half of the
/// screen, with a uniformly drawn glyph.
pub fn create_stars_with_count(term_width: u16, term_height: u16, rng: &mut ThreadRng, count: u16) -> (r: Vec<Star>)
    requires
        count > 0 ==> term_width > 0 && term_height >= 2,
    ensures
        r@.len() == count,
        forall|i: int|
            0 <= i < r@.len() ==> #[trigger] r@[i].x < term_width && r@[i].y < term_height / 2
                && is_star_glyph(r@[i].glyph),
{
    let mut stars: Vec<Star> = Vec::new();
    let mut k: u16 = 0;
    while k < count
        invariant
            k <= count,
            count > 0 ==> term_width > 0 && term_height >= 2,
            stars@.len() == k,
            forall|i: int|
                0 <= i < stars@.len() ==> #[trigger] stars@[i].x < term_width && stars@[i].y < term_height / 2
                    && is_star_glyph(stars@[i].glyph),
        decreases count - k,
    {
        let x = random_in(rng, 0, term_width as u32) as u16;
        let y = random_in(rng, 0, (term_height / 2) as u32) as u16;
        let glyph = star_glyph(pick_index(rng, STAR_GLYPH_COUNT));
        let star = Star { x, y, glyph };
        stars.push(star);
        assert(stars@[stars@.len() - 1] == star);
        k += 1;
    }
    stars
}

/// Fifty stars, as `create_stars_with_count` places them.
pub fn create_stars(term_width: u16, term_height: u16, rng: &mut ThreadRng) -> (r: Vec<Star>)
    requires
        term_width > 0 && term_height >= 2,
    ensures
        r@.len() == 50,
        forall|i: int|
            0 <= i < r@.len() ==> #[trigger] r@[i].x < term_width && r@[i].y < term_height / 2
                && is_star_glyph(r@[i].glyph),
{
    create_stars_with_count(term_width, term_height, rng, 50)
}

/// `count` raindrops, each on a uniformly drawn cell of the screen, falling
/// one or two rows per tick.
pub fn create_raindrops_with_count(term_width: u16, term_height: u16, rng: &mut ThreadRng, count: u16) -> (r: Vec<RainDrop>)
    requires
        count > 0 ==> term_width > 0 && term_height > 0,
    ensures
        r@.len() == count,
        forall|i: int|
            0 <= i < r@.len() ==> #[trigger] r@[i].x < term_width && r@[i].y < term_height
                && 1 <= r@[i].speed < 3,
{
    let mut drops: Vec<RainDrop> = Vec::new();
    let mut k: u16 = 0;
    while k < count
        invariant
            k <= count,
            count > 0 ==> term_width > 0 && term_height > 0,
            drops@.len() == k,
            forall|i: int|
                0 <= i < drops@.len() ==> #[trigger] drops@[i].x < term_width && drops@[i].y < term_height
                    && 1 <= drops@[i].speed < 3,
        decreases count - k,
    {
        let x = random_in(rng, 0, term_width as u32) as u16;
        let y = random_in(rng, 0, term_height as u32) as u16;
        let speed = random_in(rng, 1, 3) as u16;
        let drop = RainDrop { x, y, speed };
        drops.push(drop);
        assert(drops@[drops@.len() - 1] == drop);
        k += 1;
    }
    drops
}

/// A hundred raindrops, as `create_raindrops_with_count` places them.
pub fn create_raindrops(term_width: u16, term_height: u16, rng: &mut ThreadRng) -> (r: Vec<RainDrop>)
    requires
        term_width > 0 && term_height > 0,
    ensures
        r@.len() == 100,
        forall|i: int|
            0 <= i < r@.len() ==> #[trigger] r@[i].x < term_width && r@[i].y < term_height
                && 1 <= r@[i].speed < 3,
{
    create_raindrops_with_count(term_width, term_height, rng, 100)
}

/// `count` snowflakes, each on a uniformly drawn cell of the screen, falling
/// one row per tick, drifting -1, 0 or 1 columns per tick, with a uniformly
/// drawn glyph.
pub fn create_snowflakes_with_count(term_width: u16, term_height: u16, rng: &mut ThreadRng, count: u16) -> (r: Vec<Snowflake>)
    requires
        count > 0 ==> term_width > 0 && term_height > 0,
    ensures
        r@.len() == count,
        forall|i: int|
            0 <= i < r@.len() ==> #[trigger] r@[i].x < term_width && r@[i].y < term_height
                && r@[i].speed_y == 1 && -1 <= r@[i].speed_x <= 1 && is_snowflake_glyph(r@[i].glyph),
{
    let mut flakes: Vec<Snowflake> = Vec::new();
    let mut k: u16 = 0;
    while k < count
        invariant
            k <= count,
            count > 0 ==> term_width > 0 && term_height > 0,
            flakes@.len() == k,
            forall|i: int|
                0 <= i < flakes@.len() ==> #[trigger] flakes@[i].x < term_width && flakes@[i].y < term_height
                    && flakes@[i].speed_y == 1 && -1 <= flakes@[i].speed_x <= 1 && is_snowflake_glyph(flakes@[i].glyph),
        decreases count - k,
    {
        let x = random_in(rng, 0, term_width as u32) as u16;
        let y = random_in(rng, 0, term_height as u32) as u16;
        let speed_y = random_in(rng, 1, 2) as u16;
        let speed_x = random_in(rng, 0, 3) as i8 - 1;
        let glyph = snowflake_glyph(pick_index(rng, SNOWFLAKE_GLYPH_COUNT));
        let flake = Snowflake { x, y, speed_y, speed_x, glyph };
        flakes.push(flake);
        assert(flakes@[flakes@.len() - 1] == flake);
        k += 1;
    }
    flakes
}

/// Fifty snowflakes, as `create_snowflakes_with_count` places them.
pub fn create_snowflakes(term_width: u16, term_height: u16, rng: &mut ThreadRng) -> (r: Vec<Snowflake>)
    requires
        term_width > 0 && term_height > 0,
    ensures
        r@.len() == 50,
        forall|i: int|
            0 <= i < r@.len() ==> #[trigger] r@[i].x < term_width && r@[i].y < term_height
                && r@[i].speed_y == 1 && -1 <= r@[i].speed_x <= 1 && is_snowflake_glyph(r@[i].glyph),
{
    create_snowflakes_with_count(term_width, term_height, rng, 50)
}

/// `count` clouds, each starting at a uniformly drawn column and a uniformly
/// drawn row of the upper quarter of the screen, with a uniformly drawn shape
/// and a speed of 5 to 14 hundredths of a column per tick.
pub fn create_clouds_with_count(term_width: u16, term_height: u16, rng: &mut ThreadRng, count: u16) -> (r: Vec<Cloud>)
    requires
        count > 0 ==> term_width > 0 && term_height >= 4,
    ensures
        r@.len() == count,
        forall|i: int|
            0 <= i < r@.len() ==> #[trigger] r@[i].x % 100 == 0 && 0 <= r@[i].x < 100 * term_width
                && r@[i].y < term_height / 4 && is_cloud_shape(r@[i].shape@) && 5 <= r@[i].speed < 15,
{
    let mut clouds: Vec<Cloud> = Vec::new();
    let mut k: u16 = 0;
    while k < count
        invariant
            k <= count,
            count > 0 ==> term_width > 0 && term_height >= 4,
            clouds@.len() == k,
            forall|i: int|
                0 <= i < clouds@.len() ==> #[trigger] clouds@[i].x % 100 == 0 && 0 <= clouds@[i].x < 100 * term_width
                    && clouds@[i].y < term_height / 4 && is_cloud_shape(clouds@[i].shape@) && 5 <= clouds@[i].speed < 15,
        decreases count - k,
    {
        let column = random_in(rng, 0, term_width as u32) as i32;
        let y = random_in(rng, 0, (term_height / 4) as u32) as u16;
        let shape = cloud_shape(pick_index(rng, CLOUD_SHAPE_COUNT));
        let speed = random_in(rng, 5, 15) as u16;
        clouds.push(Cloud { x: 100 * column, y, shape, speed });
        k += 1;
    }
    clouds
}

/// Five clouds, as `create_clouds_with_count` places them.
pub fn create_clouds(term_width: u16, term_height: u16, rng: &mut ThreadRng) -> (r: Vec<Cloud>)
    requires
        term_width > 0 && term_height >= 4,
    ensures
        r@.len() == 5,
        forall|i: int|
            0 <= i < r@.len() ==> #[trigger] r@[i].x % 100 == 0 && 0 <= r@[i].x < 100 * term_width
                && r@[i].y < term_height / 4 && is_cloud_shape(r@[i].shape@) && 5 <= r@[i].speed < 15,
{
    create_clouds_with_count(term_width, term_height, rng, 5)
}

} // verus!
