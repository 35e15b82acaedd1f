use city_screensaver::entities::{Building, Star};
use city_screensaver::generate::{
    create_buildings, create_clouds, create_clouds_with_count, create_raindrops, create_raindrops_with_count,
    create_snowflakes, create_snowflakes_with_count, create_stars, create_stars_with_count, create_vehicles,
    spawn_vehicle,
};
use city_screensaver::palette::{
    building_color, cloud_shape, star_glyph, vehicle_style, Color, BUILDING_COLOR_COUNT, CLOUD_SHAPE_COUNT,
    STAR_GLYPH_COUNT, VEHICLE_STYLE_COUNT,
};
use rand::rngs::ThreadRng;

fn star_glyphs() -> Vec<char> {
    (0..STAR_GLYPH_COUNT).map(star_glyph).collect()
}

fn building_colors() -> Vec<Color> {
    (0..BUILDING_COLOR_COUNT).map(building_color).collect()
}

#[test]
fn test_create_stars_with_count() {
    let mut rng = ThreadRng::default();
    let stars = create_stars_with_count(80, 24, &mut rng, 10);
    assert_eq!(stars.len(), 10);
    for star in &stars {
        assert!(star.x < 80);
        assert!(star.y < 24 / 2);
        assert!(star_glyphs().contains(&star.glyph));
    }
}

#[test]
fn test_create_buildings() {
    let mut rng = ThreadRng::default();
    let buildings = create_buildings(80, 24, &mut rng);
    for building in &buildings {
        assert!(building.width >= 5 && building.width < 15);
        assert!(building.height >= 5 && building.height < 24 - 5);
        assert!(building.x < 80);
        assert!(building_colors().contains(&building.color));
    }
}

#[test]
fn test_spawn_vehicle() {
    let mut rng = ThreadRng::default();
    let vehicle = spawn_vehicle(80, 24, &mut rng);
    let styles: Vec<(&str, Color, i32, u16)> = (0..VEHICLE_STYLE_COUNT).map(vehicle_style).collect();
    let valid_styles: Vec<&str> = styles.iter().map(|(style, _, _, _)| *style).collect();
    assert!(valid_styles.contains(&vehicle.style));
    let valid_colors: Vec<Color> = styles.iter().map(|(_, color, _, _)| *color).collect();
    assert!(valid_colors.contains(&vehicle.color));
    let valid_speeds: Vec<i32> = styles.iter().map(|(_, _, speed, _)| *speed).collect();
    assert!(valid_speeds.contains(&vehicle.speed));
}

#[test]
fn test_spawn_vehicle_y_position() {
    let mut rng = ThreadRng::default();
    let road_y = 24 - 3;
    let vehicle1 = spawn_vehicle(80, 24, &mut rng);
    let vehicle2 = spawn_vehicle(80, 24, &mut rng);
    assert!(vehicle1.y == road_y || vehicle1.y == road_y - 1);
    assert!(vehicle2.y == road_y || vehicle2.y == road_y - 1);
}

#[test]
fn test_building_windows_pattern() {
    let mut rng = ThreadRng::default();
    let buildings = create_buildings(80, 24, &mut rng);
    for building in &buildings {
        assert!(!building.windows.is_empty());
    }
}

#[test]
fn spawned_vehicle_enters_at_the_edge_it_leaves() {
    let mut rng = ThreadRng::default();
    for _ in 0..200 {
        let v = spawn_vehicle(80, 24, &mut rng);
        let i = (0..VEHICLE_STYLE_COUNT).position(|i| vehicle_style(i).0 == v.style).unwrap();
        let (_, color, speed, span) = vehicle_style(i);
        assert_eq!(v.color, color);
        assert_eq!(v.speed, speed);
        assert_eq!(v.span, span);
        if v.speed > 0 {
            assert_eq!(v.x, 0);
        } else {
            assert_eq!(v.x, 8000);
        }
    }
}

#[test]
fn vehicle_widths_count_screen_columns() {
    assert_eq!(vehicle_style(2), ("o-o-o", Color::Cyan, 40, 5));
    assert_eq!(vehicle_style(0).3, 8);
    for i in 5..VEHICLE_STYLE_COUNT {
        assert_eq!(vehicle_style(i).3, 2);
    }
}

#[test]
fn spawned_vehicles_use_both_lanes_and_several_styles() {
    let mut rng = ThreadRng::default();
    let vehicles: Vec<_> = (0..300).map(|_| spawn_vehicle(80, 24, &mut rng)).collect();
    assert!(vehicles.iter().any(|v| v.y == 21));
    assert!(vehicles.iter().any(|v| v.y == 20));
    let distinct: std::collections::HashSet<&str> = vehicles.iter().map(|v| v.style).collect();
    assert!(distinct.len() > 1);
}

#[test]
fn generated_stars_are_spread_out() {
    let mut rng = ThreadRng::default();
    let stars: Vec<Star> = create_stars_with_count(80, 24, &mut rng, 200);
    assert_eq!(stars.len(), 200);
    assert!(stars.iter().any(|s| s.x != stars[0].x));
    assert!(stars.iter().any(|s| s.y != stars[0].y));
    assert!(stars.iter().any(|s| s.glyph != stars[0].glyph));
}

#[test]
fn default_counts() {
    let mut rng = ThreadRng::default();
    assert_eq!(create_stars(80, 24, &mut rng).len(), 50);
    assert_eq!(create_raindrops(80, 24, &mut rng).len(), 100);
    assert_eq!(create_snowflakes(80, 24, &mut rng).len(), 50);
    assert_eq!(create_clouds(80, 24, &mut rng).len(), 5);
    assert!(create_vehicles(24).is_empty());
}

#[test]
fn zero_counts_give_empty_collections() {
    let mut rng = ThreadRng::default();
    assert!(create_stars_with_count(0, 0, &mut rng, 0).is_empty());
    assert!(create_raindrops_with_count(0, 0, &mut rng, 0).is_empty());
    assert!(create_snowflakes_with_count(0, 0, &mut rng, 0).is_empty());
    assert!(create_clouds_with_count(0, 0, &mut rng, 0).is_empty());
    assert!(create_buildings(0, 0, &mut rng).is_empty());
}

#[test]
fn raindrops_snowflakes_and_clouds_stay_in_their_zones() {
    let mut rng = ThreadRng::default();
    for d in create_raindrops_with_count(80, 24, &mut rng, 300) {
        assert!(d.x < 80 && d.y < 24 && (1..3).contains(&d.speed));
    }
    for f in create_snowflakes_with_count(80, 24, &mut rng, 300) {
        assert!(f.x < 80 && f.y < 24 && f.speed_y == 1 && (-1..=1).contains(&f.speed_x));
        assert!(['*', '.', 'o'].contains(&f.glyph));
    }
    let shapes: Vec<&str> = (0..CLOUD_SHAPE_COUNT).map(cloud_shape).collect();
    for c in create_clouds_with_count(80, 24, &mut rng, 300) {
        assert!(c.x % 100 == 0 && c.x >= 0 && c.x < 8000);
        assert!(c.y < 6);
        assert!(shapes.contains(&c.shape));
        assert!((5..15).contains(&c.speed));
    }
}

fn check_tiling(buildings: &[Building], width: u16, height: u16) {
    assert!(!buildings.is_empty());
    assert_eq!(buildings[0].x, 0);
    for pair in buildings.windows(2) {
        let end = pair[0].x + pair[0].width;
        assert!(pair[1].x >= end + 1 && pair[1].x <= end + 4);
    }
    let last = buildings.last().unwrap();
    assert!(width <= last.x + last.width + 4);
    for b in buildings {
        assert!(b.x < width);
        assert!(b.height >= 5 && b.height < height - 5);
        assert_eq!(b.windows.len(), (b.height - 2) as usize);
        for (r, row) in b.windows.iter().enumerate() {
            let expected = if r % 2 == 0 { ((b.width - 1) / 2) as usize } else { 0 };
            assert_eq!(row.len(), expected);
        }
        if b.has_antenna {
            assert!(['|', 'Y', 'i'].contains(&b.antenna_glyph));
        } else {
            assert_eq!(b.antenna_glyph, ' ');
        }
    }
}

#[test]
fn buildings_tile_the_screen() {
    let mut rng = ThreadRng::default();
    for _ in 0..20 {
        check_tiling(&create_buildings(80, 24, &mut rng), 80, 24);
    }
    check_tiling(&create_buildings(1, 11, &mut rng), 1, 11);
}

#[test]
fn buildings_on_smallest_screen_have_height_five() {
    let mut rng = ThreadRng::default();
    for b in create_buildings(40, 11, &mut rng) {
        assert_eq!(b.height, 5);
        assert_eq!(b.windows.len(), 3);
    }
}

#[test]
fn windows_are_sometimes_lit_and_sometimes_dark() {
    let mut rng = ThreadRng::default();
    let buildings = create_buildings(400, 40, &mut rng);
    let windows: Vec<bool> = buildings.iter().flat_map(|b| b.windows.iter().flatten().map(|w| w.on)).collect();
    assert!(windows.iter().any(|on| *on));
    assert!(windows.iter().any(|on| !*on));
}
