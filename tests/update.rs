use city_screensaver::entities::{Building, Cloud, RainDrop, Snowflake, Star, Vehicle, Window};
use city_screensaver::generate::create_buildings;
use city_screensaver::palette::{star_glyph, Color, STAR_GLYPH_COUNT};
use city_screensaver::update::{redraw_stars, snowflake_step, switch_windows};
use city_screensaver::update::{
    update_clouds, update_raindrops, update_snowflakes, update_stars, update_vehicles, update_windows,
};
use rand::rngs::ThreadRng;

fn vehicle(x: i32, style: &'static str, speed: i32) -> Vehicle {
    Vehicle { x, y: 21, style, color: Color::Cyan, speed, span: style.chars().count() as u16 }
}

fn flake(x: u16, y: u16, speed_x: i8) -> Snowflake {
    Snowflake { x, y, speed_y: 1, speed_x, glyph: '*' }
}

#[test]
fn empty_collections_stay_empty() {
    let mut rng = ThreadRng::default();
    let mut buildings: Vec<Building> = Vec::new();
    let mut vehicles: Vec<Vehicle> = Vec::new();
    let mut stars: Vec<Star> = Vec::new();
    let mut drops: Vec<RainDrop> = Vec::new();
    let mut flakes: Vec<Snowflake> = Vec::new();
    let mut clouds: Vec<Cloud> = Vec::new();
    update_windows(&mut buildings, &mut rng);
    update_vehicles(&mut vehicles, 80);
    update_stars(&mut stars, &mut rng);
    update_raindrops(&mut drops, 80, 24, &mut rng);
    update_snowflakes(&mut flakes, 80, 24, &mut rng);
    update_clouds(&mut clouds, 80);
    assert!(buildings.is_empty() && vehicles.is_empty() && stars.is_empty());
    assert!(drops.is_empty() && flakes.is_empty() && clouds.is_empty());
}

#[test]
fn raindrop_on_bottom_row_restarts_at_top() {
    let mut rng = ThreadRng::default();
    for speed in 1..3 {
        let mut drops = vec![RainDrop { x: 5, y: 23, speed }];
        update_raindrops(&mut drops, 80, 24, &mut rng);
        assert_eq!(drops[0].y, 0);
        assert!(drops[0].x < 80);
        assert_eq!(drops[0].speed, speed);
    }
}

#[test]
fn restarted_raindrops_land_on_fresh_columns() {
    let mut rng = ThreadRng::default();
    let mut drops: Vec<RainDrop> = (0..200).map(|_| RainDrop { x: 0, y: 23, speed: 1 }).collect();
    update_raindrops(&mut drops, 80, 24, &mut rng);
    assert!(drops.iter().all(|d| d.y == 0 && d.x < 80));
    assert!(drops.iter().any(|d| d.x != 0));
}

#[test]
fn raindrop_falls_by_its_speed() {
    let mut rng = ThreadRng::default();
    let mut drops = vec![RainDrop { x: 7, y: 10, speed: 2 }, RainDrop { x: 3, y: 22, speed: 1 }];
    update_raindrops(&mut drops, 80, 24, &mut rng);
    assert_eq!(drops[0], RainDrop { x: 7, y: 12, speed: 2 });
    assert_eq!(drops[1], RainDrop { x: 3, y: 23, speed: 1 });
}

#[test]
fn vehicle_past_right_edge_is_removed() {
    let mut vehicles = vec![vehicle(7990, "o-o-o", 40), vehicle(100, "o-o-o", 40)];
    update_vehicles(&mut vehicles, 80);
    assert_eq!(vehicles.len(), 1);
    assert_eq!(vehicles[0].x, 140);
}

#[test]
fn vehicle_on_right_edge_stays_one_more_tick() {
    let mut vehicles = vec![vehicle(7960, "o-o-o", 40)];
    update_vehicles(&mut vehicles, 80);
    assert_eq!(vehicles.len(), 1);
    assert_eq!(vehicles[0].x, 8000);
    update_vehicles(&mut vehicles, 80);
    assert!(vehicles.is_empty());
}

#[test]
fn vehicle_leaves_left_edge_after_its_own_width() {
    let mut vehicles = vec![vehicle(-480, "[##-##]", -25)];
    update_vehicles(&mut vehicles, 80);
    assert_eq!(vehicles.len(), 1);
    assert_eq!(vehicles[0].x, -505);
    let mut vehicles = vec![vehicle(-675, "[##-##]", -25)];
    update_vehicles(&mut vehicles, 80);
    assert_eq!(vehicles[0].x, -700);
    update_vehicles(&mut vehicles, 80);
    assert!(vehicles.is_empty());
}

#[test]
fn vehicles_keep_their_order() {
    let mut vehicles = vec![vehicle(0, "a", 10), vehicle(8000, "b", 50), vehicle(500, "c", -20)];
    update_vehicles(&mut vehicles, 80);
    let styles: Vec<&str> = vehicles.iter().map(|v| v.style).collect();
    assert_eq!(styles, vec!["a", "c"]);
    assert_eq!(vehicles[0].x, 10);
    assert_eq!(vehicles[1].x, 480);
}

#[test]
fn snowflake_drifts_and_wraps() {
    let mut rng = ThreadRng::default();
    let mut flakes = vec![flake(10, 5, 1), flake(79, 5, 1), flake(1, 5, -1), flake(0, 5, -1), flake(40, 5, 0)];
    update_snowflakes(&mut flakes, 80, 24, &mut rng);
    let xs: Vec<u16> = flakes.iter().map(|f| f.x).collect();
    assert_eq!(xs, vec![11, 0, 0, 79, 40]);
    assert!(flakes.iter().all(|f| f.y == 6));
}

#[test]
fn snowflake_on_bottom_row_restarts_at_top() {
    let mut rng = ThreadRng::default();
    let mut flakes: Vec<Snowflake> = (0..100).map(|_| flake(3, 23, 0)).collect();
    update_snowflakes(&mut flakes, 80, 24, &mut rng);
    assert!(flakes.iter().all(|f| f.y == 0 && f.x < 80 && f.glyph == '*'));
    assert!(flakes.iter().any(|f| f.x != 3));
}

#[test]
fn cloud_moves_and_wraps_off_the_left_edge() {
    let mut clouds = vec![
        Cloud { x: 100, y: 2, shape: "_.-^-._", speed: 10 },
        Cloud { x: 7995, y: 3, shape: "_.-^-._", speed: 10 },
        Cloud { x: 7990, y: 1, shape: " ~~~", speed: 10 },
    ];
    update_clouds(&mut clouds, 80);
    assert_eq!(clouds[0].x, 110);
    assert_eq!(clouds[1].x, -700);
    assert_eq!(clouds[2].x, 8000);
    assert_eq!(clouds[1].y, 3);
}

#[test]
fn stars_stay_in_place_and_keep_star_glyphs() {
    let mut rng = ThreadRng::default();
    let glyphs: Vec<char> = (0..STAR_GLYPH_COUNT).map(star_glyph).collect();
    let mut stars: Vec<Star> = (0..100).map(|i| Star { x: i, y: 3, glyph: '.' }).collect();
    let mut changed = false;
    for _ in 0..100 {
        update_stars(&mut stars, &mut rng);
        for (i, s) in stars.iter().enumerate() {
            assert_eq!(s.x, i as u16);
            assert_eq!(s.y, 3);
            assert!(glyphs.contains(&s.glyph));
            changed |= s.glyph != '.';
        }
    }
    assert!(changed);
}

#[test]
fn windows_flicker_but_buildings_stay() {
    let mut rng = ThreadRng::default();
    let mut buildings = create_buildings(200, 40, &mut rng);
    let before: Vec<(u16, u16, u16, Vec<Vec<Window>>)> =
        buildings.iter().map(|b| (b.x, b.width, b.height, b.windows.clone())).collect();
    for _ in 0..50 {
        update_windows(&mut buildings, &mut rng);
    }
    let mut switched = false;
    for (b, (x, w, h, grid)) in buildings.iter().zip(before.iter()) {
        assert_eq!((b.x, b.width, b.height), (*x, *w, *h));
        assert_eq!(b.windows.len(), grid.len());
        for (row, old_row) in b.windows.iter().zip(grid.iter()) {
            assert_eq!(row.len(), old_row.len());
            switched |= row != old_row;
        }
    }
    assert!(switched);
}

#[test]
fn pictograph_vehicle_leaves_after_two_columns() {
    let mut vehicles = vec![Vehicle { x: -180, y: 21, style: "🚑", color: Color::Red, speed: -20, span: 2 }];
    update_vehicles(&mut vehicles, 80);
    assert_eq!(vehicles[0].x, -200);
    update_vehicles(&mut vehicles, 80);
    assert!(vehicles.is_empty());
}

#[test]
fn snowflake_step_drifts_the_fresh_column() {
    let f = flake(40, 23, -1);
    assert_eq!(snowflake_step(f, 10, 80, 24), Snowflake { x: 9, y: 0, ..f });
    assert_eq!(snowflake_step(f, 0, 80, 24), Snowflake { x: 79, y: 0, ..f });
    let g = flake(79, 23, 1);
    assert_eq!(snowflake_step(g, 79, 80, 24), Snowflake { x: 0, y: 0, ..g });
    assert_eq!(snowflake_step(flake(40, 5, 1), 3, 80, 24), Snowflake { x: 41, y: 6, ..flake(40, 5, 1) });
}

#[test]
fn switch_windows_switches_exactly_the_flipped_ones() {
    let on = Window { on: true };
    let off = Window { on: false };
    let grid = vec![vec![on, off, on], vec![], vec![off, off, on]];
    let flips = vec![vec![true, false, false], vec![], vec![false, true, true]];
    let r = switch_windows(&grid, &flips);
    assert_eq!(r, vec![vec![off, off, on], vec![], vec![off, on, off]]);
    let none = vec![vec![false; 3], vec![], vec![false; 3]];
    assert_eq!(switch_windows(&grid, &none), grid);
}

#[test]
fn redraw_stars_applies_picks() {
    let mut stars = vec![Star { x: 1, y: 2, glyph: '.' }, Star { x: 3, y: 4, glyph: '.' }, Star { x: 5, y: 6, glyph: '+' }];
    redraw_stars(&mut stars, &vec![Some(1), None, Some(3)]);
    assert_eq!(stars, vec![Star { x: 1, y: 2, glyph: '*' }, Star { x: 3, y: 4, glyph: '.' }, Star { x: 5, y: 6, glyph: '\'' }]);
}
