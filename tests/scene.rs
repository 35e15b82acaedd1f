use city_screensaver::entities::{Building, Window};
use city_screensaver::paint::{Mark, PaintOp};
use city_screensaver::palette::Color;
use city_screensaver::scene::{Scene, Settings};
use rand::rngs::ThreadRng;

fn settings(rain: bool, snow: bool) -> Settings {
    Settings { stars: 50, raindrops: 100, snowflakes: 50, clouds: 5, rain, snow }
}

fn empty_scene(width: u16, height: u16) -> Scene {
    Scene {
        width,
        height,
        rain: true,
        snow: false,
        buildings: Vec::new(),
        vehicles: Vec::new(),
        stars: Vec::new(),
        raindrops: Vec::new(),
        snowflakes: Vec::new(),
        clouds: Vec::new(),
    }
}

fn text(op: &PaintOp) -> Option<&'static str> {
    match op.mark {
        Mark::Text(t) => Some(t),
        Mark::Glyph(_) => None,
    }
}

fn glyph(op: &PaintOp) -> Option<char> {
    match op.mark {
        Mark::Glyph(c) => Some(c),
        Mark::Text(_) => None,
    }
}

#[test]
fn new_scene_has_requested_counts() {
    let mut rng = ThreadRng::default();
    let scene = Scene::new(80, 24, &settings(true, false), &mut rng);
    assert_eq!(scene.stars.len(), 50);
    assert_eq!(scene.raindrops.len(), 100);
    assert!(scene.snowflakes.is_empty());
    assert_eq!(scene.clouds.len(), 5);
    assert!(scene.vehicles.is_empty());
    assert!(!scene.buildings.is_empty());
    let snowy = Scene::new(80, 24, &settings(false, true), &mut rng);
    assert!(snowy.raindrops.is_empty());
    assert_eq!(snowy.snowflakes.len(), 50);
}

#[test]
fn many_ticks_keep_the_scene_in_bounds() {
    let mut rng = ThreadRng::default();
    let mut scene = Scene::new(80, 24, &settings(true, true), &mut rng);
    let mut seen_vehicle = false;
    for _ in 0..2000 {
        scene.tick(&mut rng);
        seen_vehicle |= !scene.vehicles.is_empty();
        for s in &scene.stars {
            assert!(s.x < 80 && s.y < 12);
        }
        for d in &scene.raindrops {
            assert!(d.x < 80 && d.y < 24);
        }
        for f in &scene.snowflakes {
            assert!(f.x < 80 && f.y < 24);
        }
        for v in &scene.vehicles {
            assert!(v.y == 20 || v.y == 21);
            assert!(v.x <= 8000);
        }
        for c in &scene.clouds {
            assert!(c.x <= 8000);
        }
    }
    assert!(seen_vehicle);
    assert!(scene.vehicles.len() < 200);
}

#[test]
fn frame_of_empty_scene_is_moon_and_road() {
    let scene = empty_scene(20, 12);
    let ops = scene.frame();
    assert_eq!(ops.len(), 3 + 2 * 20);
    assert_eq!((ops[0].col, ops[0].row), (5, 1));
    assert_eq!(text(&ops[0]), Some("  ,'.'."));
    assert_eq!(text(&ops[2]), Some(".' .. '. '."));
    assert_eq!(ops[0].color, Color::Rgb { r: 240, g: 240, b: 240 });
    for (k, op) in ops[3..23].iter().enumerate() {
        assert_eq!((op.col, op.row), (k as u32, 9));
        assert_eq!(glyph(op), Some('='));
        assert_eq!(op.color, Color::Rgb { r: 20, g: 20, b: 20 });
    }
    for (k, op) in ops[23..43].iter().enumerate() {
        assert_eq!((op.col, op.row), (k as u32, 10));
    }
}

#[test]
fn frame_places_building_body_antenna_and_windows() {
    let mut scene = empty_scene(20, 12);
    let lit = Window { on: true };
    let dark = Window { on: false };
    scene.buildings.push(Building {
        x: 2,
        width: 5,
        height: 5,
        color: Color::Rgb { r: 60, g: 60, b: 60 },
        windows: vec![vec![lit, dark], vec![], vec![dark, lit]],
        has_antenna: true,
        antenna_glyph: 'Y',
    });
    let ops = scene.frame();
    let body = &ops[3..28];
    assert_eq!((body[0].col, body[0].row), (2, 4));
    assert_eq!((body[24].col, body[24].row), (6, 8));
    assert!(body.iter().all(|op| glyph(op) == Some('█')));
    let antenna = &ops[28];
    assert_eq!((antenna.col, antenna.row, glyph(antenna)), (4, 3, Some('Y')));
    let windows = &ops[29..33];
    let cells: Vec<(u32, u32)> = windows.iter().map(|op| (op.col, op.row)).collect();
    assert_eq!(cells, vec![(3, 5), (5, 5), (3, 7), (5, 7)]);
    assert!(cells.iter().all(|&(_, row)| row > 4 && row < 8));
    assert_eq!(windows[0].color, Color::Rgb { r: 255, g: 255, b: 0 });
    assert_eq!(windows[1].color, Color::Rgb { r: 40, g: 40, b: 40 });
    assert_eq!(ops.len(), 3 + 25 + 1 + 4 + 40);
}

#[test]
fn frame_orders_layers_and_picks_weather() {
    let mut rng = ThreadRng::default();
    let mut scene = Scene::new(80, 24, &settings(true, true), &mut rng);
    scene.tick(&mut rng);
    let ops = scene.frame();
    assert!(ops[..5].iter().all(|op| op.color == Color::Rgb { r: 150, g: 150, b: 150 }));
    assert!(ops[5..55].iter().all(|op| op.color == Color::Rgb { r: 255, g: 255, b: 255 }));
    let snow = ops.iter().filter(|op| op.color == Color::Rgb { r: 200, g: 200, b: 200 }).count();
    let rain = ops.iter().filter(|op| op.color == Color::Rgb { r: 100, g: 100, b: 150 }).count();
    assert_eq!(snow, 50);
    assert_eq!(rain, 0);
    scene.snow = false;
    let rain = scene.frame().iter().filter(|op| op.color == Color::Rgb { r: 100, g: 100, b: 150 }).count();
    assert_eq!(rain, 100);
}

#[test]
fn vehicles_left_of_screen_are_drawn_at_first_column() {
    let mut scene = empty_scene(20, 12);
    scene.vehicles.push(city_screensaver::entities::Vehicle {
        x: -250,
        y: 8,
        style: "o-o-o",
        color: Color::Red,
        speed: -20,
        span: 5,
    });
    scene.vehicles.push(city_screensaver::entities::Vehicle { x: 1299, y: 9, style: "o-o-o", color: Color::Red, speed: 20, span: 5 });
    let ops = scene.frame();
    let n = ops.len();
    assert_eq!((ops[n - 2].col, ops[n - 2].row), (0, 8));
    assert_eq!((ops[n - 1].col, ops[n - 1].row), (12, 9));
    assert_eq!(ops[n - 1].color, Color::Red);
}
