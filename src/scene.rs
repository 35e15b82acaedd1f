use crate::entities::{Building, Cloud, RainDrop, Snowflake, Star, Vehicle};
use crate::generate::{
    create_buildings, create_clouds_with_count, create_raindrops_with_count, create_snowflakes_with_count,
    create_stars_with_count, create_vehicles, spawn_vehicle, valid_building, valid_spawn, window_row_len,
};
use crate::paint::{
    buildings_ops, moon_ops, paint_buildings, paint_clouds, paint_moon, paint_road, paint_stars,
    paint_vehicles, paint_weather, paintable, road_ops, weather_ops, cloud_op, star_op, vehicle_op, PaintOp,
};
use crate::palette::{cloud_shapes_are_short, vehicle_styles_are_small};
use crate::random::chance;
use crate::update::{
    advanced, cloud_step, off_road, rain_step, same_but_windows, snow_step, star_step, update_clouds,
    update_raindrops, update_snowflakes, update_stars, update_vehicles, update_windows, vehicles_after_tick,
};
use rand::rngs::ThreadRng;
use vstd::prelude::*;

verus! {

/// How many of each kind of particle the scene holds, and which weather it
/// shows.
#[derive(Clone, Copy, Debug)]
pub struct Settings {
    pub stars: u16,
    pub raindrops: u16,
    pub snowflakes: u16,
    pub clouds: u16,
    pub rain: bool,
    pub snow: bool,
}

/// A vehicle still on the road of a screen `term_width` wide, with a glyph
/// width and a speed of the palette's sizes.
pub open spec fn in_lane(v: Vehicle, term_width: int) -> bool {
    &&& v.span <= 8
    &&& -50 <= v.speed <= 50
    &&& -100 * v.span <= v.x <= 100 * term_width
}

/// A cloud of the palette's sizes that has not passed the right edge of a
/// screen `term_width` wide.
pub open spec fn in_sky(c: Cloud, term_width: int) -> bool {
    &&& c.shape@.len() <= 7
    &&& c.speed < 15
    &&& c.x <= 100 * term_width
}

/// Every vehicle left after a tick is still in its lane.
proof fn after_tick_in_lane(vs: Seq<Vehicle>, term_width: int)
    requires
        0 <= term_width <= u16::MAX,
        forall|i: int| 0 <= i < vs.len() ==> in_lane(#[trigger] vs[i], term_width),
    ensures
        forall|i: int|
            0 <= i < vehicles_after_tick(vs, term_width).len() ==> in_lane(
                #[trigger] vehicles_after_tick(vs, term_width)[i],
                term_width,
            ),
    decreases vs.len(),
{
    if vs.len() > 0 {
        let rest = vs.drop_last();
        assert forall|i: int| 0 <= i < rest.len() implies in_lane(#[trigger] rest[i], term_width) by {
            assert(rest[i] == vs[i]);
        }
        after_tick_in_lane(rest, term_width);
        let moved = advanced(vs.last());
        assert(in_lane(vs[vs.len() - 1], term_width));
        assert(moved.x == vs.last().x + vs.last().speed);
        if !off_road(moved, term_width) {
            assert(in_lane(moved, term_width));
            let r = vehicles_after_tick(rest, term_width);
            assert forall|i: int| 0 <= i < r.push(moved).len() implies in_lane(#[trigger] r.push(moved)[i], term_width) by {
                if i < r.len() {
                    assert(r.push(moved)[i] == r[i]);
                }
            }
        }
    }
}

/// The whole scene on a screen `width` columns wide and `height` rows high.
pub struct Scene {
    pub width: u16,
    pub height: u16,
    pub rain: bool,
    pub snow: bool,
    pub buildings: Vec<Building>,
    pub vehicles: Vec<Vehicle>,
    pub stars: Vec<Star>,
    pub raindrops: Vec<RainDrop>,
    pub snowflakes: Vec<Snowflake>,
    pub clouds: Vec<Cloud>,
}

/// The frame of a scene, back to front: clouds, stars, moon, buildings,
/// road, weather, vehicles.
pub open spec fn frame_ops(s: Scene) -> Seq<PaintOp> {
    s.clouds@.map_values(|c: Cloud| cloud_op(c)) + s.stars@.map_values(|t: Star| star_op(t)) + moon_ops(
        s.width as int,
    ) + buildings_ops(s.buildings@, s.height as int) + road_ops(s.width as int, s.height as int) + weather_ops(
        s.raindrops@,
        s.snowflakes@,
        s.snow,
    ) + s.vehicles@.map_values(|v: Vehicle| vehicle_op(v))
}

impl Scene {
    /// The screen is large enough for the moon and the buildings, every
    /// building, vehicle and cloud is as the generator and the updater leave
    /// them, and every raindrop and snowflake is on the screen, every star on its upper
    /// half.
    pub open spec fn wf(&self) -> bool {
        &&& self.width >= 15
        &&& self.height >= 11
        &&& forall|i: int| 0 <= i < self.buildings@.len() ==> valid_building(#[trigger] self.buildings@[i], self.height as int)
        &&& forall|i: int| 0 <= i < self.vehicles@.len() ==> in_lane(#[trigger] self.vehicles@[i], self.width as int)
        &&& forall|i: int| 0 <= i < self.clouds@.len() ==> in_sky(#[trigger] self.clouds@[i], self.width as int)
        &&& forall|i: int|
            0 <= i < self.stars@.len() ==> #[trigger] self.stars@[i].x < self.width && self.stars@[i].y < self.height / 2
        &&& forall|i: int|
            0 <= i < self.raindrops@.len() ==> #[trigger] self.raindrops@[i].x < self.width && self.raindrops@[i].y
                < self.height
        &&& forall|i: int|
            0 <= i < self.snowflakes@.len() ==> #[trigger] self.snowflakes@[i].x < self.width && self.snowflakes@[i].y
                < self.height
    }

    /// A new scene: a skyline, an empty road, and the particles `settings`
    /// asks for; raindrops only with rain, snowflakes only with snow.
    pub fn new(width: u16, height: u16, settings: &Settings, rng: &mut ThreadRng) -> (s: Scene)
        requires
            width >= 15,
            height >= 11,
        ensures
            s.wf(),
            s.width == width,
            s.height == height,
            s.rain == settings.rain,
            s.snow == settings.snow,
            s.buildings@.len() > 0,
            s.vehicles@.len() == 0,
            s.stars@.len() == settings.stars,
            s.raindrops@.len() == if settings.rain { settings.raindrops } else { 0 },
            s.snowflakes@.len() == if settings.snow { settings.snowflakes } else { 0 },
            s.clouds@.len() == settings.clouds,
    {
        let buildings = create_buildings(width, height, rng);
        let vehicles = create_vehicles(height);
        let stars = create_stars_with_count(width, height, rng, settings.stars);
        let raindrops = if settings.rain {
            create_raindrops_with_count(width, height, rng, settings.raindrops)
        } else {
            Vec::new()
        };
        let snowflakes = if settings.snow {
            create_snowflakes_with_count(width, height, rng, settings.snowflakes)
        } else {
            Vec::new()
        };
        let clouds = create_clouds_with_count(width, height, rng, settings.clouds);
        proof {
            assert forall|i: int| 0 <= i < clouds@.len() implies in_sky(#[trigger] clouds@[i], width as int) by {
                assert(clouds@[i].x % 100 == 0);
                cloud_shapes_are_short(clouds@[i].shape@);
            }
        }
        Scene { width, height, rain: settings.rain, snow: settings.snow, buildings, vehicles, stars, raindrops, snowflakes, clouds }
    }

    /// One tick: with chance 1 in 10 a new vehicle joins the road, then the
    /// windows flicker, the vehicles move, the stars twinkle, the active
    /// weather falls and the clouds drift.
    pub fn tick(&mut self, rng: &mut ThreadRng)
        requires
            old(self).wf(),
        ensures
            final(self).wf(),
            final(self).width == old(self).width,
            final(self).height == old(self).height,
            final(self).rain == old(self).rain,
            final(self).snow == old(self).snow,
            final(self).buildings@.len() == old(self).buildings@.len(),
            forall|i: int|
                0 <= i < old(self).buildings@.len() ==> same_but_windows(
                    old(self).buildings@[i],
                    #[trigger] final(self).buildings@[i],
                ),
            final(self).vehicles@ == vehicles_after_tick(old(self).vehicles@, old(self).width as int) || exists|
                v: Vehicle,
            |
                #[trigger] valid_spawn(v, old(self).width as int, old(self).height as int) && final(self).vehicles@
                    == vehicles_after_tick(old(self).vehicles@.push(v), old(self).width as int),
            final(self).stars@.len() == old(self).stars@.len(),
            forall|i: int| 0 <= i < old(self).stars@.len() ==> star_step(old(self).stars@[i], #[trigger] final(self).stars@[i]),
            final(self).raindrops@.len() == old(self).raindrops@.len(),
            old(self).rain ==> forall|i: int|
                0 <= i < old(self).raindrops@.len() ==> rain_step(
                    old(self).raindrops@[i],
                    #[trigger] final(self).raindrops@[i],
                    old(self).width as int,
                    old(self).height as int,
                ),
            !old(self).rain ==> final(self).raindrops@ == old(self).raindrops@,
            final(self).snowflakes@.len() == old(self).snowflakes@.len(),
            old(self).snow ==> forall|i: int|
                0 <= i < old(self).snowflakes@.len() ==> snow_step(
                    old(self).snowflakes@[i],
                    #[trigger] final(self).snowflakes@[i],
                    old(self).width as int,
                    old(self).height as int,
                ),
            !old(self).snow ==> final(self).snowflakes@ == old(self).snowflakes@,
            final(self).clouds@.len() == old(self).clouds@.len(),
            forall|i: int|
                0 <= i < old(self).clouds@.len() ==> cloud_step(
                    old(self).clouds@[i],
                    #[trigger] final(self).clouds@[i],
                    old(self).width as int,
                ),
    {
        let width = self.width;
        let height = self.height;
        let ghost road = self.vehicles@;
        if chance(rng, 1, 10) {
            let v = spawn_vehicle(width, height, rng);
            proof {
                vehicle_styles_are_small(v.style@, v.color, v.speed as int, v.span as int);
            }
            self.vehicles.push(v);
            assert(self.vehicles@ == road.push(v));
        }
        let ghost queued = self.vehicles@;
        assert forall|i: int| 0 <= i < queued.len() implies i32::MIN <= #[trigger] queued[i].x + queued[i].speed <= i32::MAX by {
            assert(in_lane(queued[i], width as int));
        }
        update_windows(&mut self.buildings, rng);
        update_vehicles(&mut self.vehicles, width);
        proof {
            after_tick_in_lane(queued, width as int);
        }
        update_stars(&mut self.stars, rng);
        if self.rain {
            update_raindrops(&mut self.raindrops, width, height, rng);
        }
        if self.snow {
            update_snowflakes(&mut self.snowflakes, width, height, rng);
        }
        let ghost sky = self.clouds@;
        assert forall|i: int| 0 <= i < sky.len() implies #[trigger] sky[i].x + sky[i].speed <= i32::MAX && -100
            * sky[i].shape@.len() >= i32::MIN by {
            assert(in_sky(sky[i], width as int));
        }
        update_clouds(&mut self.clouds, width);
        proof {
            assert forall|i: int| 0 <= i < self.buildings@.len() implies valid_building(
                #[trigger] self.buildings@[i],
                height as int,
            ) by {
                let (a, b) = (old(self).buildings@[i], self.buildings@[i]);
                assert(same_but_windows(a, b));
                assert(valid_building(a, height as int));
                assert forall|r: int| 0 <= r < b.windows@.len() implies #[trigger] b.windows@[r]@.len()
                    == window_row_len(b.width as int, r) by {
                    assert(a.windows@[r]@.len() == b.windows@[r]@.len());
                }
            }
            assert forall|i: int| 0 <= i < self.clouds@.len() implies in_sky(#[trigger] self.clouds@[i], width as int) by {
                assert(cloud_step(sky[i], self.clouds@[i], width as int));
                assert(in_sky(sky[i], width as int));
            }
            assert forall|i: int| 0 <= i < self.stars@.len() implies #[trigger] self.stars@[i].x < width
                && self.stars@[i].y < height / 2 by {
                assert(star_step(old(self).stars@[i], self.stars@[i]));
                assert(old(self).stars@[i].x < width);
            }
            assert forall|i: int| 0 <= i < self.raindrops@.len() implies #[trigger] self.raindrops@[i].x < width
                && self.raindrops@[i].y < height by {
                assert(old(self).raindrops@[i].x < width);
            }
            assert forall|i: int| 0 <= i < self.snowflakes@.len() implies #[trigger] self.snowflakes@[i].x < width
                && self.snowflakes@[i].y < height by {
                assert(old(self).snowflakes@[i].x < width);
            }
        }
    }

    /// The paint operations of the current frame, back to front.
    pub fn frame(&self) -> (ops: Vec<PaintOp>)
        requires
            self.wf(),
        ensures
            ops@ == frame_ops(*self),
    {
        assert forall|i: int| 0 <= i < self.buildings@.len() implies paintable(
            #[trigger] self.buildings@[i],
            self.height as int,
        ) by {
            assert(valid_building(self.buildings@[i], self.height as int));
        }
        let mut out: Vec<PaintOp> = Vec::new();
        paint_clouds(&mut out, &self.clouds);
        paint_stars(&mut out, &self.stars);
        paint_moon(&mut out, self.width);
        paint_buildings(&mut out, &self.buildings, self.height);
        paint_road(&mut out, self.width, self.height);
        paint_weather(&mut out, &self.raindrops, &self.snowflakes, self.snow);
        paint_vehicles(&mut out, &self.vehicles);
        assert(out@ =~= frame_ops(*self));
        out
    }
}

} // verus!
