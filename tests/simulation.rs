use bunnymark::bunny::Bunny;
use bunnymark::dispenser::Dispenser;
use bunnymark::geometry::{Point, Tint, SUBUNITS_PER_UNIT};
use bunnymark::hud::{batched_draw_calls, centred_origin, next_loading_screen};
use bunnymark::pool::{BunnyPool, MAX_BUNNIES};
use bunnymark::spawn::{draw_speed_and_tint, BURST_SIZE};

fn units(n: i64) -> i64 {
    n * SUBUNITS_PER_UNIT
}

fn white() -> Tint {
    Tint { r: 255, g: 255, b: 255, a: 255 }
}

fn fill(pool: &mut BunnyPool, n: usize) {
    let at = Point { x: 0, y: 0 };
    let still = Point { x: 0, y: 0 };
    for _ in 0..n {
        assert!(pool.enlist(at, still, white()));
    }
}

#[test]
fn burst_from_empty_places_all_at_pointer() {
    let mut pool = BunnyPool::new();
    assert_eq!(pool.capacity(), MAX_BUNNIES);
    assert_eq!(pool.capacity(), 500000);
    let pointer = Point::from_pointer(48000, 27000);
    pool.spawn_burst(pointer);
    assert_eq!(pool.count(), 100);
    for i in 0..100 {
        assert_eq!(pool.get(i).position, Point { x: units(800), y: units(450) });
    }
}

#[test]
fn burst_near_capacity_is_capped() {
    let mut pool = BunnyPool::new();
    fill(&mut pool, 499950);
    assert_eq!(pool.count(), 499950);
    pool.spawn_burst(Point::from_pointer(0, 0));
    assert_eq!(pool.count(), 500000);
    pool.spawn_burst(Point::from_pointer(0, 0));
    assert_eq!(pool.count(), 500000);
}

#[test]
fn reflection_at_right_edge() {
    let b = Bunny {
        position: Point { x: units(1598), y: units(450) },
        speed: Point { x: units(5), y: 0 },
        color: white(),
    };
    let r = b.step(40, 32);
    assert_eq!(r.position.x, units(1603));
    assert_eq!(r.position.y, units(450));
    assert_eq!(r.speed.x, units(-5));
    assert_eq!(r.speed.y, 0);
    assert_eq!(r.color, b.color);
}

#[test]
fn reflection_at_right_edge_through_pool() {
    let mut pool = BunnyPool::with_capacity(4);
    let at = Point::from_pointer(95880, 27000);
    assert!(pool.enlist(at, Point { x: units(5), y: 0 }, white()));
    pool.advance(40, 32);
    assert_eq!(pool.count(), 1);
    assert_eq!(pool.get(0).position.x, units(1603));
    assert_eq!(pool.get(0).speed.x, units(-5));
}

#[test]
fn reflection_at_left_edge_and_top_margin() {
    // Half of a 40-unit sprite is 20 units; the left test uses x + 20 < 0.
    let b = Bunny {
        position: Point { x: units(-19), y: units(30) },
        speed: Point { x: -SUBUNITS_PER_UNIT * 2, y: -SUBUNITS_PER_UNIT },
        color: white(),
    };
    let r = b.step(40, 10);
    // x: -21 + 20 = -1 < 0, turned. y: 29 + 5 - 40 < 0, turned.
    assert_eq!(r.position, Point { x: units(-21), y: units(29) });
    assert_eq!(r.speed, Point { x: units(2), y: units(1) });
}

#[test]
fn bottom_edge_reflects() {
    let b = Bunny {
        position: Point { x: units(100), y: units(890) },
        speed: Point { x: 0, y: units(3) },
        color: white(),
    };
    let r = b.step(40, 20);
    // 893 + 10 > 900
    assert_eq!(r.position.y, units(893));
    assert_eq!(r.speed.y, units(-3));
}

#[test]
fn inside_keeps_speed() {
    let b = Bunny {
        position: Point { x: units(700), y: units(400) },
        speed: Point { x: 250, y: -250 },
        color: white(),
    };
    let r = b.step(26, 37);
    assert_eq!(r.speed, b.speed);
    assert_eq!(r.position, Point { x: units(700) + 250, y: units(400) - 250 });
}

#[test]
fn batch_estimate_formula() {
    assert_eq!(batched_draw_calls(0), 1);
    assert_eq!(batched_draw_calls(8191), 1);
    assert_eq!(batched_draw_calls(8192), 2);
    assert_eq!(batched_draw_calls(500000), 62);
}

#[test]
fn count_grows_by_burst_and_never_shrinks() {
    let mut pool = BunnyPool::with_capacity(250);
    let pointer = Point::from_pointer(100, 200);
    let mut last = pool.count();
    for frame in 0..6 {
        let active = frame != 1;
        pool.frame(active, pointer, 26, 37);
        let now = pool.count();
        assert!(now >= last);
        assert!(now <= 250);
        assert!(now - last <= BURST_SIZE);
        last = now;
    }
    assert_eq!(pool.count(), 250);
}

#[test]
fn frame_without_trigger_only_moves() {
    let mut pool = BunnyPool::with_capacity(10);
    assert!(pool.enlist(Point::from_pointer(6000, 6000), Point { x: 10, y: -20 }, white()));
    pool.frame(false, Point::from_pointer(0, 0), 26, 37);
    assert_eq!(pool.count(), 1);
    assert_eq!(pool.get(0).position, Point { x: 6010, y: 5980 });
}

#[test]
fn spawned_speeds_and_tints_in_range() {
    let mut pool = BunnyPool::with_capacity(1000);
    let pointer = Point::from_pointer(48000, 27000);
    for _ in 0..10 {
        pool.spawn_burst(pointer);
    }
    assert_eq!(pool.count(), 1000);
    let mut distinct = false;
    let first = pool.get(0).speed;
    for i in 0..pool.count() {
        let b = pool.get(i);
        assert!(b.speed.x >= -250 && b.speed.x <= 250);
        assert!(b.speed.y >= -250 && b.speed.y <= 250);
        assert!(b.color.r >= 50 && b.color.r <= 240);
        assert!(b.color.g >= 80 && b.color.g <= 240);
        assert!(b.color.b >= 100 && b.color.b <= 240);
        assert_eq!(b.color.a, 255);
        if b.speed != first {
            distinct = true;
        }
    }
    assert!(distinct);
}

#[test]
fn drawn_values_are_not_the_range_bounds() {
    let mut off_bounds = false;
    for _ in 0..50 {
        let (speed, tint) = draw_speed_and_tint();
        if speed.x != -250 && speed.x != 250 && tint.r != 50 && tint.r != 240 {
            off_bounds = true;
        }
    }
    assert!(off_bounds);
}

#[test]
fn enlist_on_full_pool_is_ignored() {
    let mut pool = BunnyPool::with_capacity(2);
    fill(&mut pool, 2);
    let before = pool.get(1);
    assert!(!pool.enlist(Point::from_pointer(5, 5), Point { x: 1, y: 1 }, white()));
    assert_eq!(pool.count(), 2);
    assert_eq!(pool.get(1), before);
}

#[test]
fn empty_capacity_pool_stays_empty() {
    let mut pool = BunnyPool::with_capacity(0);
    pool.frame(true, Point::from_pointer(1, 1), 26, 37);
    assert_eq!(pool.count(), 0);
}

#[test]
fn loading_screen_cycles() {
    assert_eq!(next_loading_screen(1), 2);
    assert_eq!(next_loading_screen(2), 3);
    assert_eq!(next_loading_screen(3), 1);
}

#[test]
fn loading_screen_centred() {
    let o = centred_origin(200, 100);
    assert_eq!(o, Point { x: units(700), y: units(400) });
}

#[test]
fn dispenser_hands_over_once() {
    let mut slot: Dispenser<String> = Dispenser::new();
    assert!(!slot.is_stored());
    slot.store(String::from("texture"));
    assert!(slot.is_stored());
    assert_eq!(slot.take(), "texture");
    assert!(!slot.is_stored());
}
