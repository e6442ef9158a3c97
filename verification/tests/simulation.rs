use rand::rngs::StdRng;
use rand::SeedableRng;

use rings::color::Color;
use rings::ring::{DEFAULT_GROWTH_RATE, DEFAULT_WEIGHT};
use rings::{ButtonState, Point, Rgb, Ring, RingDirection, RingSet};

fn ring_at(x: i64, y: i64, radius: i64, growth_rate: i64, direction: RingDirection) -> Ring {
    Ring {
        color: Rgb {
            red: 10,
            green: 20,
            blue: 210,
        },
        origin: Point { x, y },
        radius,
        weight: DEFAULT_WEIGHT,
        growth_rate,
        direction,
    }
}

#[test]
fn spawn_then_one_step_grows_by_rate() {
    let mut rng = StdRng::seed_from_u64(7);
    let mut set = RingSet::new();
    let id = set.spawn(Point { x: 0, y: 0 }, &mut rng);
    assert_eq!(id, 0);
    set.step();
    let snap = set.snapshot();
    assert_eq!(snap.len(), 1);
    assert_eq!(snap[0].radius, DEFAULT_GROWTH_RATE);
    assert_eq!(snap[0].direction, RingDirection::Growing);
}

#[test]
fn spawn_defaults() {
    let mut rng = StdRng::seed_from_u64(11);
    let mut set = RingSet::new();
    set.spawn(Point { x: 5, y: -3 }, &mut rng);
    let snap = set.snapshot();
    assert_eq!(snap[0].origin, Point { x: 5, y: -3 });
    assert_eq!(snap[0].radius, 0);
    assert_eq!(snap[0].weight, DEFAULT_WEIGHT);
    assert_eq!(snap[0].growth_rate, DEFAULT_GROWTH_RATE);
    assert_eq!(snap[0].direction, RingDirection::Growing);
}

#[test]
fn spawned_color_is_in_the_bright_band() {
    let mut rng = StdRng::seed_from_u64(13);
    let mut set = RingSet::new();
    for i in 0..50 {
        set.spawn(Point { x: i, y: 0 }, &mut rng);
    }
    for ring in set.snapshot() {
        assert!(ring.color.red < 255);
        assert!(ring.color.green < 255);
        assert!((200..255).contains(&ring.color.blue));
    }
}

#[test]
fn spawned_colors_vary() {
    let mut rng = StdRng::seed_from_u64(17);
    let mut set = RingSet::new();
    for i in 0..20 {
        set.spawn(Point { x: i, y: 0 }, &mut rng);
    }
    let snap = set.snapshot();
    assert!(snap.iter().any(|r| r.color != snap[0].color));
}

#[test]
fn ring_never_intersects_itself() {
    let r = ring_at(4, 9, 25, 1, RingDirection::Growing);
    assert!(!r.is_intersecting(&r.clone()));
}

#[test]
fn equality_ignores_color() {
    let a = ring_at(1, 2, 3, 1, RingDirection::Growing);
    let mut b = a;
    b.color = Rgb {
        red: 200,
        green: 1,
        blue: 254,
    };
    assert_eq!(a, b);
    // equal rings are excluded from the intersection test, whatever the
    // distance bands would say
    assert!(!a.is_intersecting(&b));
}

#[test]
fn shrinking_pair_never_intersects() {
    // radii and origins that would otherwise fall squarely in the band
    let a = ring_at(0, 0, 10, 1, RingDirection::Shrinking);
    let b = ring_at(20, 0, 10, 1, RingDirection::Shrinking);
    assert!(!a.is_intersecting(&b));
    let grow_a = ring_at(0, 0, 10, 1, RingDirection::Growing);
    assert!(grow_a.is_intersecting(&b));
}

#[test]
fn snapshot_is_idempotent() {
    let mut rng = StdRng::seed_from_u64(19);
    let mut set = RingSet::new();
    set.spawn(Point { x: 0, y: 0 }, &mut rng);
    set.spawn(Point { x: 40, y: 0 }, &mut rng);
    set.step();
    let first = set.snapshot();
    let second = set.snapshot();
    assert_eq!(first, second);
    assert_eq!(first[0].color, second[0].color);
}

#[test]
fn lone_ring_grows_monotonically() {
    let mut rng = StdRng::seed_from_u64(23);
    let mut set = RingSet::new();
    set.spawn(Point { x: 0, y: 0 }, &mut rng);
    for n in 1..=40 {
        set.step();
        let snap = set.snapshot();
        assert_eq!(snap[0].radius, n * DEFAULT_GROWTH_RATE);
        assert_eq!(snap[0].direction, RingDirection::Growing);
    }
}

#[test]
fn shrinking_ring_decreases_by_rate_each_tick() {
    let mut set = RingSet::from_rings(vec![ring_at(0, 0, 10, 1, RingDirection::Shrinking)]);
    for expected in (0..10).rev() {
        set.step();
        let snap = set.snapshot();
        assert_eq!(snap[0].radius, expected);
        assert_eq!(snap[0].direction, RingDirection::Shrinking);
    }
}

#[test]
fn zero_bounce_lasts_one_tick() {
    let mut set = RingSet::from_rings(vec![ring_at(0, 0, 0, 1, RingDirection::Shrinking)]);
    set.step();
    let after_cross = set.snapshot();
    assert_eq!(after_cross[0].radius, -1);
    assert_eq!(after_cross[0].direction, RingDirection::Growing);
    set.step();
    let after_bounce = set.snapshot();
    assert_eq!(after_bounce[0].radius, 0);
    assert_eq!(after_bounce[0].direction, RingDirection::Growing);
    set.step();
    assert_eq!(set.snapshot()[0].radius, 1);
}

#[test]
fn two_rings_flip_when_boundaries_meet() {
    let mut rng = StdRng::seed_from_u64(29);
    let mut set = RingSet::new();
    set.spawn(Point { x: 0, y: 0 }, &mut rng);
    set.spawn(Point { x: 20, y: 0 }, &mut rng);
    // radii grow in lockstep; the sum enters the band (19, 21) around the
    // distance 20 exactly when both radii reach 10
    for _ in 0..10 {
        set.step();
    }
    let snap = set.snapshot();
    assert_eq!(snap[0].radius, 10);
    assert_eq!(snap[1].radius, 10);
    assert_eq!(snap[0].direction, RingDirection::Growing);
    assert!(snap[0].is_intersecting(&snap[1]));
    assert!(snap[1].is_intersecting(&snap[0]));
    set.step();
    let snap = set.snapshot();
    assert_eq!(snap[0].direction, RingDirection::Shrinking);
    assert_eq!(snap[1].direction, RingDirection::Shrinking);
    assert_eq!(snap[0].radius, 9);
    assert_eq!(snap[1].radius, 9);
}

#[test]
fn band_uses_first_rings_growth_rate() {
    // distance 10, radii 5 and 3: inside (sum-3, sum+3) but outside both
    // of the second ring's bands, so the test is asymmetric by design
    let wide = ring_at(0, 0, 5, 3, RingDirection::Growing);
    let narrow = ring_at(10, 0, 3, 1, RingDirection::Growing);
    assert!(wide.is_intersecting(&narrow));
    assert!(!narrow.is_intersecting(&wide));
}

#[test]
fn press_edge_spawns_once_per_press() {
    let p = Point { x: 3, y: 4 };
    assert_eq!(
        rings::input::press_edge(&ButtonState::Up, &ButtonState::Down(p)),
        Some(p)
    );
    // the button stays down at the same point: no new press is recorded
    assert_eq!(
        rings::input::press_edge(&ButtonState::Down(p), &ButtonState::Down(p)),
        None
    );
    assert_eq!(rings::input::press_edge(&ButtonState::Down(p), &ButtonState::Up), None);
    assert_eq!(rings::input::press_edge(&ButtonState::Up, &ButtonState::Up), None);
}

#[test]
fn held_button_spawns_exactly_one_ring() {
    let mut rng = StdRng::seed_from_u64(31);
    let mut set = RingSet::new();
    let p = Point { x: 8, y: -2 };
    let mut last = ButtonState::Up;
    // the button goes down on the first tick and stays held for nine more
    for _ in 0..10 {
        let now = ButtonState::Down(p);
        if let Some(at) = rings::input::press_edge(&last, &now) {
            set.spawn(at, &mut rng);
        }
        last = now;
        set.step();
    }
    assert_eq!(set.len(), 1);
}

#[test]
fn named_colors_resolve_to_css_values() {
    assert_eq!(
        Color::Honeydew.to_rgb(),
        Rgb {
            red: 240,
            green: 255,
            blue: 240
        }
    );
    assert_eq!(
        Color::SteelBlue.to_rgb(),
        Rgb {
            red: 70,
            green: 130,
            blue: 180
        }
    );
    assert_eq!(
        Color::Black.to_rgb(),
        Rgb {
            red: 0,
            green: 0,
            blue: 0
        }
    );
}

#[test]
fn empty_set_is_valid_and_step_is_a_noop() {
    let mut set = RingSet::new();
    set.step();
    assert!(set.snapshot().is_empty());
    assert_eq!(set.len(), 0);
}

#[test]
fn snapshot_keeps_insertion_order() {
    let mut rng = StdRng::seed_from_u64(37);
    let mut set = RingSet::new();
    for x in [100, -40, 0, 7] {
        set.spawn(Point { x, y: x }, &mut rng);
    }
    let snap = set.snapshot();
    let xs: Vec<i64> = snap.iter().map(|r| r.origin.x).collect();
    assert_eq!(xs, vec![100, -40, 0, 7]);
}

#[test]
fn color_names_are_lowercase_css_names() {
    assert_eq!(Color::Honeydew.name(), "honeydew");
    assert_eq!(Color::SteelBlue.name(), "steelblue");
    assert_eq!(Color::Black.name(), "black");
}

#[test]
fn distance_sq_is_exact() {
    let a = Point { x: 0, y: 0 };
    let b = Point { x: 3, y: 4 };
    assert_eq!(a.distance_sq(&b), 25);
    assert_eq!(b.distance_sq(&a), 25);
    assert_eq!(a.distance_sq(&a), 0);
}
