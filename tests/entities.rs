use asteroids::asteroid::{Asteroid, SplitDraws, ASTEROID_SCALE};
use asteroids::geometry::{Heading, Point, HEADING_UNIT, MICROS, SUBPIXELS, TURN};
use asteroids::missile::{Missile, MISSILE_BOOST, MISSILE_SIZE};
use asteroids::spaceship::Spaceship;

fn rock(size: u8) -> Asteroid {
    Asteroid::new(
        Point::new(500 * SUBPIXELS, 400 * SUBPIXELS),
        100 * SUBPIXELS,
        size,
        ASTEROID_SCALE,
        1000,
        2000,
        1000,
        30_000,
        String::from("rock"),
    )
}

fn draws() -> SplitDraws {
    SplitDraws { first_speed: 1500, first_turn: 2000, second_speed: 1000, second_turn: 3500 }
}

#[test]
fn test_missile_creation() {
    let position = Point::new(100 * SUBPIXELS, 100 * SUBPIXELS);
    let direction: i64 = 1 * SUBPIXELS;
    let rotation: i64 = 0;
    let missile = Missile::new(position, direction, rotation);

    assert_eq!(missile.position, position);
    assert_eq!(missile.velocity, direction.abs());
    assert_eq!(missile.rotation, rotation);
    assert!(missile.active);
    assert_eq!(missile.size, MISSILE_SIZE);
}

#[test]
fn test_missile_draw() {
    let missile = Missile::new(Point::new(100 * SUBPIXELS, 100 * SUBPIXELS), 1 * SUBPIXELS, 0);
    assert!(missile.active);
}

#[test]
fn test_spaceship_creation() {
    let spaceship = Spaceship::new(200 * SUBPIXELS, 200 * SUBPIXELS);

    assert_eq!(spaceship.position.x, 100 * SUBPIXELS);
    assert_eq!(spaceship.position.y, 100 * SUBPIXELS);
    assert_eq!(spaceship.speed, 0);
    assert_eq!(spaceship.rotation, 0);
}

#[test]
fn test_spaceship_rotation() {
    let mut spaceship = Spaceship::new(200 * SUBPIXELS, 200 * SUBPIXELS);
    spaceship.add_rotation(TURN / 4);
    assert_eq!(spaceship.rotation, TURN / 4);
}

#[test]
fn test_spaceship_move_forward() {
    let mut spaceship = Spaceship::new(200 * SUBPIXELS, 200 * SUBPIXELS);
    spaceship.speed = 100 * SUBPIXELS;
    spaceship.move_spaceship(MICROS, true);
    assert!(spaceship.speed > 100 * SUBPIXELS, "the speed should have grown");
}

#[test]
fn test_spaceship_move_backward() {
    let mut spaceship = Spaceship::new(200 * SUBPIXELS, 200 * SUBPIXELS);
    spaceship.speed = 100 * SUBPIXELS;
    spaceship.move_spaceship(MICROS, false);
    assert!(spaceship.speed < 100 * SUBPIXELS, "the speed should have dropped");
}

#[test]
fn test_spaceship_max_speed() {
    let mut spaceship = Spaceship::new(200 * SUBPIXELS, 200 * SUBPIXELS);
    spaceship.speed = 600 * SUBPIXELS;
    spaceship.move_spaceship(MICROS, true);
    assert_eq!(spaceship.speed, spaceship.max_speed, "the speed must not pass the ceiling");
}

#[test]
fn thrust_values_are_exact() {
    let mut ship = Spaceship::new(200 * SUBPIXELS, 200 * SUBPIXELS);
    ship.speed = 100 * SUBPIXELS;
    ship.move_spaceship(MICROS, true);
    assert_eq!(ship.speed, 250 * SUBPIXELS);
    ship.move_spaceship(MICROS, false);
    // against the motion: three times 150 px/s
    assert_eq!(ship.speed, -200 * SUBPIXELS);
    let mut rest = Spaceship::new(200 * SUBPIXELS, 200 * SUBPIXELS);
    rest.move_spaceship(MICROS / 2, false);
    assert_eq!(rest.speed, -225 * SUBPIXELS);
}

#[test]
fn thrust_with_huge_step_hits_ceiling_exactly() {
    let mut ship = Spaceship::new(200 * SUBPIXELS, 200 * SUBPIXELS);
    ship.move_spaceship(1_000_000_000, true);
    assert_eq!(ship.speed, ship.max_speed);
    ship.move_spaceship(1_000_000_000, false);
    assert_eq!(ship.speed, -ship.max_speed);
    for _ in 0..50 {
        ship.move_spaceship(123_456, true);
        assert!(ship.speed.abs() <= ship.max_speed);
    }
}

#[test]
fn craft_update_clamps_and_wraps() {
    let mut ship = Spaceship::new(200 * SUBPIXELS, 200 * SUBPIXELS);
    ship.speed = -900 * SUBPIXELS;
    ship.update(MICROS, Heading::new(HEADING_UNIT, 0), 200 * SUBPIXELS, 200 * SUBPIXELS);
    assert_eq!(ship.speed, -500 * SUBPIXELS);
    // 100 px - 500 px is past the left edge: it reappears at the right edge
    assert_eq!(ship.position.x, 200 * SUBPIXELS);
    assert_eq!(ship.position.y, 100 * SUBPIXELS);
    assert_eq!(ship.get_collision_radius(), ship.size);
}

#[test]
fn projectile_moves_speed_plus_boost_along_x() {
    let mut m = Missile::new(Point::new(10 * SUBPIXELS, 50 * SUBPIXELS), -300 * SUBPIXELS, 0);
    assert_eq!(m.velocity, 300 * SUBPIXELS);
    m.update(MICROS, Heading::new(HEADING_UNIT, 0), 10_000 * SUBPIXELS, 10_000 * SUBPIXELS);
    assert_eq!(m.position.x, 10 * SUBPIXELS + 300 * SUBPIXELS + MISSILE_BOOST);
    assert_eq!(m.position.y, 50 * SUBPIXELS);
    assert!(m.active);
}

#[test]
fn projectile_leaving_screen_is_spent_and_not_wrapped() {
    let mut m = Missile::new(Point::new(10 * SUBPIXELS, 50 * SUBPIXELS), 0, 0);
    m.update(MICROS, Heading::new(-HEADING_UNIT, 0), 1000 * SUBPIXELS, 1000 * SUBPIXELS);
    assert_eq!(m.position.x, 10 * SUBPIXELS - MISSILE_BOOST);
    assert!(!m.active);
    m.update(MICROS, Heading::new(HEADING_UNIT, 0), 1000 * SUBPIXELS, 1000 * SUBPIXELS);
    assert_eq!(m.position.x, 10 * SUBPIXELS);
    assert!(!m.active);
}

#[test]
fn hazard_past_left_edge_reappears_at_width() {
    let mut a = Asteroid::new(
        Point::new(0, 10 * SUBPIXELS),
        1000,
        3,
        ASTEROID_SCALE,
        0,
        0,
        1000,
        0,
        String::from("rock"),
    );
    // 1 sub-pixel per millisecond, for one millisecond, leftward: x = -1
    a.move_object(1000, Heading::new(-HEADING_UNIT, 0), 800 * SUBPIXELS, 600 * SUBPIXELS);
    assert_eq!(a.position.x, 800 * SUBPIXELS);
    assert_eq!(a.position.y, 10 * SUBPIXELS);
}

#[test]
fn hazard_drift_uses_multiplier() {
    let mut a = rock(3);
    a.speed_multiplier = 1500;
    a.move_object(MICROS, Heading::new(0, HEADING_UNIT), 800 * SUBPIXELS, 600 * SUBPIXELS);
    assert_eq!(a.position.y, 400 * SUBPIXELS + 150 * SUBPIXELS);
    assert_eq!(a.position.x, 500 * SUBPIXELS);
}

#[test]
fn hazard_rotation_wraps_keeping_sign() {
    let mut a = rock(3);
    a.rotation = TURN - 10;
    a.add_rotation(25);
    assert_eq!(a.rotation, 15);
    a.rotation = -TURN + 10;
    a.add_rotation(-25);
    assert_eq!(a.rotation, -15);
}

#[test]
fn hazard_radius_is_tier_times_scale_halved() {
    assert_eq!(rock(3).collision_radius(), 3 * ASTEROID_SCALE / 2);
    assert_eq!(rock(1).collision_radius(), ASTEROID_SCALE / 2);
}

#[test]
fn split_tier_two_refused_growth_gives_one_child() {
    let kids = rock(2).split_with(false, draws());
    assert_eq!(kids.len(), 1);
    assert_eq!(kids[0].size, 1);
}

#[test]
fn split_tier_two_allowed_growth_gives_two_children() {
    let kids = rock(2).split_with(true, draws());
    assert_eq!(kids.len(), 2);
    assert_eq!(kids[0].size, 1);
    assert_eq!(kids[1].size, 1);
    let random_kids = rock(2).split(true);
    assert_eq!(random_kids.len(), 2);
    assert!(random_kids.iter().all(|k| k.size == 1));
}

#[test]
fn split_tier_one_gives_nothing() {
    assert_eq!(rock(1).split_with(true, draws()).len(), 0);
    assert_eq!(rock(1).split_with(false, draws()).len(), 0);
    assert_eq!(rock(1).split(true).len(), 0);
}

#[test]
fn split_tier_zero_gives_nothing() {
    assert_eq!(rock(0).split_with(true, draws()).len(), 0);
    assert_eq!(rock(0).split(true).len(), 0);
    assert_eq!(rock(0).split(false).len(), 0);
}

#[test]
fn thrust_with_enormous_step_snaps_to_ceiling() {
    let mut ship = Spaceship::new(200 * SUBPIXELS, 200 * SUBPIXELS);
    ship.move_spaceship(i64::MAX, true);
    assert_eq!(ship.speed, ship.max_speed);
    ship.move_spaceship(i64::MAX, false);
    assert_eq!(ship.speed, -ship.max_speed);
}

#[test]
fn spent_projectile_keeps_moving() {
    let mut m = Missile::new(Point::new(10 * SUBPIXELS, 50 * SUBPIXELS), 0, 0);
    m.active = false;
    m.update(MICROS, Heading::new(HEADING_UNIT, 0), 1000 * SUBPIXELS, 1000 * SUBPIXELS);
    assert_eq!(m.position.x, 10 * SUBPIXELS + MISSILE_BOOST);
    assert!(!m.active);
}

#[test]
fn split_children_values() {
    let p = rock(3);
    let kids = p.split_with(true, draws());
    let a = &kids[0];
    assert_eq!(a.position, p.position);
    assert_eq!(a.speed, -150 * SUBPIXELS);
    assert_eq!(a.rotation, -1000 + 45_000);
    assert_eq!(a.direction, -2000 - 45_000);
    assert_eq!(a.turn_rate, -60_000);
    assert_eq!(a.speed_multiplier, 1000);
    assert_eq!(a.texture, "rock");
    let b = &kids[1];
    assert_eq!(b.speed, -100 * SUBPIXELS);
    assert_eq!(b.rotation, -1000 - 45_000);
    assert_eq!(b.direction, -2000 + 45_000);
    assert_eq!(b.turn_rate, 105_000);
    assert_eq!(b.size, 2);
}

#[test]
fn random_split_factors_stay_in_range() {
    let p = rock(3);
    for _ in 0..200 {
        let kids = p.split(true);
        assert_eq!(kids.len(), 2);
        assert!(kids[0].speed <= -100 * SUBPIXELS && kids[0].speed >= -175 * SUBPIXELS);
        assert!(kids[1].speed <= -100 * SUBPIXELS && kids[1].speed >= -200 * SUBPIXELS);
        assert!(kids[0].turn_rate <= -30_000 && kids[0].turn_rate >= -60_000);
        assert!(kids[1].turn_rate >= 30_000 && kids[1].turn_rate <= 105_000);
    }
}

#[test]
fn spawn_near_an_edge_with_catalog_variant() {
    let catalog = vec![String::from("common"), String::from("rare")];
    let (w, h) = (800 * SUBPIXELS, 600 * SUBPIXELS);
    for _ in 0..200 {
        let a = Asteroid::spawn(w, h, &catalog);
        assert!(a.size >= 1 && a.size <= 3);
        assert!(catalog.contains(&a.texture));
        let near_x = a.position.x <= 60 * SUBPIXELS || a.position.x >= w - 60 * SUBPIXELS;
        let near_y = a.position.y <= 60 * SUBPIXELS || a.position.y >= h - 60 * SUBPIXELS;
        assert!(near_x || near_y);
        let factor = match a.size { 1 => 3, 2 => 2, _ => 1 };
        assert_eq!(a.speed, factor * a.speed_multiplier * 50);
        assert!(a.turn_rate.abs() >= 28_648 && a.turn_rate.abs() <= 85_943);
    }
}

#[test]
fn spawn_position_from_draws() {
    let (w, h) = (800 * SUBPIXELS, 600 * SUBPIXELS);
    assert_eq!(Asteroid::alea_pos_from(1, 40_000, 7, 9, w, h), Point::new(7, 40_000));
    assert_eq!(Asteroid::alea_pos_from(2, 40_000, 7, 9, w, h), Point::new(w - 40_000, 9));
    assert_eq!(Asteroid::alea_pos_from(3, 40_000, 7, 9, w, h), Point::new(7, h - 40_000));
    assert_eq!(Asteroid::alea_pos_from(4, 40_000, 7, 9, w, h), Point::new(40_000, 9));
}
