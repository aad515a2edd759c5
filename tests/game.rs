use asteroids::asteroid::{Asteroid, ASTEROID_SCALE};
use asteroids::general::{
    check_collision_asteroid_missile, check_collision_spaceship_asteroid, fixed_tick, remove_asteroid, run_ticks,
    Gamestate, Input, ASTEROID_LIMIT, FAST_SPEED, NORMAL_SPEED, SLOW_SPEED, START_ASTEROIDS, START_LIVES, TICK,
};
use asteroids::geometry::{bound_to, circles_overlap, wrap_angle, Heading, Point, HEADING_UNIT, SUBPIXELS};
use asteroids::missile::Missile;
use asteroids::random::{create_weights, pick_variant};
use asteroids::spaceship::Spaceship;

const W: i64 = 800 * SUBPIXELS;
const H: i64 = 600 * SUBPIXELS;

fn rock_at(x: i64, y: i64, size: u8) -> Asteroid {
    Asteroid::new(Point::new(x, y), 0, size, ASTEROID_SCALE, 0, 0, 1000, 0, String::from("rock"))
}

fn game() -> Gamestate {
    Gamestate::new(W, H, vec![String::from("common"), String::from("rare")])
}

#[test]
fn removal_of_listed_indices_after_dedup() {
    let mut v: Vec<u32> = (0..10).collect();
    remove_asteroid(&mut v, &vec![4, 1, 1, 7]);
    assert_eq!(v, vec![0, 2, 3, 5, 6, 8, 9]);
    assert_eq!(v.len(), 7);
}

#[test]
fn removal_with_no_indices_keeps_all() {
    let mut v: Vec<u32> = vec![3, 4];
    remove_asteroid(&mut v, &vec![]);
    assert_eq!(v, vec![3, 4]);
}

#[test]
fn weights_of_four_variants() {
    assert_eq!(create_weights(4), vec![255, 15, 15, 15]);
    assert_eq!(create_weights(1), vec![85]);
}

#[test]
fn first_variant_drawn_about_85_percent() {
    let trials = 100_000;
    let mut first = 0;
    for _ in 0..trials {
        let k = pick_variant(4);
        assert!(k < 4);
        if k == 0 {
            first += 1;
        }
    }
    let freq = first as f64 / trials as f64;
    assert!((freq - 0.85).abs() <= 0.01, "frequency {}", freq);
}

#[test]
fn single_variant_always_drawn() {
    for _ in 0..100 {
        assert_eq!(pick_variant(1), 0);
    }
}

#[test]
fn projectile_destroying_tier_three_scores_300() {
    let mut g = game();
    g.asteroids.push(rock_at(100 * SUBPIXELS, 100 * SUBPIXELS, 3));
    g.missiles.push(Missile::new(Point::new(100 * SUBPIXELS, 100 * SUBPIXELS), 0, 0));
    g.number_of_asteroids = 1;
    check_collision_asteroid_missile(&mut g);
    assert_eq!(g.score, 300);
    assert_eq!(g.missiles.len(), 0);
    assert_eq!(g.asteroids.len(), 2);
    assert!(g.asteroids.iter().all(|a| a.size == 2));
    assert_eq!(g.number_of_asteroids, 2);
}

#[test]
fn projectile_destroying_tier_one_scores_100() {
    let mut g = game();
    g.asteroids.push(rock_at(100 * SUBPIXELS, 100 * SUBPIXELS, 1));
    g.missiles.push(Missile::new(Point::new(110 * SUBPIXELS, 100 * SUBPIXELS), 0, 0));
    check_collision_asteroid_missile(&mut g);
    assert_eq!(g.score, 100);
    assert_eq!(g.asteroids.len(), 0);
    assert_eq!(g.missiles.len(), 0);
}

#[test]
fn one_projectile_destroys_every_hazard_it_touches() {
    let mut g = game();
    g.asteroids.push(rock_at(100 * SUBPIXELS, 100 * SUBPIXELS, 1));
    g.asteroids.push(rock_at(101 * SUBPIXELS, 100 * SUBPIXELS, 3));
    g.asteroids.push(rock_at(700 * SUBPIXELS, 500 * SUBPIXELS, 1));
    g.missiles.push(Missile::new(Point::new(100 * SUBPIXELS, 100 * SUBPIXELS), 0, 0));
    g.missiles.push(Missile::new(Point::new(300 * SUBPIXELS, 300 * SUBPIXELS), 0, 0));
    check_collision_asteroid_missile(&mut g);
    assert_eq!(g.score, 400);
    assert_eq!(g.missiles.len(), 1);
    assert_eq!(g.missiles[0].position.x, 300 * SUBPIXELS);
    assert_eq!(g.asteroids[0].position.x, 700 * SUBPIXELS);
    assert_eq!(g.asteroids.len(), 3);
}

#[test]
fn spent_projectile_and_far_projectile_do_not_score() {
    let mut g = game();
    g.asteroids.push(rock_at(100 * SUBPIXELS, 100 * SUBPIXELS, 2));
    let mut spent = Missile::new(Point::new(100 * SUBPIXELS, 100 * SUBPIXELS), 0, 0);
    spent.active = false;
    g.missiles.push(spent);
    g.missiles.push(Missile::new(Point::new(500 * SUBPIXELS, 500 * SUBPIXELS), 0, 0));
    check_collision_asteroid_missile(&mut g);
    assert_eq!(g.score, 0);
    assert_eq!(g.asteroids.len(), 1);
    assert_eq!(g.missiles.len(), 2);
}

#[test]
fn tier_zero_hazard_is_not_hit_and_is_purged() {
    let mut g = game();
    g.asteroids.push(rock_at(100 * SUBPIXELS, 100 * SUBPIXELS, 0));
    g.missiles.push(Missile::new(Point::new(100 * SUBPIXELS, 100 * SUBPIXELS), 0, 0));
    let ship = Spaceship::new(200 * SUBPIXELS, 200 * SUBPIXELS);
    let mut rocks = vec![rock_at(100 * SUBPIXELS, 100 * SUBPIXELS, 0)];
    assert!(!check_collision_spaceship_asteroid(&ship, &mut rocks));
    assert_eq!(rocks.len(), 1);
    fixed_tick(&mut g);
    assert_eq!(g.asteroids.len(), 0);
    assert_eq!(g.missiles.len(), 1);
    assert_eq!(g.score, 0);
    assert_eq!(g.loop_number, 1);
}

#[test]
fn craft_hit_splits_hazard_with_growth() {
    let ship = Spaceship::new(200 * SUBPIXELS, 200 * SUBPIXELS);
    let mut rocks = vec![
        rock_at(100 * SUBPIXELS, 100 * SUBPIXELS, 3),
        rock_at(700 * SUBPIXELS, 500 * SUBPIXELS, 3),
    ];
    assert!(check_collision_spaceship_asteroid(&ship, &mut rocks));
    assert_eq!(rocks.len(), 3);
    assert_eq!(rocks[0].position.x, 700 * SUBPIXELS);
    assert_eq!(rocks[1].size, 2);
    assert_eq!(rocks[2].size, 2);
}

#[test]
fn growth_refused_at_population_limit() {
    let mut g = game();
    g.asteroids.push(rock_at(100 * SUBPIXELS, 100 * SUBPIXELS, 3));
    g.missiles.push(Missile::new(Point::new(100 * SUBPIXELS, 100 * SUBPIXELS), 0, 0));
    g.number_of_asteroids = ASTEROID_LIMIT;
    check_collision_asteroid_missile(&mut g);
    assert_eq!(g.asteroids.len(), 1);
    assert_eq!(g.asteroids[0].size, 2);
}

#[test]
fn ticks_follow_the_accumulator() {
    let mut g = game();
    g.delta_time = 2 * TICK + 5;
    run_ticks(&mut g);
    assert_eq!(g.loop_number, 2);
    assert_eq!(g.accumulator, 5);
    g.delta_time = TICK - 6;
    run_ticks(&mut g);
    assert_eq!(g.loop_number, 2);
    assert_eq!(g.accumulator, TICK - 1);
}

#[test]
fn dilation_scales_and_freezes_time() {
    let mut g = game();
    g.simulation_speed = SLOW_SPEED;
    g.set_delta_time(16_000);
    assert_eq!(g.delta_time, 1_600);
    g.simulation_speed = 0;
    g.set_delta_time(16_000);
    assert_eq!(g.delta_time, 0);
}

#[test]
fn new_game_state_defaults() {
    let g = game();
    assert_eq!(g.lives, START_LIVES);
    assert_eq!(g.score, 0);
    assert_eq!(g.asteroid_limit, ASTEROID_LIMIT);
    assert_eq!(g.simulation_speed, NORMAL_SPEED);
    assert!(!g.game_started && !g.game_over && !g.game_won);
    assert_eq!(g.spaceship.position, Point::new(W / 2, H / 2));
}

#[test]
fn start_and_quit_commands() {
    let mut g = game();
    let start = Input { start: true, ..Input::default() };
    assert!(!g.handle_input(start));
    assert!(g.game_started);
    assert_eq!(g.asteroids.len(), START_ASTEROIDS);
    assert_eq!(g.simulation_speed, 0);
    let fast = Input { fast: true, ..Input::default() };
    assert!(!g.handle_input(fast));
    assert_eq!(g.simulation_speed, FAST_SPEED);
    let quit = Input { quit: true, ..Input::default() };
    assert!(!g.handle_input(quit));
    assert!(!g.game_started);
    assert!(g.handle_input(quit));
}

#[test]
fn fire_only_while_running() {
    let mut g = game();
    g.simulation_speed = 0;
    g.handle_input(Input { fire: true, ..Input::default() });
    assert_eq!(g.missiles.len(), 0);
    g.simulation_speed = NORMAL_SPEED;
    g.handle_input(Input { fire: true, ..Input::default() });
    assert_eq!(g.missiles.len(), 1);
    assert_eq!(g.missiles[0].velocity, g.spaceship.max_speed);
}

#[test]
fn craft_collision_costs_a_life_and_ends_game() {
    let mut g = game();
    g.game_started = true;
    g.lives = 1;
    g.asteroids.push(rock_at(W / 2, H / 2, 1));
    g.spaceship.speed = 7;
    g.delta_time = TICK;
    g.step();
    assert_eq!(g.lives, 0);
    assert!(!g.game_started && g.game_over);
    assert_eq!(g.spaceship.speed, 0);
    assert_eq!(g.asteroids.len(), 0);
    g.game_started = true;
    g.check_victory();
    assert!(g.game_won && !g.game_started);
}

#[test]
fn frozen_frame_checks_no_collision() {
    let mut g = game();
    g.game_started = true;
    g.asteroids.push(rock_at(W / 2, H / 2, 3));
    g.delta_time = 0;
    g.step();
    assert_eq!(g.lives, START_LIVES);
    assert_eq!(g.asteroids.len(), 1);
    g.delta_time = TICK;
    g.step();
    assert_eq!(g.lives, START_LIVES - 1);
    assert_eq!(g.asteroids.len(), 2);
    assert_eq!(g.loop_number, 1);
}

#[test]
fn integrate_moves_everything() {
    let mut g = game();
    let mut a = rock_at(100 * SUBPIXELS, 100 * SUBPIXELS, 3);
    a.speed = 10 * SUBPIXELS;
    a.turn_rate = -1000;
    g.asteroids.push(a);
    g.missiles.push(Missile::new(Point::new(50 * SUBPIXELS, 50 * SUBPIXELS), 0, 0));
    g.delta_time = 1_000_000;
    let east = Heading::new(HEADING_UNIT, 0);
    g.integrate(east, &vec![east], &vec![east]);
    assert_eq!(g.asteroids[0].position.x, 110 * SUBPIXELS);
    assert_eq!(g.asteroids[0].rotation, -1000);
    assert_eq!(g.missiles[0].position.x, 250 * SUBPIXELS);
}

#[test]
fn integrate_moves_spent_projectiles_too() {
    let mut g = game();
    let mut m = Missile::new(Point::new(50 * SUBPIXELS, 50 * SUBPIXELS), 0, 0);
    m.active = false;
    g.missiles.push(m);
    g.delta_time = 1_000_000;
    let east = Heading::new(HEADING_UNIT, 0);
    g.integrate(east, &vec![], &vec![east]);
    assert_eq!(g.missiles[0].position.x, 250 * SUBPIXELS);
    assert!(!g.missiles[0].active);
}

#[test]
fn craft_moves_with_integration() {
    let mut g = game();
    g.spaceship.speed = 100 * SUBPIXELS;
    g.delta_time = 1_000_000;
    g.integrate(Heading::new(0, HEADING_UNIT), &vec![], &vec![]);
    assert_eq!(g.spaceship.position.y, H / 2 + 100 * SUBPIXELS);
    assert_eq!(g.spaceship.position.x, W / 2);
}

#[test]
fn geometry_helpers() {
    assert_eq!(bound_to(-1, 50), 50);
    assert_eq!(bound_to(51, 50), 0);
    assert_eq!(bound_to(20, 50), 20);
    assert_eq!(wrap_angle(350_000, 20_000), 10_000);
    assert!(circles_overlap(Point::new(0, 0), Point::new(3, 4), 6));
    assert!(!circles_overlap(Point::new(0, 0), Point::new(3, 4), 5));
}
