//! The game state and the fixed-step rules that act on it: collision
//! passes, splitting of destroyed hazards, and removal by index.
use crate::asteroid::{spawned, Asteroid, TURN_RATE_CAP};
use crate::geometry::{
    advance_spec, circles_overlap, overlap_spec, wrap_angle_spec, wrap_coord_spec, Heading, Point, COORD_LIMIT,
    DT_LIMIT, MICROS,
};
use crate::missile::{on_screen, Missile, MISSILE_BOOST, MISSILE_SIZE};
use crate::random::MAX_VARIANTS;
use crate::spaceship::{clamp_speed, thrust_spec, Spaceship, SHIP_MAX_SPEED, SHIP_SIZE, SHIP_TURN_RATE};
use vstd::prelude::*;

verus! {

/// The items of `s` from index `i` on whose index is not in `doomed`, in order.
pub open spec fn kept_from<T>(s: Seq<T>, doomed: Seq<usize>, i: int) -> Seq<T>
    decreases s.len() - i,
{
    if i < 0 || i >= s.len() {
        Seq::empty()
    } else if doomed.contains(i as usize) {
        kept_from(s, doomed, i + 1)
    } else {
        seq![s[i]] + kept_from(s, doomed, i + 1)
    }
}

/// `s` without the items whose indices are listed in `doomed` (duplicates
/// and indices out of range count for nothing).
pub open spec fn without<T>(s: Seq<T>, doomed: Seq<usize>) -> Seq<T> {
    kept_from(s, doomed, 0)
}

/// Whether `x` is one of the items of `v`.
fn contains_index(v: &Vec<usize>, x: usize) -> (r: bool)
    ensures
        r == v@.contains(x),
{
    let mut k: usize = 0;
    while k < v.len()
        invariant
            k <= v@.len(),
            forall|j: int| 0 <= j < k ==> v@[j] != x,
        decreases v.len() - k,
    {
        if v[k] == x {
            return true;
        }
        k = k + 1;
    }
    false
}

/// Removes from `vector` the items whose indices `indices` lists, walking the
/// indices in descending order and removing from the tail first, so that no
/// removal shifts an item still to be examined. Duplicate indices count once.
pub fn remove_asteroid<T>(vector: &mut Vec<T>, indices: &Vec<usize>)
    ensures
        final(vector)@ == without(old(vector)@, indices@),
{
    let ghost s = vector@;
    let mut i: usize = vector.len();
    proof {
        assert(vector@.take(i as int) =~= s);
    }
    while i > 0
        invariant
            i <= s.len(),
            vector@ == s.take(i as int) + kept_from(s, indices@, i as int),
        decreases i,
    {
        i = i - 1;
        let doomed = contains_index(indices, i);
        proof {
            assert(s.take(i + 1 as int) =~= s.take(i as int).push(s[i as int]));
        }
        if doomed {
            vector.remove(i);
            proof {
                assert(vector@ =~= s.take(i as int) + kept_from(s, indices@, i as int));
            }
        } else {
            proof {
                assert(vector@ =~= s.take(i as int) + kept_from(s, indices@, i as int));
            }
        }
    }
    proof {
        assert(vector@ =~= without(s, indices@));
    }
}

/// The craft touches the hazard `a`: a hazard of tier 0 touches nothing.
pub open spec fn hits_ship(ship: Spaceship, a: Asteroid) -> bool {
    a.size > 0 && overlap_spec(ship.position, a.position, a.radius_spec() + ship.size)
}

/// Indices, in ascending order, of the first `k` hazards of `s` that the craft touches.
pub open spec fn ship_hits(ship: Spaceship, s: Seq<Asteroid>, k: int) -> Seq<usize>
    decreases k,
{
    if k <= 0 {
        Seq::empty()
    } else if hits_ship(ship, s[k - 1]) {
        ship_hits(ship, s, k - 1).push((k - 1) as usize)
    } else {
        ship_hits(ship, s, k - 1)
    }
}

/// The hazards of `s` at the indices `idx`, in that order.
pub open spec fn parents_of(s: Seq<Asteroid>, idx: Seq<usize>) -> Seq<Asteroid> {
    idx.map_values(|i: usize| s[i as int])
}

/// `kids` is, for some draws, the children of each of `parents` in turn,
/// split with `can_add`.
pub open spec fn split_all_outcome(parents: Seq<Asteroid>, can_add: bool, kids: Seq<Asteroid>) -> bool
    decreases parents.len(),
{
    if parents.len() == 0 {
        kids.len() == 0
    } else {
        exists|n: int|
            0 <= n <= kids.len()
            && parents.last().split_outcome(can_add, #[trigger] kids.subrange(n, kids.len() as int))
            && split_all_outcome(parents.drop_last(), can_add, kids.subrange(0, n))
    }
}

proof fn lemma_split_all_push(
    parents: Seq<Asteroid>,
    p: Asteroid,
    can_add: bool,
    kids: Seq<Asteroid>,
    more: Seq<Asteroid>,
)
    requires
        split_all_outcome(parents, can_add, kids),
        p.split_outcome(can_add, more),
    ensures
        split_all_outcome(parents.push(p), can_add, kids + more),
{
    let all = kids + more;
    let n = kids.len() as int;
    assert(all.subrange(n, all.len() as int) =~= more);
    assert(all.subrange(0, n) =~= kids);
    assert(parents.push(p).drop_last() =~= parents);
    assert(parents.push(p).last() == p);
    assert(0 <= n <= all.len()
        && parents.push(p).last().split_outcome(can_add, all.subrange(n, all.len() as int))
        && split_all_outcome(parents.push(p).drop_last(), can_add, all.subrange(0, n)));
}

/// `new` is `s` without the hazards at the indices `doomed` (in their
/// order), followed by the children of those hazards, each split with
/// `can_add`, in the order of `doomed`.
pub open spec fn replaced(s: Seq<Asteroid>, doomed: Seq<usize>, can_add: bool, new: Seq<Asteroid>) -> bool {
    let kept = without(s, doomed);
    let kids = new.subrange(kept.len() as int, new.len() as int);
    &&& kept.len() <= new.len()
    &&& new == kept + kids
    &&& split_all_outcome(parents_of(s, doomed), can_add, kids)
}

/// Every hazard of the sequence is well formed.
pub open spec fn all_wf(s: Seq<Asteroid>) -> bool {
    forall|k: int| 0 <= k < s.len() ==> (#[trigger] s[k]).wf()
}

/// Checks the craft against every hazard. Each hazard it touches is removed
/// and replaced by its children, split with growth allowed whatever the
/// population. Returns whether any hazard was touched.
pub fn check_collision_spaceship_asteroid(spaceship: &Spaceship, asteroids: &mut Vec<Asteroid>) -> (r: bool)
    requires
        spaceship.wf(),
        all_wf(old(asteroids)@),
    ensures
        r == exists|i: int| 0 <= i < old(asteroids)@.len() && hits_ship(*spaceship, #[trigger] old(asteroids)@[i]),
        replaced(old(asteroids)@, ship_hits(*spaceship, old(asteroids)@, old(asteroids)@.len() as int), true,
            final(asteroids)@),
        !r ==> final(asteroids)@ == old(asteroids)@,
        all_wf(final(asteroids)@),
{
    let ghost s = asteroids@;
    let mut to_add: Vec<Asteroid> = Vec::new();
    let mut to_remove: Vec<usize> = Vec::new();
    let mut result = false;
    let mut i: usize = 0;
    proof {
        assert(parents_of(s, to_remove@) =~= Seq::<Asteroid>::empty());
    }
    while i < asteroids.len()
        invariant
            asteroids@ == s,
            i <= s.len(),
            all_wf(s),
            spaceship.wf(),
            to_remove@ == ship_hits(*spaceship, s, i as int),
            split_all_outcome(parents_of(s, to_remove@), true, to_add@),
            all_wf(to_add@),
            result == exists|j: int| 0 <= j < i && hits_ship(*spaceship, #[trigger] s[j]),
            !result ==> to_remove@.len() == 0 && to_add@.len() == 0,
        decreases s.len() - i,
    {
        let a = &asteroids[i];
        assert(a.wf());
        let hit = a.size > 0 && circles_overlap(
            spaceship.position,
            a.position,
            a.collision_radius() + spaceship.get_collision_radius(),
        );
        if hit {
            let mut kids = a.split(true);
            proof {
                lemma_split_all_push(parents_of(s, to_remove@), *a, true, to_add@, kids@);
                assert(parents_of(s, to_remove@.push(i)) =~= parents_of(s, to_remove@).push(*a));
            }
            let ghost before = to_add@;
            let ghost fresh = kids@;
            to_add.append(&mut kids);
            proof {
                assert forall|k: int| 0 <= k < to_add@.len() implies (#[trigger] to_add@[k]).wf() by {
                    if k >= before.len() {
                        assert(to_add@[k] == fresh[k - before.len()]);
                    }
                }
            }
            to_remove.push(i);
            result = true;
        }
        i = i + 1;
    }
    let ghost hits = to_remove@;
    remove_asteroid(asteroids, &to_remove);
    let ghost kept = asteroids@;
    let ghost added = to_add@;
    asteroids.append(&mut to_add);
    proof {
        assert(asteroids@.subrange(kept.len() as int, asteroids@.len() as int) =~= added);
        assert(asteroids@ =~= kept + added);
        if !result {
            lemma_kept_from_nothing(s, hits, 0);
            assert(asteroids@ =~= s);
        }
        lemma_without_wf(s, hits);
        assert forall|k: int| 0 <= k < asteroids@.len() implies (#[trigger] asteroids@[k]).wf() by {
            if k < kept.len() {
                assert(asteroids@[k] == kept[k]);
            } else {
                assert(asteroids@[k] == added[k - kept.len()]);
            }
        }
    }
    result
}

proof fn lemma_kept_from_nothing<T>(s: Seq<T>, doomed: Seq<usize>, i: int)
    requires
        doomed.len() == 0,
        0 <= i <= s.len(),
    ensures
        kept_from(s, doomed, i) == s.subrange(i, s.len() as int),
    decreases s.len() - i,
{
    if i < s.len() {
        lemma_kept_from_nothing(s, doomed, i + 1);
        assert(!doomed.contains(i as usize));
        assert(seq![s[i]] + s.subrange(i + 1, s.len() as int) =~= s.subrange(i, s.len() as int));
    } else {
        assert(s.subrange(i, s.len() as int) =~= Seq::<T>::empty());
    }
}

proof fn lemma_kept_from_items<T>(s: Seq<T>, doomed: Seq<usize>, i: int)
    ensures
        forall|k: int| 0 <= k < kept_from(s, doomed, i).len() ==> s.contains(#[trigger] kept_from(s, doomed, i)[k]),
    decreases s.len() - i,
{
    if 0 <= i < s.len() {
        lemma_kept_from_items(s, doomed, i + 1);
        let rest = kept_from(s, doomed, i + 1);
        if !doomed.contains(i as usize) {
            assert forall|k: int| 0 <= k < (seq![s[i]] + rest).len() implies s.contains(#[trigger] (seq![s[i]] + rest)[k]) by {
                if k > 0 {
                    assert((seq![s[i]] + rest)[k] == rest[k - 1]);
                } else {
                    assert(s[i] == (seq![s[i]] + rest)[k]);
                }
            }
        }
    }
}

proof fn lemma_without_wf(s: Seq<Asteroid>, doomed: Seq<usize>)
    requires
        all_wf(s),
    ensures
        all_wf(without(s, doomed)),
{
    lemma_kept_from_items(s, doomed, 0);
    let w = without(s, doomed);
    assert forall|k: int| 0 <= k < w.len() implies (#[trigger] w[k]).wf() by {
        assert(s.contains(w[k]));
    }
}

proof fn lemma_without_missiles_wf(s: Seq<Missile>, doomed: Seq<usize>)
    requires
        all_missiles_wf(s),
    ensures
        all_missiles_wf(without(s, doomed)),
{
    lemma_kept_from_items(s, doomed, 0);
    let w = without(s, doomed);
    assert forall|k: int| 0 <= k < w.len() implies (#[trigger] w[k]).wf() by {
        assert(s.contains(w[k]));
    }
}

/// Every projectile of the sequence is well formed.
pub open spec fn all_missiles_wf(s: Seq<Missile>) -> bool {
    forall|k: int| 0 <= k < s.len() ==> (#[trigger] s[k]).wf()
}

/// The projectile `m` destroys the hazard `a`: it still flies, the hazard
/// is not of tier 0, and they overlap.
pub open spec fn can_hit(a: Asteroid, m: Missile) -> bool {
    a.size > 0 && m.active && overlap_spec(a.position, m.position, a.radius_spec() + m.size)
}

/// The first projectile from index `j` on that destroys `a`, or -1.
pub open spec fn first_hit(a: Asteroid, ms: Seq<Missile>, j: int) -> int
    decreases ms.len() - j,
{
    if j < 0 || j >= ms.len() {
        -1
    } else if can_hit(a, ms[j]) {
        j
    } else {
        first_hit(a, ms, j + 1)
    }
}

/// The outcome of the projectile pass over the first `k` hazards: the
/// indices of the hazards destroyed, those of the projectiles spent, and the
/// points won. Each hazard, in order, is matched with the first projectile
/// that destroys it (a projectile may destroy several hazards in one pass,
/// and is listed once for each); it is worth 100 per tier.
pub open spec fn missile_pass(asteroids: Seq<Asteroid>, ms: Seq<Missile>, k: int) -> (Seq<usize>, Seq<usize>, int)
    decreases k,
{
    if k <= 0 {
        (Seq::empty(), Seq::empty(), 0)
    } else {
        let prev = missile_pass(asteroids, ms, k - 1);
        let j = first_hit(asteroids[k - 1], ms, 0);
        if j >= 0 {
            (prev.0.push((k - 1) as usize), prev.1.push(j as usize), prev.2 + 100 * asteroids[k - 1].size)
        } else {
            prev
        }
    }
}

/// The index of the first projectile of `missiles` that destroys `a`.
fn first_hit_missile(a: &Asteroid, missiles: &Vec<Missile>) -> (r: Option<usize>)
    requires
        a.wf(),
        all_missiles_wf(missiles@),
    ensures
        r is Some <==> first_hit(*a, missiles@, 0) >= 0,
        r is Some ==> r->0 == first_hit(*a, missiles@, 0) && a.size > 0,
{
    let mut j: usize = 0;
    while j < missiles.len()
        invariant
            j <= missiles@.len(),
            a.wf(),
            all_missiles_wf(missiles@),
            first_hit(*a, missiles@, 0) == first_hit(*a, missiles@, j as int),
        decreases missiles.len() - j,
    {
        let m = &missiles[j];
        assert(m.wf());
        if a.size > 0 && m.active && circles_overlap(a.position, m.position, a.collision_radius() + m.size) {
            return Some(j);
        }
        j = j + 1;
    }
    None
}

/// Population bound that the caller of a split holds to by default.
pub const ASTEROID_LIMIT: usize = 26;

/// Duration of one fixed tick, in microseconds (a sixtieth of a second).
pub const TICK: i64 = 16_667;

/// Time dilation of normal play, in thousandths.
pub const NORMAL_SPEED: i64 = 1000;

/// Time dilation while slowed down, in thousandths.
pub const SLOW_SPEED: i64 = 100;

/// Time dilation while sped up, in thousandths.
pub const FAST_SPEED: i64 = 10_000;

/// Hazards that a new game starts with.
pub const START_ASTEROIDS: usize = 20;

/// Lives of a new game.
pub const START_LIVES: u8 = 3;

pub struct Gamestate {
    /// Duration of the current frame after dilation, in microseconds.
    pub delta_time: i64,
    /// Time dilation, in thousandths: 0 freezes the simulation.
    pub simulation_speed: i64,
    pub debug: bool,
    /// Fixed ticks run so far.
    pub loop_number: u128,
    pub asteroids: Vec<Asteroid>,
    pub missiles: Vec<Missile>,
    pub spaceship: Spaceship,
    /// Population under which a split may emit its second child.
    pub asteroid_limit: usize,
    /// Hazards counted at the end of the last pass.
    pub number_of_asteroids: usize,
    pub lives: u8,
    pub score: u128,
    pub game_started: bool,
    pub game_over: bool,
    pub game_won: bool,
    /// Dilated time not yet spent on fixed ticks, in microseconds.
    pub accumulator: i64,
    /// Screen extent, in sub-pixels.
    pub width: i64,
    pub height: i64,
    /// Names of the hazard variants; the first is the common one.
    pub catalog: Vec<String>,
}

impl Gamestate {
    pub open spec fn wf(&self) -> bool {
        &&& all_wf(self.asteroids@)
        &&& all_missiles_wf(self.missiles@)
        &&& self.spaceship.wf()
        &&& 0 <= self.width <= COORD_LIMIT
        &&& 0 <= self.height <= COORD_LIMIT
        &&& 1 <= self.catalog@.len() <= MAX_VARIANTS
        &&& 0 <= self.delta_time <= DT_LIMIT
        &&& 0 <= self.accumulator < TICK
        &&& 0 <= self.simulation_speed <= FAST_SPEED
    }

    /// A game not yet started, on a screen of `width` x `height` sub-pixels,
    /// whose hazards take their variants from `catalog`.
    pub fn new(width: i64, height: i64, catalog: Vec<String>) -> (r: Gamestate)
        requires
            0 <= width <= COORD_LIMIT,
            0 <= height <= COORD_LIMIT,
            1 <= catalog@.len() <= MAX_VARIANTS,
        ensures
            r.wf(),
            r.delta_time == 0,
            r.simulation_speed == NORMAL_SPEED,
            !r.debug,
            r.loop_number == 0,
            r.asteroids@.len() == 0,
            r.missiles@.len() == 0,
            r.spaceship == (Spaceship {
                position: Point { x: (width / 2) as i64, y: (height / 2) as i64 },
                speed: 0,
                max_speed: SHIP_MAX_SPEED,
                rotation: 0,
                turn_rate: SHIP_TURN_RATE,
                size: SHIP_SIZE,
            }),
            r.asteroid_limit == ASTEROID_LIMIT,
            r.number_of_asteroids == 0,
            r.lives == START_LIVES,
            r.score == 0,
            !r.game_started,
            !r.game_over,
            !r.game_won,
            r.accumulator == 0,
            r.width == width,
            r.height == height,
            r.catalog == catalog,
    {
        Gamestate {
            delta_time: 0,
            simulation_speed: NORMAL_SPEED,
            debug: false,
            loop_number: 0,
            asteroids: Vec::new(),
            missiles: Vec::new(),
            spaceship: Spaceship::new(width, height),
            asteroid_limit: ASTEROID_LIMIT,
            number_of_asteroids: 0,
            lives: START_LIVES,
            score: 0,
            game_started: false,
            game_over: false,
            game_won: false,
            accumulator: 0,
            width,
            height,
            catalog,
        }
    }
}

/// Runs the projectile pass: each hazard, in order, is destroyed by the
/// first flying projectile that touches it (one projectile may destroy
/// several hazards; it is removed once);
/// destroyed hazards give way to their children (the second child only if
/// the population was under the limit when the pass began), spent
/// projectiles are removed, each destroyed hazard scores 100 per tier, and
/// the population is recounted.
pub fn check_collision_asteroid_missile(gamestate: &mut Gamestate)
    requires
        old(gamestate).wf(),
    ensures
        ({
            let pass = missile_pass(old(gamestate).asteroids@, old(gamestate).missiles@,
                old(gamestate).asteroids@.len() as int);
            let fa = final(gamestate).asteroids@;
            &&& final(gamestate).score == if old(gamestate).score + pass.2 > u128::MAX {
                u128::MAX as int
            } else {
                old(gamestate).score + pass.2
            }
            &&& replaced(old(gamestate).asteroids@, pass.0,
                old(gamestate).number_of_asteroids < old(gamestate).asteroid_limit, fa)
            &&& final(gamestate).missiles@ == without(old(gamestate).missiles@, pass.1)
        }),
        final(gamestate).number_of_asteroids == final(gamestate).asteroids@.len(),
        final(gamestate).spaceship == old(gamestate).spaceship,
        final(gamestate).lives == old(gamestate).lives,
        final(gamestate).loop_number == old(gamestate).loop_number,
        final(gamestate).asteroid_limit == old(gamestate).asteroid_limit,
        final(gamestate).game_started == old(gamestate).game_started,
        final(gamestate).game_over == old(gamestate).game_over,
        final(gamestate).game_won == old(gamestate).game_won,
        final(gamestate).accumulator == old(gamestate).accumulator,
        final(gamestate).delta_time == old(gamestate).delta_time,
        final(gamestate).simulation_speed == old(gamestate).simulation_speed,
        final(gamestate).debug == old(gamestate).debug,
        final(gamestate).score >= old(gamestate).score,
        final(gamestate).width == old(gamestate).width,
        final(gamestate).height == old(gamestate).height,
        final(gamestate).catalog == old(gamestate).catalog,
        final(gamestate).wf(),
{
    let ghost s = gamestate.asteroids@;
    let ghost ms = gamestate.missiles@;
    let can_add = gamestate.number_of_asteroids < gamestate.asteroid_limit;
    let mut to_remove_asteroids: Vec<usize> = Vec::new();
    let mut to_remove_missiles: Vec<usize> = Vec::new();
    let mut to_add: Vec<Asteroid> = Vec::new();
    let mut points: u128 = 0;
    let mut i: usize = 0;
    proof {
        assert(parents_of(s, to_remove_asteroids@) =~= Seq::<Asteroid>::empty());
    }
    while i < gamestate.asteroids.len()
        invariant
            gamestate.asteroids@ == s,
            gamestate.missiles@ == ms,
            i <= s.len(),
            all_wf(s),
            all_missiles_wf(ms),
            missile_pass(s, ms, i as int) == (to_remove_asteroids@, to_remove_missiles@, points as int),
            points <= 300 * i,
            split_all_outcome(parents_of(s, to_remove_asteroids@), can_add, to_add@),
            all_wf(to_add@),
        decreases s.len() - i,
    {
        let a = &gamestate.asteroids[i];
        assert(a.wf());
        let hit = first_hit_missile(a, &gamestate.missiles);
        if let Some(j) = hit {
            let mut kids = a.split(can_add);
            proof {
                lemma_split_all_push(parents_of(s, to_remove_asteroids@), *a, can_add, to_add@, kids@);
                assert(parents_of(s, to_remove_asteroids@.push(i)) =~= parents_of(s, to_remove_asteroids@).push(*a));
            }
            let ghost before = to_add@;
            let ghost fresh = kids@;
            to_add.append(&mut kids);
            proof {
                assert forall|k: int| 0 <= k < to_add@.len() implies (#[trigger] to_add@[k]).wf() by {
                    if k >= before.len() {
                        assert(to_add@[k] == fresh[k - before.len()]);
                    }
                }
            }
            to_remove_asteroids.push(i);
            to_remove_missiles.push(j);
            points = points + 100 * a.size as u128;
        }
        i = i + 1;
    }
    let ghost hits = to_remove_asteroids@;
    remove_asteroid(&mut gamestate.asteroids, &to_remove_asteroids);
    remove_asteroid(&mut gamestate.missiles, &to_remove_missiles);
    let ghost kept = gamestate.asteroids@;
    let ghost added = to_add@;
    gamestate.asteroids.append(&mut to_add);
    if gamestate.score > u128::MAX - points {
        gamestate.score = u128::MAX;
    } else {
        gamestate.score = gamestate.score + points;
    }
    gamestate.number_of_asteroids = gamestate.asteroids.len();
    proof {
        assert(gamestate.asteroids@.subrange(kept.len() as int, gamestate.asteroids@.len() as int) =~= added);
        assert(gamestate.asteroids@ =~= kept + added);
        lemma_without_wf(s, hits);
        lemma_without_missiles_wf(ms, to_remove_missiles@);
        assert forall|k: int| 0 <= k < gamestate.asteroids@.len() implies (#[trigger] gamestate.asteroids@[k]).wf() by {
            if k < kept.len() {
                assert(gamestate.asteroids@[k] == kept[k]);
            } else {
                assert(gamestate.asteroids@[k] == added[k - kept.len()]);
            }
        }
    }
}

/// Indices, in ascending order, of the hazards of tier 0 among the first `k` of `s`.
pub open spec fn tier_zero(s: Seq<Asteroid>, k: int) -> Seq<usize>
    decreases k,
{
    if k <= 0 {
        Seq::empty()
    } else if s[k - 1].size == 0 {
        tier_zero(s, k - 1).push((k - 1) as usize)
    } else {
        tier_zero(s, k - 1)
    }
}

/// `s` without its hazards of tier 0.
pub open spec fn purged(s: Seq<Asteroid>) -> Seq<Asteroid> {
    without(s, tier_zero(s, s.len() as int))
}

/// `n + 1`, or `u128::MAX` where that overflows.
pub open spec fn bump(n: int) -> int {
    if n < u128::MAX { n + 1 } else { u128::MAX as int }
}

/// The second half of a fixed tick takes `g0` to `g1`: the tick is counted,
/// the hazards of tier 0 are removed (they have no children), and the
/// projectile pass runs on what is left, growth being allowed while that
/// population is under the limit.
pub open spec fn shoot_step(g0: Gamestate, g1: Gamestate) -> bool {
    let p = purged(g0.asteroids@);
    let pass = missile_pass(p, g0.missiles@, p.len() as int);
    let fa = g1.asteroids@;
    &&& g1.loop_number == bump(g0.loop_number as int)
    &&& g1.score == if g0.score + pass.2 > u128::MAX { u128::MAX as int } else { g0.score + pass.2 }
    &&& replaced(p, pass.0, p.len() < g0.asteroid_limit, fa)
    &&& g1.missiles@ == without(g0.missiles@, pass.1)
    &&& g1.number_of_asteroids == fa.len()
    &&& g1.spaceship == g0.spaceship
    &&& g1.lives == g0.lives
    &&& g1.asteroid_limit == g0.asteroid_limit
    &&& g1.game_started == g0.game_started
    &&& g1.game_over == g0.game_over
    &&& g1.game_won == g0.game_won
    &&& g1.accumulator == g0.accumulator
    &&& g1.delta_time == g0.delta_time
    &&& g1.simulation_speed == g0.simulation_speed
    &&& g1.debug == g0.debug
    &&& g1.width == g0.width
    &&& g1.height == g0.height
    &&& g1.catalog == g0.catalog
    &&& g1.wf()
}

/// The fresh craft of a screen `width` x `height`.
pub open spec fn fresh_ship(width: i64, height: i64) -> Spaceship {
    Spaceship {
        position: Point { x: (width / 2) as i64, y: (height / 2) as i64 },
        speed: 0,
        max_speed: SHIP_MAX_SPEED,
        rotation: 0,
        turn_rate: SHIP_TURN_RATE,
        size: SHIP_SIZE,
    }
}

/// The first half of a fixed tick takes `g0` to `g1`: each hazard that the
/// craft touches gives way to its children (growth allowed whatever the
/// population); a touch costs a life and resets the craft; with no life
/// left the game is over.
pub open spec fn craft_pass(g0: Gamestate, g1: Gamestate) -> bool {
    let s = g0.asteroids@;
    let hit = exists|i: int| 0 <= i < s.len() && hits_ship(g0.spaceship, #[trigger] s[i]);
    let lives = if hit && g0.lives > 0 { g0.lives - 1 } else { g0.lives as int };
    &&& replaced(s, ship_hits(g0.spaceship, s, s.len() as int), true, g1.asteroids@)
    &&& !hit ==> g1.asteroids@ == s
    &&& g1.lives == lives
    &&& g1.spaceship == if hit { fresh_ship(g0.width, g0.height) } else { g0.spaceship }
    &&& g1.game_started == (g0.game_started && lives != 0)
    &&& g1.game_over == (g0.game_over || lives == 0)
    &&& g1 == (Gamestate {
        asteroids: g1.asteroids,
        lives: g1.lives,
        spaceship: g1.spaceship,
        game_started: g1.game_started,
        game_over: g1.game_over,
        ..g0
    })
    &&& g1.wf()
}

/// One fixed tick takes `g0` to `g1`: the craft pass, then the projectile
/// pass (see `craft_pass` and `shoot_step`).
pub open spec fn tick_step(g0: Gamestate, g1: Gamestate) -> bool {
    exists|mid: Gamestate| #[trigger] craft_pass(g0, mid) && shoot_step(mid, g1)
}

/// Each state of `chain` is one fixed tick after the one before it.
pub open spec fn tick_chain(chain: Seq<Gamestate>) -> bool {
    forall|i: int| 0 <= i < chain.len() - 1 ==> tick_step(#[trigger] chain[i], chain[i + 1])
}

/// `g1` is `g0` after as many fixed ticks as whole `TICK`s in its
/// accumulated time, with the remainder kept in the accumulator.
pub open spec fn ticks_from(g0: Gamestate, g1: Gamestate) -> bool {
    exists|chain: Seq<Gamestate>|
        #[trigger] tick_chain(chain)
        && chain.len() == (g0.accumulator + g0.delta_time) / (TICK as int) + 1
        && chain[0] == g0
        && g1 == (Gamestate {
            accumulator: ((g0.accumulator + g0.delta_time) % (TICK as int)) as i64,
            ..chain.last()
        })
}

/// One fixed tick: the craft is checked against the hazards, then the tick
/// is counted, the hazards of tier 0 are removed (they have no children),
/// the population is recounted and the projectile pass runs.
pub fn fixed_tick(gamestate: &mut Gamestate)
    requires
        old(gamestate).wf(),
    ensures
        tick_step(*old(gamestate), *final(gamestate)),
        final(gamestate).score >= old(gamestate).score,
        final(gamestate).wf(),
{
    craft_check(gamestate);
    let ghost mid = *gamestate;
    shoot_tick(gamestate);
    proof {
        assert(craft_pass(*old(gamestate), mid) && shoot_step(mid, *gamestate));
    }
}

/// The craft half of a fixed tick; see `craft_pass`.
fn craft_check(gamestate: &mut Gamestate)
    requires
        old(gamestate).wf(),
    ensures
        craft_pass(*old(gamestate), *final(gamestate)),
{
    let hit = check_collision_spaceship_asteroid(&gamestate.spaceship, &mut gamestate.asteroids);
    if hit {
        if gamestate.lives > 0 {
            gamestate.lives = gamestate.lives - 1;
        }
        gamestate.spaceship = Spaceship::new(gamestate.width, gamestate.height);
    }
    if gamestate.lives == 0 {
        gamestate.game_started = false;
        gamestate.game_over = true;
    }
}

/// The projectile half of a fixed tick; see `shoot_step`.
fn shoot_tick(gamestate: &mut Gamestate)
    requires
        old(gamestate).wf(),
    ensures
        shoot_step(*old(gamestate), *final(gamestate)),
        final(gamestate).score >= old(gamestate).score,
        final(gamestate).wf(),
{
    if gamestate.loop_number < u128::MAX {
        gamestate.loop_number = gamestate.loop_number + 1;
    }
    let ghost s = gamestate.asteroids@;
    let mut doomed: Vec<usize> = Vec::new();
    let mut i: usize = 0;
    while i < gamestate.asteroids.len()
        invariant
            gamestate.asteroids@ == s,
            i <= s.len(),
            doomed@ == tier_zero(s, i as int),
        decreases s.len() - i,
    {
        if gamestate.asteroids[i].size == 0 {
            doomed.push(i);
        }
        i = i + 1;
    }
    remove_asteroid(&mut gamestate.asteroids, &doomed);
    proof {
        lemma_without_wf(s, doomed@);
    }
    gamestate.number_of_asteroids = gamestate.asteroids.len();
    check_collision_asteroid_missile(gamestate);
}

/// Adds the frame's dilated time to the accumulator and runs one fixed tick
/// for each whole `TICK` in it, keeping the remainder.
pub fn run_ticks(gamestate: &mut Gamestate)
    requires
        old(gamestate).wf(),
    ensures
        final(gamestate).accumulator == (old(gamestate).accumulator + old(gamestate).delta_time) % (TICK as int),
        final(gamestate).loop_number == if old(gamestate).loop_number + (old(gamestate).accumulator
            + old(gamestate).delta_time) / (TICK as int) > u128::MAX {
            u128::MAX as int
        } else {
            old(gamestate).loop_number + (old(gamestate).accumulator + old(gamestate).delta_time) / (TICK as int)
        },
        final(gamestate).number_of_asteroids == final(gamestate).asteroids@.len()
            || final(gamestate).asteroids@ == old(gamestate).asteroids@,
        final(gamestate).asteroid_limit == old(gamestate).asteroid_limit,
        final(gamestate).game_won == old(gamestate).game_won,
        final(gamestate).delta_time == old(gamestate).delta_time,
        final(gamestate).simulation_speed == old(gamestate).simulation_speed,
        final(gamestate).debug == old(gamestate).debug,
        final(gamestate).width == old(gamestate).width,
        final(gamestate).height == old(gamestate).height,
        final(gamestate).catalog == old(gamestate).catalog,
        final(gamestate).score >= old(gamestate).score,
        ticks_from(*old(gamestate), *final(gamestate)),
        final(gamestate).wf(),
{
    let ghost total = gamestate.accumulator + gamestate.delta_time;
    let ghost start = gamestate.loop_number as int;
    let ghost g0 = *gamestate;
    let mut acc = gamestate.accumulator + gamestate.delta_time;
    let mut done: i64 = 0;
    let ghost mut chain: Seq<Gamestate> = seq![*gamestate];
    while acc >= TICK
        invariant
            chain.len() == done + 1,
            chain[0] == g0,
            chain.last() == *gamestate,
            tick_chain(chain),
            gamestate.wf(),
            0 <= acc <= total,
            acc + done * TICK == total,
            0 <= done <= total,
            total == g0.accumulator + g0.delta_time,
            g0.wf(),
            gamestate.loop_number == if start + done > u128::MAX { u128::MAX as int } else { start + done },
            gamestate.accumulator == g0.accumulator,
            gamestate.delta_time == g0.delta_time,
            done == 0 ==> gamestate.asteroids@ == g0.asteroids@,
            done > 0 ==> gamestate.number_of_asteroids == gamestate.asteroids@.len(),
            gamestate.asteroid_limit == g0.asteroid_limit,
            gamestate.game_won == g0.game_won,
            gamestate.simulation_speed == g0.simulation_speed,
            gamestate.debug == g0.debug,
            gamestate.width == g0.width,
            gamestate.height == g0.height,
            gamestate.catalog == g0.catalog,
            gamestate.score >= g0.score,
        decreases acc,
    {
        let ghost before = chain;
        fixed_tick(gamestate);
        proof {
            chain = chain.push(*gamestate);
            assert forall|i: int| 0 <= i < chain.len() - 1 implies tick_step(#[trigger] chain[i], chain[i + 1]) by {
                if i < before.len() - 1 {
                    assert(chain[i] == before[i] && chain[i + 1] == before[i + 1]);
                } else {
                    assert(chain[i] == before.last());
                }
            }
            assert(done + 1 <= total) by (nonlinear_arith)
                requires acc + done * TICK == total, acc >= TICK, done >= 0;
        }
        acc = acc - TICK;
        done = done + 1;
    }
    proof {
        assert(done == total / (TICK as int) && acc == total % (TICK as int)) by (nonlinear_arith)
            requires acc + done * TICK == total, 0 <= acc < TICK, 0 <= done;
    }
    gamestate.accumulator = acc;
    proof {
        assert(tick_chain(chain));
    }
}

/// A lone hazard scores 100 per tier when a projectile destroys it, and
/// nothing otherwise: 300 for one of tier 3, 100 for one of tier 1.
pub proof fn lemma_score_of_one_hazard(a: Asteroid, ms: Seq<Missile>)
    ensures
        missile_pass(seq![a], ms, 1).2 == if first_hit(a, ms, 0) >= 0 {
            100 * a.size
        } else {
            0
        },
        first_hit(a, ms, 0) >= 0 && a.size == 3 ==> missile_pass(seq![a], ms, 1).2 == 300,
        first_hit(a, ms, 0) >= 0 && a.size == 1 ==> missile_pass(seq![a], ms, 1).2 == 100,
{
    assert(missile_pass(seq![a], ms, 0) == (Seq::<usize>::empty(), Seq::<usize>::empty(), 0int));
    assert(seq![a][0] == a);
}

/// The commands of one frame, as the input devices gave them.
#[derive(Clone, Copy, Debug, Default, PartialEq, Eq, Structural)]
pub struct Input {
    pub debug_toggle: bool,
    pub forward: bool,
    pub backward: bool,
    pub left: bool,
    pub right: bool,
    /// The fire key was pressed.
    pub fire: bool,
    /// The pointer button is held: it fires in debug mode.
    pub mouse_fire: bool,
    pub brake: bool,
    /// Dilation overrides, strongest first: freeze, slow, fast.
    pub freeze: bool,
    pub slow: bool,
    pub fast: bool,
    pub start: bool,
    pub quit: bool,
}

/// Angle that a turn command covers in `dt` microseconds.
pub open spec fn turn_amount(ship: Spaceship, dt: int) -> int {
    ship.turn_rate * dt / (MICROS as int)
}

/// The craft after the steering commands of `input` over `dt`; `live` tells
/// whether the simulation runs.
pub open spec fn steer(ship: Spaceship, input: Input, dt: int, live: bool) -> Spaceship {
    let s1 = if live && input.forward {
        Spaceship { speed: thrust_spec(ship.speed as int, ship.max_speed as int, dt, true) as i64, ..ship }
    } else {
        ship
    };
    let s2 = if live && input.backward {
        Spaceship { speed: thrust_spec(s1.speed as int, s1.max_speed as int, dt, false) as i64, ..s1 }
    } else {
        s1
    };
    let s3 = if live && input.left {
        Spaceship { rotation: wrap_angle_spec(s2.rotation - turn_amount(s2, dt)) as i64, ..s2 }
    } else {
        s2
    };
    if live && input.right {
        Spaceship { rotation: wrap_angle_spec(s3.rotation + turn_amount(s3, dt)) as i64, ..s3 }
    } else {
        s3
    }
}

/// The dilation that the overrides of `input` select, or the normal one
/// while a game runs (0 otherwise).
pub open spec fn dilation(input: Input, started: bool) -> i64 {
    if input.freeze {
        0
    } else if input.slow {
        SLOW_SPEED
    } else if input.fast {
        FAST_SPEED
    } else if started {
        NORMAL_SPEED
    } else {
        0
    }
}

/// The craft after the controls of `input` over `dt`: steering, then the
/// brake; nothing acts unless `live`.
pub open spec fn controlled_ship(ship: Spaceship, input: Input, dt: int, live: bool) -> Spaceship {
    let steered = steer(ship, input, dt, live);
    if live && input.brake { Spaceship { speed: 0, ..steered } } else { steered }
}

/// The projectiles after the fire commands of `input`: one more, fired from
/// the steered craft along its facing at its speed ceiling, when `live` and
/// the fire key is pressed (or the pointer held in debug mode).
pub open spec fn controlled_missiles(
    missiles: Seq<Missile>,
    ship: Spaceship,
    input: Input,
    dt: int,
    live: bool,
    debug: bool,
) -> Seq<Missile> {
    let steered = steer(ship, input, dt, live);
    if live && (input.fire || (input.mouse_fire && debug)) {
        missiles.push(Missile {
            position: steered.position,
            velocity: steered.max_speed,
            rotation: steered.rotation,
            active: true,
            size: MISSILE_SIZE,
        })
    } else {
        missiles
    }
}

impl Gamestate {
    /// Applies the steering, firing and braking commands of `input`, which
    /// act only while the simulation runs.
    #[verifier::rlimit(50)]
    pub fn apply_controls(&mut self, input: Input)
        requires
            old(self).wf(),
        ensures
            final(self).spaceship == controlled_ship(old(self).spaceship, input, old(self).delta_time as int,
                old(self).simulation_speed > 0),
            final(self).missiles@ == controlled_missiles(old(self).missiles@, old(self).spaceship, input,
                old(self).delta_time as int, old(self).simulation_speed > 0, old(self).debug),
            *final(self) == (Gamestate { spaceship: final(self).spaceship, missiles: final(self).missiles, ..*old(self) }),
            final(self).wf(),
    {
        let live = self.simulation_speed > 0;
        let dt = self.delta_time;
        if input.forward && live {
            self.spaceship.move_spaceship(dt, true);
        }
        if input.backward && live {
            self.spaceship.move_spaceship(dt, false);
        }
        proof {
            assert(0 <= self.spaceship.turn_rate * dt <= 1_000_000_000 * DT_LIMIT) by (nonlinear_arith)
                requires 0 <= self.spaceship.turn_rate <= 1_000_000_000, 0 <= dt <= DT_LIMIT;
        }
        let amount = self.spaceship.turn_rate * dt / MICROS;
        if input.left && live {
            self.spaceship.add_rotation(-amount);
        }
        if input.right && live {
            self.spaceship.add_rotation(amount);
        }
        if (input.fire || (input.mouse_fire && self.debug)) && live {
            let m = Missile::new(self.spaceship.position, self.spaceship.max_speed, self.spaceship.rotation);
            self.missiles.push(m);
        }
        if input.brake && live {
            self.spaceship.speed = 0;
        }
    }

    /// Begins a new game: full lives, no score, no projectile, a fresh craft
    /// at the centre and `START_ASTEROIDS` new hazards.
    pub fn start_game(&mut self)
        requires
            old(self).wf(),
        ensures
            final(self).wf(),
            final(self).game_started,
            final(self).lives == START_LIVES,
            final(self).score == 0,
            !final(self).game_over,
            !final(self).game_won,
            final(self).missiles@.len() == 0,
            final(self).asteroids@.len() == START_ASTEROIDS,
            forall|k: int| 0 <= k < START_ASTEROIDS ==> 1 <= (#[trigger] final(self).asteroids@[k]).size <= 3,
            forall|k: int| 0 <= k < START_ASTEROIDS ==> spawned(#[trigger] final(self).asteroids@[k],
                old(self).width as int, old(self).height as int, old(self).catalog@),
            final(self).spaceship == (Spaceship {
                position: Point { x: (old(self).width / 2) as i64, y: (old(self).height / 2) as i64 },
                speed: 0,
                max_speed: SHIP_MAX_SPEED,
                rotation: 0,
                turn_rate: SHIP_TURN_RATE,
                size: SHIP_SIZE,
            }),
            *final(self) == (Gamestate {
                game_started: true,
                lives: START_LIVES,
                score: 0,
                game_over: false,
                game_won: false,
                asteroids: final(self).asteroids,
                missiles: final(self).missiles,
                spaceship: final(self).spaceship,
                ..*old(self)
            }),
    {
        let mut fresh: Vec<Asteroid> = Vec::new();
        let mut k: usize = 0;
        while k < START_ASTEROIDS
            invariant
                k <= START_ASTEROIDS,
                fresh@.len() == k,
                all_wf(fresh@),
                forall|j: int| 0 <= j < k ==> 1 <= (#[trigger] fresh@[j]).size <= 3,
                forall|j: int| 0 <= j < k ==> spawned(#[trigger] fresh@[j], self.width as int,
                    self.height as int, self.catalog@),
                self.wf(),
            decreases START_ASTEROIDS - k,
        {
            let a = Asteroid::spawn(self.width, self.height, &self.catalog);
            fresh.push(a);
            k = k + 1;
        }
        self.game_started = true;
        self.lives = START_LIVES;
        self.score = 0;
        self.game_over = false;
        self.game_won = false;
        self.asteroids = fresh;
        self.missiles = Vec::new();
        self.spaceship = Spaceship::new(self.width, self.height);
    }

    /// Applies one frame of commands: the debug toggle, the controls, the
    /// dilation overrides, then the start and quit commands. Returns whether
    /// the program should exit: the quit command outside a game.
    pub fn handle_input(&mut self, input: Input) -> (r: bool)
        requires
            old(self).wf(),
        ensures
            r == (!old(self).game_started && input.quit),
            final(self).wf(),
            final(self).debug == (old(self).debug != input.debug_toggle),
            final(self).simulation_speed == dilation(input, old(self).game_started),
            !old(self).game_started && !input.quit && input.start ==> {
                &&& final(self).game_started
                &&& final(self).lives == START_LIVES
                &&& final(self).score == 0
                &&& !final(self).game_over
                &&& !final(self).game_won
                &&& final(self).missiles@.len() == 0
                &&& final(self).asteroids@.len() == START_ASTEROIDS
                &&& forall|k: int| 0 <= k < START_ASTEROIDS ==> 1 <= (#[trigger] final(self).asteroids@[k]).size <= 3
                &&& forall|k: int| 0 <= k < START_ASTEROIDS ==> spawned(#[trigger] final(self).asteroids@[k],
                    old(self).width as int, old(self).height as int, old(self).catalog@)
                &&& final(self).spaceship == fresh_ship(old(self).width, old(self).height)
            },
            !(!old(self).game_started && !input.quit && input.start) ==> {
                &&& final(self).game_started == (old(self).game_started && !input.quit)
                &&& final(self).spaceship == controlled_ship(old(self).spaceship, input,
                    old(self).delta_time as int, old(self).simulation_speed > 0)
                &&& final(self).missiles@ == controlled_missiles(old(self).missiles@, old(self).spaceship, input,
                    old(self).delta_time as int, old(self).simulation_speed > 0, final(self).debug)
                &&& final(self).asteroids@ == old(self).asteroids@
                &&& final(self).lives == old(self).lives
                &&& final(self).score == old(self).score
                &&& final(self).game_over == old(self).game_over
                &&& final(self).game_won == old(self).game_won
            },
            final(self).delta_time == old(self).delta_time,
            final(self).width == old(self).width,
            final(self).height == old(self).height,
            final(self).catalog == old(self).catalog,
            final(self).loop_number == old(self).loop_number,
            final(self).asteroid_limit == old(self).asteroid_limit,
            final(self).accumulator == old(self).accumulator,
    {
        if input.debug_toggle {
            self.debug = !self.debug;
        }
        self.apply_controls(input);
        if input.freeze {
            self.simulation_speed = 0;
        } else if input.slow {
            self.simulation_speed = SLOW_SPEED;
        } else if input.fast {
            self.simulation_speed = FAST_SPEED;
        } else {
            self.simulation_speed = if self.game_started { NORMAL_SPEED } else { 0 };
        }
        if !self.game_started {
            if input.quit {
                return true;
            }
            if input.start {
                self.start_game();
            }
        }
        if input.quit {
            self.game_started = false;
        }
        false
    }
}

/// Indices, in ascending order, of the spent projectiles among the first `k` of `ms`.
pub open spec fn spent(ms: Seq<Missile>, k: int) -> Seq<usize>
    decreases k,
{
    if k <= 0 {
        Seq::empty()
    } else if !ms[k - 1].active {
        spent(ms, k - 1).push((k - 1) as usize)
    } else {
        spent(ms, k - 1)
    }
}

/// Angle that a spin of `rate` per second covers in `dt` microseconds,
/// rounded toward zero.
pub open spec fn spin(rate: int, dt: int) -> int {
    if rate >= 0 { rate * dt / (MICROS as int) } else { -((-rate) * dt / (MICROS as int)) }
}

/// A hazard after one frame of `dt` microseconds: its facing spins at its
/// turn rate, then it drifts along its travel direction (unit vector `h`)
/// and wraps around the screen.
pub open spec fn drift(a: Asteroid, dt: int, h: Heading, width: int, height: int) -> Asteroid {
    Asteroid {
        rotation: wrap_angle_spec(a.rotation + spin(a.turn_rate as int, dt)) as i64,
        position: Point {
            x: wrap_coord_spec(advance_spec(a.position.x as int, h.x as int, a.speed as int,
                a.speed_multiplier as int, 1000, dt), width) as i64,
            y: wrap_coord_spec(advance_spec(a.position.y as int, h.y as int, a.speed as int,
                a.speed_multiplier as int, 1000, dt), height) as i64,
        },
        ..a
    }
}

/// A projectile, flying or spent, after one frame of `dt` microseconds along
/// the unit vector `h`.
pub open spec fn flight(m: Missile, dt: int, h: Heading, width: int, height: int) -> Missile {
    let moved = Point {
        x: advance_spec(m.position.x as int, h.x as int, m.velocity + MISSILE_BOOST, 1, 1, dt) as i64,
        y: advance_spec(m.position.y as int, h.y as int, m.velocity + MISSILE_BOOST, 1, 1, dt) as i64,
    };
    Missile { position: moved, active: m.active && on_screen(moved, width, height), ..m }
}

/// Whether every heading of the sequence is a scaled unit vector.
pub open spec fn all_headings_wf(hs: Seq<Heading>) -> bool {
    forall|k: int| 0 <= k < hs.len() ==> (#[trigger] hs[k]).wf()
}


/// The start of a frame takes `g0` to `g1`: spent projectiles are dropped.
pub open spec fn frame_start(g0: Gamestate, g1: Gamestate) -> bool {
    &&& g1.missiles@ == without(g0.missiles@, spent(g0.missiles@, g0.missiles@.len() as int))
    &&& g1 == (Gamestate { missiles: g1.missiles, ..g0 })
    &&& g1.wf()
}

impl Gamestate {
    /// Sets the frame's duration from the real time `elapsed` (microseconds)
    /// scaled by the dilation, capped at `DT_LIMIT`.
    pub fn set_delta_time(&mut self, elapsed: i64)
        requires
            old(self).wf(),
            0 <= elapsed <= DT_LIMIT,
        ensures
            final(self).delta_time == if elapsed * old(self).simulation_speed / 1000 > DT_LIMIT {
                DT_LIMIT as int
            } else {
                elapsed * old(self).simulation_speed / 1000
            },
            *final(self) == (Gamestate { delta_time: final(self).delta_time, ..*old(self) }),
            final(self).wf(),
    {
        proof {
            assert(0 <= elapsed * self.simulation_speed <= DT_LIMIT * FAST_SPEED) by (nonlinear_arith)
                requires 0 <= elapsed <= DT_LIMIT, 0 <= self.simulation_speed <= FAST_SPEED;
        }
        let scaled = elapsed * self.simulation_speed / 1000;
        self.delta_time = if scaled > DT_LIMIT { DT_LIMIT } else { scaled };
    }

    /// The fixed-step part of a frame: drops spent projectiles, then runs
    /// the fixed ticks that the accumulated time allows, each of which checks
    /// the craft and the projectiles against the hazards.
    pub fn step(&mut self)
        requires
            old(self).wf(),
        ensures
            final(self).wf(),
            final(self).accumulator == (old(self).accumulator + old(self).delta_time) % (TICK as int),
            final(self).game_won == old(self).game_won,
            final(self).score >= old(self).score,
            final(self).delta_time == old(self).delta_time,
            final(self).width == old(self).width,
            final(self).height == old(self).height,
            exists|mid: Gamestate| #[trigger] frame_start(*old(self), mid) && ticks_from(mid, *final(self)),
    {
        let ghost g0 = *self;
        let ghost ms = self.missiles@;
        let mut doomed: Vec<usize> = Vec::new();
        let mut i: usize = 0;
        while i < self.missiles.len()
            invariant
                self.missiles@ == ms,
                i <= ms.len(),
                doomed@ == spent(ms, i as int),
            decreases ms.len() - i,
        {
            if !self.missiles[i].active {
                doomed.push(i);
            }
            i = i + 1;
        }
        remove_asteroid(&mut self.missiles, &doomed);
        proof {
            lemma_without_missiles_wf(ms, doomed@);
        }
        let ghost mid = *self;
        proof {
            assert(frame_start(g0, mid));
        }
        run_ticks(self);
    }

    /// Moves everything for one frame of `delta_time`: each hazard spins
    /// and drifts along `asteroid_headings[i]`, the craft moves along
    /// `ship_heading`, each projectile flies along `missile_headings[i]`.
    /// Each heading is the unit vector of the entity's direction. A spent
    /// projectile already beyond `COORD_LIMIT` (it leaves at the next frame's
    /// cleanup) is left where it is, as its coordinates could not hold more.
    pub fn integrate(&mut self, ship_heading: Heading, asteroid_headings: &Vec<Heading>,
        missile_headings: &Vec<Heading>)
        requires
            old(self).wf(),
            ship_heading.wf(),
            asteroid_headings@.len() == old(self).asteroids@.len(),
            missile_headings@.len() == old(self).missiles@.len(),
            all_headings_wf(asteroid_headings@),
            all_headings_wf(missile_headings@),
        ensures
            final(self).wf(),
            final(self).asteroids@.len() == old(self).asteroids@.len(),
            forall|i: int| 0 <= i < old(self).asteroids@.len() ==> #[trigger] final(self).asteroids@[i]
                == drift(old(self).asteroids@[i], old(self).delta_time as int, asteroid_headings@[i],
                    old(self).width as int, old(self).height as int),
            final(self).missiles@.len() == old(self).missiles@.len(),
            forall|i: int| 0 <= i < old(self).missiles@.len() ==> #[trigger] final(self).missiles@[i]
                == if old(self).missiles@[i].position.in_limits() {
                    flight(old(self).missiles@[i], old(self).delta_time as int, missile_headings@[i],
                        old(self).width as int, old(self).height as int)
                } else {
                    old(self).missiles@[i]
                },
            final(self).spaceship.speed == clamp_speed(old(self).spaceship.speed as int,
                old(self).spaceship.max_speed as int),
            final(self).spaceship.position == (Point {
                x: wrap_coord_spec(
                    advance_spec(old(self).spaceship.position.x as int, ship_heading.x as int,
                        final(self).spaceship.speed as int, 1, 1, old(self).delta_time as int),
                    old(self).width as int,
                ) as i64,
                y: wrap_coord_spec(
                    advance_spec(old(self).spaceship.position.y as int, ship_heading.y as int,
                        final(self).spaceship.speed as int, 1, 1, old(self).delta_time as int),
                    old(self).height as int,
                ) as i64,
            }),
            final(self).spaceship.max_speed == old(self).spaceship.max_speed,
            final(self).spaceship.rotation == old(self).spaceship.rotation,
            final(self).spaceship.turn_rate == old(self).spaceship.turn_rate,
            final(self).spaceship.size == old(self).spaceship.size,
            final(self).lives == old(self).lives,
            final(self).score == old(self).score,
            final(self).game_started == old(self).game_started,
    {
        let ghost s = self.asteroids@;
        let dt = self.delta_time;
        let mut i: usize = 0;
        while i < self.asteroids.len()
            invariant
                self.wf(),
                self.delta_time == dt,
                i <= s.len(),
                self.asteroids@.len() == s.len(),
                asteroid_headings@.len() == s.len(),
                all_headings_wf(asteroid_headings@),
                forall|j: int| i <= j < s.len() ==> #[trigger] self.asteroids@[j] == s[j],
                forall|j: int| 0 <= j < i ==> #[trigger] self.asteroids@[j]
                    == drift(s[j], dt as int, asteroid_headings@[j], self.width as int, self.height as int),
                self.width == old(self).width,
                self.height == old(self).height,
                self.missiles == old(self).missiles,
                self.spaceship == old(self).spaceship,
                self.lives == old(self).lives,
                self.score == old(self).score,
                self.game_started == old(self).game_started,
            decreases s.len() - i,
        {
            let rate = self.asteroids[i].turn_rate;
            let size = self.asteroids[i].size;
            proof {
                let a = s[i as int];
                assert(a.wf());
                assert(TURN_RATE_CAP * crate::asteroid::growth(a.size as int) <= TURN_RATE_CAP * 64);
                let m = if rate >= 0 { rate as int } else { -rate };
                assert(0 <= m * dt <= (TURN_RATE_CAP * 64) * DT_LIMIT) by (nonlinear_arith)
                    requires 0 <= m <= TURN_RATE_CAP * 64, 0 <= dt <= DT_LIMIT;
            }
            let amount = if rate >= 0 { rate * dt / MICROS } else { -((-rate) * dt / MICROS) };
            self.asteroids[i].add_rotation(amount);
            let h = asteroid_headings[i];
            let (w, ht) = (self.width, self.height);
            self.asteroids[i].move_object(dt, h, w, ht);
            i = i + 1;
        }
        let ghost ms = self.missiles@;
        let mut k: usize = 0;
        while k < self.missiles.len()
            invariant
                self.wf(),
                self.delta_time == dt,
                k <= ms.len(),
                self.missiles@.len() == ms.len(),
                missile_headings@.len() == ms.len(),
                all_headings_wf(missile_headings@),
                forall|j: int| k <= j < ms.len() ==> #[trigger] self.missiles@[j] == ms[j],
                forall|j: int| 0 <= j < k ==> #[trigger] self.missiles@[j]
                    == if ms[j].position.in_limits() {
                        flight(ms[j], dt as int, missile_headings@[j], self.width as int, self.height as int)
                    } else {
                        ms[j]
                    },
                forall|j: int| 0 <= j < s.len() ==> #[trigger] self.asteroids@[j]
                    == drift(s[j], dt as int, asteroid_headings@[j], self.width as int, self.height as int),
                self.asteroids@.len() == s.len(),
                self.width == old(self).width,
                self.height == old(self).height,
                self.spaceship == old(self).spaceship,
                self.lives == old(self).lives,
                self.score == old(self).score,
                self.game_started == old(self).game_started,
            decreases ms.len() - k,
        {
            let h = missile_headings[k];
            let (w, ht) = (self.width, self.height);
            let p = self.missiles[k].position;
            if -COORD_LIMIT <= p.x && p.x <= COORD_LIMIT && -COORD_LIMIT <= p.y && p.y <= COORD_LIMIT {
                self.missiles[k].update(dt, h, w, ht);
            }
            k = k + 1;
        }
        let (w, ht) = (self.width, self.height);
        self.spaceship.update(dt, ship_heading, w, ht);
    }

    /// Ends a running game as won once no hazard is left.
    pub fn check_victory(&mut self)
        ensures
            old(self).game_started && old(self).asteroids@.len() == 0 ==> final(self).game_won
                && !final(self).game_started,
            !(old(self).game_started && old(self).asteroids@.len() == 0) ==> *final(self) == *old(self),
            *final(self) == (Gamestate {
                game_won: final(self).game_won,
                game_started: final(self).game_started,
                ..*old(self)
            }),
    {
        if self.game_started && self.asteroids.len() == 0 {
            self.game_won = true;
            self.game_started = false;
        }
    }
}

/// A hazard of tier 0 takes part in no collision: neither the craft nor
/// any projectile touches it.
pub proof fn lemma_tier_zero_never_collides(ship: Spaceship, a: Asteroid, ms: Seq<Missile>)
    requires
        a.size == 0,
    ensures
        !hits_ship(ship, a),
        first_hit(a, ms, 0) == -1,
{
    lemma_first_hit_tier_zero(a, ms, 0);
}

proof fn lemma_first_hit_tier_zero(a: Asteroid, ms: Seq<Missile>, j: int)
    requires
        a.size == 0,
    ensures
        first_hit(a, ms, j) == -1,
    decreases ms.len() - j,
{
    if 0 <= j < ms.len() {
        lemma_first_hit_tier_zero(a, ms, j + 1);
    }
}

/// A hazard whose integration takes it past the left edge (to x = -1, say)
/// reappears at the right edge x = width, not at 0.
pub proof fn lemma_drift_wraps_left_edge(a: Asteroid, dt: int, h: Heading, width: int, height: int)
    requires
        advance_spec(a.position.x as int, h.x as int, a.speed as int, a.speed_multiplier as int, 1000, dt) < 0,
        0 < width <= COORD_LIMIT,
    ensures
        drift(a, dt, h, width, height).position.x == width,
        drift(a, dt, h, width, height).position.x != 0,
{
}

proof fn lemma_ship_hits_are_hits(ship: Spaceship, s: Seq<Asteroid>, k: int)
    requires
        0 <= k <= s.len() <= usize::MAX,
    ensures
        forall|x: usize| #[trigger] ship_hits(ship, s, k).contains(x) ==> x < k && hits_ship(ship, s[x as int]),
    decreases k,
{
    if k > 0 {
        lemma_ship_hits_are_hits(ship, s, k - 1);
        let prev = ship_hits(ship, s, k - 1);
        if hits_ship(ship, s[k - 1]) {
            assert forall|x: usize| #[trigger] prev.push((k - 1) as usize).contains(x) implies x < k
                && hits_ship(ship, s[x as int]) by {
                let j = choose|j: int| 0 <= j < prev.push((k - 1) as usize).len()
                    && #[trigger] prev.push((k - 1) as usize)[j] == x;
                if j < prev.len() {
                    assert(prev.contains(x));
                }
            }
        }
    }
}

proof fn lemma_pass_hits_are_hits(s: Seq<Asteroid>, ms: Seq<Missile>, k: int)
    requires
        0 <= k <= s.len() <= usize::MAX,
    ensures
        forall|x: usize| #[trigger] missile_pass(s, ms, k).0.contains(x) ==> x < k
            && first_hit(s[x as int], ms, 0) >= 0,
    decreases k,
{
    if k > 0 {
        lemma_pass_hits_are_hits(s, ms, k - 1);
        let prev = missile_pass(s, ms, k - 1).0;
        if first_hit(s[k - 1], ms, 0) >= 0 {
            assert forall|x: usize| #[trigger] prev.push((k - 1) as usize).contains(x) implies x < k
                && first_hit(s[x as int], ms, 0) >= 0 by {
                let j = choose|j: int| 0 <= j < prev.push((k - 1) as usize).len()
                    && #[trigger] prev.push((k - 1) as usize)[j] == x;
                if j < prev.len() {
                    assert(prev.contains(x));
                }
            }
        }
    }
}

/// A hazard of tier 0 is never among those that the craft pass or the
/// projectile pass destroys: both passes keep it, unsplit.
pub proof fn lemma_tier_zero_survives_passes(ship: Spaceship, s: Seq<Asteroid>, ms: Seq<Missile>, i: usize)
    requires
        i < s.len() <= usize::MAX,
        s[i as int].size == 0,
    ensures
        !ship_hits(ship, s, s.len() as int).contains(i),
        !missile_pass(s, ms, s.len() as int).0.contains(i),
{
    lemma_ship_hits_are_hits(ship, s, s.len() as int);
    lemma_pass_hits_are_hits(s, ms, s.len() as int);
    lemma_tier_zero_never_collides(ship, s[i as int], ms);
}

} // verus!
