//! Hazards: drifting, spinning rocks of tier 3 down to 1 that fragment into
//! smaller ones when destroyed (tier 0 marks one pending removal).
use crate::geometry::{
    advance, advance_spec, bound_pos, wrap_angle, wrap_angle_spec, wrap_coord_spec, Heading, Point,
    COORD_LIMIT, DT_LIMIT, EIGHTH_TURN, SUBPIXELS, TURN,
};
use crate::random::{pick_variant, random_between, random_bool, MAX_VARIANTS};
use vstd::prelude::*;

verus! {

/// Size unit of a freshly spawned hazard: it spawns within one unit of an edge.
pub const ASTEROID_INIT_SIZE: i64 = 60 * SUBPIXELS;

/// Scale of every hazard: its collision radius is `tier * scale / 2`.
pub const ASTEROID_SCALE: i64 = 40 * SUBPIXELS;

/// Largest tier, that of a freshly spawned large hazard.
pub const MAX_TIER: u8 = 3;

/// Bound on the speed of a tier-3 hazard, in sub-pixels per second; each
/// tier below allows four times more.
pub const SPEED_CAP: i64 = 1_000_000_000;

/// Bound on the turn rate of a tier-3 hazard, in angle units per second;
/// each tier below allows four times more.
pub const TURN_RATE_CAP: i64 = 3_600_000;

/// Bound on the speed multiplier, in thousandths.
pub const MULTIPLIER_CAP: i64 = 4000;

/// Bound on the scale of a hazard, in sub-pixels.
pub const SCALE_CAP: i64 = 1_000_000_000;

/// Range of the speed multiplier of a new hazard, in thousandths.
pub const MULTIPLIER_MIN: i64 = 400;
pub const MULTIPLIER_MAX: i64 = 1500;

/// Range of the turn rate of a new hazard, in angle units per second
/// (0.5 to 1.5 radians per second).
pub const TURN_RATE_MIN: i64 = 28_648;
pub const TURN_RATE_MAX: i64 = 85_943;

/// Base speed of a new hazard, in sub-pixels per second, before its tier's
/// factor and its multiplier.
pub const BASE_SPEED: i64 = 50 * SUBPIXELS;

pub struct Asteroid {
    pub position: Point,
    /// Speed along the travel direction, in sub-pixels per second.
    pub speed: i64,
    /// Tier: 3 is the largest, 0 is destroyed and pending removal.
    pub size: u8,
    /// Visual scale, in sub-pixels.
    pub scale: i64,
    /// Facing, in angle units; it spins at `turn_rate`.
    pub rotation: i64,
    /// Travel direction, in angle units; it is independent of the facing.
    pub direction: i64,
    /// Speed multiplier, in thousandths.
    pub speed_multiplier: i64,
    /// Spin, in angle units per second; the sign gives the way it turns.
    pub turn_rate: i64,
    /// Name of the visual variant.
    pub texture: String,
}

/// Headroom of a tier: bounds on speed and spin grow four times per tier lost.
pub open spec fn growth(tier: int) -> int {
    if tier >= 3 { 1 } else if tier == 2 { 4 } else if tier == 1 { 16 } else { 64 }
}

/// `v * f / 1000`, rounded toward zero.
pub open spec fn permille_of(v: int, f: int) -> int {
    if v >= 0 { v * f / 1000 } else { -((-v) * f / 1000) }
}

/// Speed factor of a tier: smaller hazards move faster.
pub open spec fn size_to_speed(tier: int) -> int {
    if tier == 1 { 3 } else if tier == 2 { 2 } else { 1 }
}

/// The random values that one split draws, in thousandths.
#[derive(Clone, Copy, Debug, PartialEq, Eq, Structural)]
pub struct SplitDraws {
    /// Speed factor of the first child, in [1000, 1750].
    pub first_speed: i64,
    /// Turn-rate factor of the first child, in [1000, 2000].
    pub first_turn: i64,
    /// Speed factor of the second child, in [1000, 2000].
    pub second_speed: i64,
    /// Turn-rate factor of the second child, in [1000, 3500].
    pub second_turn: i64,
}

impl SplitDraws {
    pub open spec fn wf(self) -> bool {
        &&& 1000 <= self.first_speed <= 1750
        &&& 1000 <= self.first_turn <= 2000
        &&& 1000 <= self.second_speed <= 2000
        &&& 1000 <= self.second_turn <= 3500
    }
}

/// Number of children that a split of a hazard of tier `tier` emits: none
/// for tier 1, and none for tier 0 (the floor is clamped).
pub open spec fn child_count(tier: int, can_add: bool) -> int {
    if tier <= 1 { 0 } else if can_add { 2 } else { 1 }
}

impl Asteroid {
    /// The tier lies in 0..=3 and every quantity within its bounds.
    pub open spec fn wf(&self) -> bool {
        &&& self.size <= MAX_TIER
        &&& self.position.in_limits()
        &&& -SPEED_CAP * growth(self.size as int) <= self.speed <= SPEED_CAP * growth(self.size as int)
        &&& 0 <= self.scale <= SCALE_CAP
        &&& -TURN <= self.rotation <= TURN
        &&& -TURN <= self.direction <= TURN
        &&& 0 <= self.speed_multiplier <= MULTIPLIER_CAP
        &&& -TURN_RATE_CAP * growth(self.size as int) <= self.turn_rate
            <= TURN_RATE_CAP * growth(self.size as int)
    }

    /// Collision radius: `tier * scale / 2`.
    pub open spec fn radius_spec(&self) -> int {
        self.size * self.scale / 2
    }

    /// The first child of a split: it inherits the position, multiplier and
    /// variant, reverses and speeds up, and turns the other way faster.
    pub open spec fn first_child(&self, d: SplitDraws) -> Asteroid {
        Asteroid {
            position: self.position,
            speed: -permille_of(self.speed as int, d.first_speed as int) as i64,
            size: if self.size >= 1 { (self.size - 1) as u8 } else { 0 },
            scale: ASTEROID_SCALE,
            rotation: wrap_angle_spec(-self.rotation + EIGHTH_TURN) as i64,
            direction: wrap_angle_spec(-self.direction - EIGHTH_TURN) as i64,
            speed_multiplier: self.speed_multiplier,
            turn_rate: -permille_of(self.turn_rate as int, d.first_turn as int) as i64,
            texture: self.texture,
        }
    }

    /// The second child of a split, emitted only when growth is allowed.
    pub open spec fn second_child(&self, d: SplitDraws) -> Asteroid {
        Asteroid {
            position: self.position,
            speed: -permille_of(self.speed as int, d.second_speed as int) as i64,
            size: if self.size > 1 { (self.size - 1) as u8 } else { 1 },
            scale: ASTEROID_SCALE,
            rotation: wrap_angle_spec(-self.rotation - EIGHTH_TURN) as i64,
            direction: wrap_angle_spec(-self.direction + EIGHTH_TURN) as i64,
            speed_multiplier: self.speed_multiplier,
            turn_rate: permille_of(self.turn_rate as int, d.second_turn as int) as i64,
            texture: self.texture,
        }
    }

    /// The children of a split with the draws `d`.
    pub open spec fn split_spec(&self, can_add: bool, d: SplitDraws) -> Seq<Asteroid> {
        if self.size <= 1 {
            Seq::empty()
        } else if can_add {
            seq![self.first_child(d), self.second_child(d)]
        } else {
            seq![self.first_child(d)]
        }
    }

    /// `kids` is what a split of this hazard may give, for some draws.
    pub open spec fn split_outcome(&self, can_add: bool, kids: Seq<Asteroid>) -> bool {
        exists|d: SplitDraws| #[trigger] d.wf() && kids == self.split_spec(can_add, d)
    }
}

/// `v * f / 1000` rounded toward zero, for a factor `f` in [0, 4000].
pub fn scale_permille(v: i64, f: i64) -> (r: i64)
    requires
        -SPEED_CAP * 64 <= v <= SPEED_CAP * 64,
        0 <= f <= 4000,
    ensures
        r == permille_of(v as int, f as int),
{
    proof {
        assert(-(SPEED_CAP * 64) * 4000 <= v * f <= (SPEED_CAP * 64) * 4000) by (nonlinear_arith)
            requires -SPEED_CAP * 64 <= v <= SPEED_CAP * 64, 0 <= f <= 4000;
        assert(-(SPEED_CAP * 64) * 4000 <= (-v) * f <= (SPEED_CAP * 64) * 4000) by (nonlinear_arith)
            requires -SPEED_CAP * 64 <= v <= SPEED_CAP * 64, 0 <= f <= 4000;
    }
    if v >= 0 {
        v * f / 1000
    } else {
        -((-v) * f / 1000)
    }
}

proof fn lemma_permille_bound(v: int, f: int, b: int)
    requires
        -b <= v <= b,
        0 <= f <= 4000,
        b >= 0,
    ensures
        -(b * f / 1000) <= permille_of(v, f) <= b * f / 1000,
{
    if v >= 0 {
        assert(v * f <= b * f) by (nonlinear_arith) requires v <= b, f >= 0;
        assert(v * f / 1000 <= b * f / 1000) by (nonlinear_arith) requires v * f <= b * f;
        assert(v * f >= 0) by (nonlinear_arith) requires v >= 0, f >= 0;
    } else {
        assert((-v) * f <= b * f) by (nonlinear_arith) requires -v <= b, f >= 0;
        assert((-v) * f / 1000 <= b * f / 1000) by (nonlinear_arith) requires (-v) * f <= b * f;
        assert((-v) * f >= 0) by (nonlinear_arith) requires v < 0, f >= 0;
    }
}

/// A child of tier `tier - 1` keeps within its bounds when its speed or spin is
/// its parent's scaled by at most four.
proof fn lemma_child_bound(v: int, f: int, cap: int, tier: int)
    requires
        1 <= tier <= 3,
        cap >= 0,
        -cap * growth(tier) <= v <= cap * growth(tier),
        0 <= f <= 4000,
    ensures
        -cap * growth(tier - 1) <= permille_of(v, f) <= cap * growth(tier - 1),
{
    let g = growth(tier);
    let b = cap * g;
    assert(g >= 1);
    assert(b >= 0) by (nonlinear_arith) requires cap >= 0, g >= 1, b == cap * g;
    assert(-cap * g == -b);
    lemma_permille_bound(v, f, b);
    assert(b * f / 1000 <= b * 4) by (nonlinear_arith) requires f <= 4000, b >= 0;
    assert(growth(tier - 1) == 4 * g);
    assert(cap * growth(tier - 1) == 4 * b) by (nonlinear_arith)
        requires growth(tier - 1) == 4 * g, b == cap * g;
    assert(-cap * growth(tier - 1) == -(4 * b)) by (nonlinear_arith)
        requires growth(tier - 1) == 4 * g, b == cap * g;
}

impl Asteroid {
    /// A hazard with the given values, all of them within bounds.
    pub fn new(
        position: Point,
        speed: i64,
        size: u8,
        scale: i64,
        rotation: i64,
        direction: i64,
        speed_multiplier: i64,
        turn_rate: i64,
        texture: String,
    ) -> (r: Asteroid)
        requires
            (Asteroid {
                position, speed, size, scale, rotation, direction, speed_multiplier, turn_rate, texture,
            }).wf(),
        ensures
            r == (Asteroid {
                position, speed, size, scale, rotation, direction, speed_multiplier, turn_rate, texture,
            }),
            r.wf(),
    {
        Asteroid { position, speed, size, scale, rotation, direction, speed_multiplier, turn_rate, texture }
    }

    /// Collision radius: `tier * scale / 2`.
    pub fn collision_radius(&self) -> (r: i64)
        requires
            self.wf(),
        ensures
            r == self.radius_spec(),
            0 <= r <= 2 * SCALE_CAP,
    {
        proof {
            assert(0 <= self.size * self.scale <= 3 * SCALE_CAP) by (nonlinear_arith)
                requires 0 <= self.size <= 3, 0 <= self.scale <= SCALE_CAP;
        }
        self.size as i64 * self.scale / 2
    }

    /// Turns the facing by `amount`, reduced into (-TURN, TURN).
    pub fn add_rotation(&mut self, amount: i64)
        requires
            old(self).wf(),
            -COORD_LIMIT <= amount <= COORD_LIMIT,
        ensures
            *final(self) == (Asteroid {
                rotation: wrap_angle_spec(old(self).rotation + amount) as i64,
                ..*old(self)
            }),
            final(self).wf(),
    {
        self.rotation = wrap_angle(self.rotation, amount);
    }

    /// Moves the hazard along its travel direction (whose unit vector is
    /// `heading`) for `delta_time` microseconds, then wraps it around the
    /// screen [0, width] x [0, height].
    pub fn move_object(&mut self, delta_time: i64, heading: Heading, width: i64, height: i64)
        requires
            old(self).wf(),
            heading.wf(),
            0 <= delta_time <= DT_LIMIT,
            0 <= width <= COORD_LIMIT,
            0 <= height <= COORD_LIMIT,
        ensures
            *final(self) == (Asteroid {
                position: Point {
                    x: wrap_coord_spec(
                        advance_spec(old(self).position.x as int, heading.x as int, old(self).speed as int,
                            old(self).speed_multiplier as int, 1000, delta_time as int),
                        width as int,
                    ) as i64,
                    y: wrap_coord_spec(
                        advance_spec(old(self).position.y as int, heading.y as int, old(self).speed as int,
                            old(self).speed_multiplier as int, 1000, delta_time as int),
                        height as int,
                    ) as i64,
                },
                ..*old(self)
            }),
            final(self).wf(),
    {
        proof {
            assert(SPEED_CAP * growth(self.size as int) <= SPEED_CAP * 64);
        }
        let x = advance(self.position.x, heading.x, self.speed, self.speed_multiplier, 1000, delta_time);
        let y = advance(self.position.y, heading.y, self.speed, self.speed_multiplier, 1000, delta_time);
        self.position = bound_pos(Point { x, y }, width, height);
    }

    /// The children of this hazard, for the given draws: none when its tier is
    /// 1; else one of the tier below, and a second one when `can_add` holds.
    pub fn split_with(&self, can_add: bool, draws: SplitDraws) -> (r: Vec<Asteroid>)
        requires
            self.wf(),
            draws.wf(),
        ensures
            r@ == self.split_spec(can_add, draws),
            r@.len() == child_count(self.size as int, can_add),
            forall|k: int| 0 <= k < r@.len() ==> (#[trigger] r@[k]).wf() && r@[k].size == self.size - 1,
    {
        let mut output: Vec<Asteroid> = Vec::new();
        if self.size > 1 {
            proof {
                lemma_child_bound(self.speed as int, draws.first_speed as int, SPEED_CAP as int, self.size as int);
                lemma_child_bound(self.turn_rate as int, draws.first_turn as int, TURN_RATE_CAP as int, self.size as int);
                lemma_child_bound(self.speed as int, draws.second_speed as int, SPEED_CAP as int, self.size as int);
                lemma_child_bound(self.turn_rate as int, draws.second_turn as int, TURN_RATE_CAP as int, self.size as int);
            }
            let a = Asteroid {
                position: self.position,
                speed: -scale_permille(self.speed, draws.first_speed),
                size: self.size - 1,
                scale: ASTEROID_SCALE,
                rotation: wrap_angle(-self.rotation, EIGHTH_TURN),
                direction: wrap_angle(-self.direction, -EIGHTH_TURN),
                speed_multiplier: self.speed_multiplier,
                turn_rate: -scale_permille(self.turn_rate, draws.first_turn),
                texture: self.texture.clone(),
            };
            assert(a == self.first_child(draws));
            output.push(a);
            if can_add {
                let b = Asteroid {
                    position: self.position,
                    speed: -scale_permille(self.speed, draws.second_speed),
                    size: self.size - 1,
                    scale: ASTEROID_SCALE,
                    rotation: wrap_angle(-self.rotation, -EIGHTH_TURN),
                    direction: wrap_angle(-self.direction, EIGHTH_TURN),
                    speed_multiplier: self.speed_multiplier,
                    turn_rate: scale_permille(self.turn_rate, draws.second_turn),
                    texture: self.texture.clone(),
                };
                assert(b == self.second_child(draws));
                output.push(b);
            }
        }
        proof {
            assert(output@ =~= self.split_spec(can_add, draws));
        }
        output
    }
}

/// Where a new hazard appears: `near` inside the edge `side` (1 top, 2 right,
/// 3 bottom, 4 left), at `along_x` or `along_y` along that edge.
pub open spec fn alea_pos_spec(side: int, near: int, along_x: int, along_y: int, width: int, height: int) -> Point {
    Point {
        x: (if side == 2 { width - near } else if side == 4 { near } else { along_x }) as i64,
        y: (if side == 1 { near } else if side == 3 { height - near } else { along_y }) as i64,
    }
}

/// Speed of a new hazard of tier `size` with multiplier `m` (thousandths).
pub open spec fn spawn_speed(size: int, m: int) -> int {
    size_to_speed(size) * m * (BASE_SPEED as int) / (SUBPIXELS as int)
}

/// `r` is a hazard that `Asteroid::spawn` may make on a screen `width` x
/// `height` with the variants `catalog`: near an edge, of tier 1 to 3, with
/// its speed given by its tier and multiplier, and a variant of the catalog.
pub open spec fn spawned(r: Asteroid, width: int, height: int, catalog: Seq<String>) -> bool {
    &&& r.wf()
    &&& 1 <= r.size <= 3
    &&& r.scale == ASTEROID_SCALE
    &&& MULTIPLIER_MIN <= r.speed_multiplier <= MULTIPLIER_MAX
    &&& r.speed == spawn_speed(r.size as int, r.speed_multiplier as int)
    &&& 0 <= r.rotation <= TURN
    &&& 0 <= r.direction <= TURN
    &&& TURN_RATE_MIN <= r.turn_rate <= TURN_RATE_MAX || -TURN_RATE_MAX <= r.turn_rate <= -TURN_RATE_MIN
    &&& exists|k: int| 0 <= k < catalog.len() && r.texture == #[trigger] catalog[k]
    &&& exists|side: int, near: int, ax: int, ay: int|
        1 <= side <= 4 && ASTEROID_INIT_SIZE / 2 <= near <= ASTEROID_INIT_SIZE
        && 0 <= ax <= width && 0 <= ay <= height
        && r.position == #[trigger] alea_pos_spec(side, near, ax, ay, width, height)
}

impl Asteroid {
    /// The children of this hazard, with freshly drawn factors: none when
    /// its tier is 1 or 0; else one of the tier below, and a second one when
    /// `can_add` holds.
    pub fn split(&self, can_add: bool) -> (r: Vec<Asteroid>)
        requires
            self.wf(),
        ensures
            self.split_outcome(can_add, r@),
            r@.len() == child_count(self.size as int, can_add),
            forall|k: int| 0 <= k < r@.len() ==> (#[trigger] r@[k]).wf() && r@[k].size == self.size - 1,
    {
        let draws = SplitDraws {
            first_speed: random_between(1000, 1750),
            first_turn: random_between(1000, 2000),
            second_speed: random_between(1000, 2000),
            second_turn: random_between(1000, 3500),
        };
        let r = self.split_with(can_add, draws);
        assert(draws.wf() && r@ == self.split_spec(can_add, draws));
        r
    }

    /// The place of a new hazard from its draws; see `alea_pos_spec`.
    pub fn alea_pos_from(side: i64, near: i64, along_x: i64, along_y: i64, width: i64, height: i64) -> (r: Point)
        requires
            0 <= near <= ASTEROID_INIT_SIZE,
            0 <= along_x <= width <= COORD_LIMIT,
            0 <= along_y <= height <= COORD_LIMIT,
        ensures
            r == alea_pos_spec(side as int, near as int, along_x as int, along_y as int, width as int, height as int),
            r.in_limits(),
    {
        let x = if side == 2 { width - near } else if side == 4 { near } else { along_x };
        let y = if side == 1 { near } else if side == 3 { height - near } else { along_y };
        Point { x, y }
    }

    /// A random place within one size unit of a random edge of the screen.
    pub fn new_alea_pos(width: i64, height: i64) -> (r: Point)
        requires
            0 <= width <= COORD_LIMIT,
            0 <= height <= COORD_LIMIT,
        ensures
            r.in_limits(),
            exists|side: int, near: int, ax: int, ay: int|
                1 <= side <= 4 && ASTEROID_INIT_SIZE / 2 <= near <= ASTEROID_INIT_SIZE
                && 0 <= ax <= width && 0 <= ay <= height
                && r == #[trigger] alea_pos_spec(side, near, ax, ay, width as int, height as int),
    {
        let near = random_between(ASTEROID_INIT_SIZE / 2, ASTEROID_INIT_SIZE);
        let side = random_between(1, 4);
        let ax = random_between(0, width);
        let ay = random_between(0, height);
        Self::alea_pos_from(side, near, ax, ay, width, height)
    }

    /// The tier, multiplier and speed of a new hazard: a tier drawn in 1..=3,
    /// a multiplier in [MULTIPLIER_MIN, MULTIPLIER_MAX], and the speed that
    /// they give.
    pub fn new_properties() -> (r: (u8, i64, i64))
        ensures
            1 <= r.0 <= 3,
            MULTIPLIER_MIN <= r.1 <= MULTIPLIER_MAX,
            r.2 == spawn_speed(r.0 as int, r.1 as int),
            0 <= r.2 <= 3 * MULTIPLIER_MAX * 50,
    {
        let size = random_between(1, 3) as u8;
        let m = random_between(MULTIPLIER_MIN, MULTIPLIER_MAX);
        let factor: i64 = if size == 1 { 3 } else if size == 2 { 2 } else { 1 };
        proof {
            assert(0 <= factor * m * BASE_SPEED <= 3 * MULTIPLIER_MAX * BASE_SPEED) by (nonlinear_arith)
                requires 1 <= factor <= 3, 0 <= m <= MULTIPLIER_MAX;
        }
        (size, m, factor * m * BASE_SPEED / SUBPIXELS)
    }

    /// A new hazard near a random edge of the screen [0, width] x [0, height],
    /// with random tier, kinematics, facing, travel direction, and a variant
    /// of the catalog drawn by weight.
    pub fn spawn(width: i64, height: i64, catalog: &Vec<String>) -> (r: Asteroid)
        requires
            0 <= width <= COORD_LIMIT,
            0 <= height <= COORD_LIMIT,
            1 <= catalog@.len() <= MAX_VARIANTS,
        ensures
            spawned(r, width as int, height as int, catalog@),
    {
        let props = Self::new_properties();
        let position = Self::new_alea_pos(width, height);
        let rotation = random_between(0, TURN);
        let direction = random_between(0, TURN);
        let rate = random_between(TURN_RATE_MIN, TURN_RATE_MAX);
        let turn_rate = if random_bool() { rate } else { -rate };
        let k = pick_variant(catalog.len());
        let texture = catalog[k].clone();
        assert(texture == catalog@[k as int]);
        Asteroid {
            position,
            speed: props.2,
            size: props.0,
            scale: ASTEROID_SCALE,
            rotation,
            direction,
            speed_multiplier: props.1,
            turn_rate,
            texture,
        }
    }
}

/// Splitting keeps every tier within 0..=3: each child of a hazard is well
/// formed, one tier below its parent, and never of tier 0.
pub proof fn lemma_split_keeps_tiers(p: Asteroid, can_add: bool, kids: Seq<Asteroid>)
    requires
        p.wf(),
        p.split_outcome(can_add, kids),
    ensures
        forall|k: int| 0 <= k < kids.len() ==> (#[trigger] kids[k]).wf() && kids[k].size == p.size - 1
            && 1 <= kids[k].size <= 3,
{
    let d = choose|d: SplitDraws| d.wf() && kids == p.split_spec(can_add, d);
    if p.size > 1 {
        lemma_child_bound(p.speed as int, d.first_speed as int, SPEED_CAP as int, p.size as int);
        lemma_child_bound(p.turn_rate as int, d.first_turn as int, TURN_RATE_CAP as int, p.size as int);
        lemma_child_bound(p.speed as int, d.second_speed as int, SPEED_CAP as int, p.size as int);
        lemma_child_bound(p.turn_rate as int, d.second_turn as int, TURN_RATE_CAP as int, p.size as int);
    }
}

/// A hazard of tier 2 splits into exactly one child of tier 1 when growth is
/// refused, and into two children of tier 1 when it is allowed.
pub proof fn lemma_split_tier_two(p: Asteroid, refused: Seq<Asteroid>, allowed: Seq<Asteroid>)
    requires
        p.wf(),
        p.size == 2,
        p.split_outcome(false, refused),
        p.split_outcome(true, allowed),
    ensures
        refused.len() == 1,
        refused[0].size == 1,
        allowed.len() == 2,
        allowed[0].size == 1,
        allowed[1].size == 1,
{
}

/// A hazard of tier 1 splits into no child at all, whether growth is allowed
/// or not.
pub proof fn lemma_split_tier_one(p: Asteroid, can_add: bool, kids: Seq<Asteroid>)
    requires
        p.size == 1,
        p.split_outcome(can_add, kids),
    ensures
        kids.len() == 0,
{
}

/// A hazard of tier 0 splits into no child at all.
pub proof fn lemma_split_tier_zero(p: Asteroid, can_add: bool, kids: Seq<Asteroid>)
    requires
        p.size == 0,
        p.split_outcome(can_add, kids),
    ensures
        kids.len() == 0,
{
}

} // verus!
