use vstd::prelude::*;
use crate::fixed::{lerp, lerp_spec, ONE};
use crate::random::{random_bool, random_in};

verus! {

/// Injects to pop before the first new batch arrives.
pub const INIT_CURRENT: u8 = 3;

/// Size of the first new batch.
pub const INIT_MAX: u8 = 4;

/// Radius of a freshly spawned inject (20 units).
pub const INIT_RADIUS: u64 = 20_000_000;

/// Radius from which an inject pops instead of growing (50 units).
pub const ENOUGH_RADIUS: u64 = 50_000_000;

/// Smallest growth factor drawn on a collision (1.5).
pub const GROWTH_LOW: i64 = 1_500_000;

/// Bound (excluded) of the growth factor drawn on a collision (3.6).
pub const GROWTH_HIGH: i64 = 3_600_000;

/// Length of a growth animation: one second, in millionths.
pub const GROWTH_DURATION: u64 = 1_000_000;

/// Thickness of the walls round the window (0.1 units).
pub const DEFAULT_WALL_WIDTH: u64 = 100_000;

/// Smallest speed of a new inject along each axis (50 units per second).
pub const SPEED_LOW: i64 = 50_000_000;

/// Bound (excluded) of the speed of a new inject along each axis (80 units).
pub const SPEED_HIGH: i64 = 80_000_000;

/// Smallest spin of a new inject (0.3 radians per second).
pub const SPIN_LOW: i64 = 300_000;

/// Bound (excluded) of the spin of a new inject (1.2 radians per second).
pub const SPIN_HIGH: i64 = 1_200_000;

/// What a collision between the pointer and an inject needs to know of the inject.
#[derive(Clone, Copy, Debug, PartialEq, Eq, Structural)]
pub struct InjectBody {
    /// Radius of its collision sphere.
    pub radius: u64,
    /// Progress of its running growth animation, if it has one (a fraction of `ONE`).
    pub tween_progress: Option<u64>,
}

/// What is done with an inject that the pointer touched.
#[derive(Clone, Copy, Debug, PartialEq, Eq, Structural)]
pub enum CollisionOutcome {
    /// It is removed.
    Pop,
    /// It is growing already; it is left alone.
    Busy,
    /// Its scale and collision radius grow together by `factor` (a fraction of
    /// `ONE`), the radius to `end_radius`, over `GROWTH_DURATION`.
    Grow { factor: u32, end_radius: u64 },
}

/// The collision groups an entity belongs to.
#[derive(Clone, Copy, Debug, PartialEq, Eq, Structural)]
pub struct LayerGroups {
    pub mouse: bool,
    pub wall: bool,
    pub inject: bool,
}

/// The radius after growing by `factor`, capped at the largest `u64`.
pub open spec fn grown(radius: u64, factor: u32) -> int {
    let r = radius * factor / (ONE as int);
    if r > u64::MAX as int {
        u64::MAX as int
    } else {
        r
    }
}

pub open spec fn in_flight(body: InjectBody) -> bool {
    body.tween_progress matches Some(p) && p < ONE
}

/// The outcome of a collision once the growth factor is known.
pub open spec fn outcome_spec(body: InjectBody, enough: u64, factor: u32) -> CollisionOutcome {
    if body.radius >= enough {
        CollisionOutcome::Pop
    } else if in_flight(body) {
        CollisionOutcome::Busy
    } else {
        CollisionOutcome::Grow { factor, end_radius: grown(body.radius, factor) as u64 }
    }
}

/// `o` is the outcome of a collision for some growth factor in `[GROWTH_LOW, GROWTH_HIGH)`.
pub open spec fn outcome_fits(body: InjectBody, enough: u64, o: CollisionOutcome) -> bool {
    match o {
        CollisionOutcome::Pop => body.radius >= enough,
        CollisionOutcome::Busy => body.radius < enough && in_flight(body),
        CollisionOutcome::Grow { factor, end_radius } => {
            &&& body.radius < enough
            &&& !in_flight(body)
            &&& GROWTH_LOW <= factor < GROWTH_HIGH
            &&& end_radius == grown(body.radius, factor)
        },
    }
}

/// How many of `bodies` are big enough to pop.
pub open spec fn pops_in(bodies: Seq<InjectBody>, enough: u64) -> nat
    decreases bodies.len(),
{
    if bodies.len() == 0 {
        0
    } else {
        pops_in(bodies.drop_last(), enough) + if bodies.last().radius >= enough {
            1nat
        } else {
            0nat
        }
    }
}

/// The countdown after `n` pops: it stops at zero.
pub open spec fn countdown_after(current: u8, n: int) -> u8 {
    if n >= current {
        0
    } else {
        (current - n) as u8
    }
}

/// Whether a sphere of `radius` has grown enough to pop.
pub fn is_shape_enough(radius: u64, enough: u64) -> (r: bool)
    ensures
        r == (radius >= enough),
{
    radius >= enough
}

pub fn is_mouse(layers: LayerGroups) -> (r: bool)
    ensures
        r == layers.mouse,
{
    layers.mouse
}

pub fn is_inject(layers: LayerGroups) -> (r: bool)
    ensures
        r == layers.inject,
{
    layers.inject
}

/// The inject of a collision between the pointer and an inject, if the
/// collision is one; the pointer may be either party.
pub fn collision_target(
    first: u64,
    first_layers: LayerGroups,
    second: u64,
    second_layers: LayerGroups,
) -> (r: Option<u64>)
    ensures
        first_layers.mouse && second_layers.inject ==> r == Some(second),
        !(first_layers.mouse && second_layers.inject) && second_layers.mouse
            && first_layers.inject ==> r == Some(first),
        !(first_layers.mouse && second_layers.inject) && !(second_layers.mouse
            && first_layers.inject) ==> r is None,
{
    if is_mouse(first_layers) && is_inject(second_layers) {
        Some(second)
    } else if is_mouse(second_layers) && is_inject(first_layers) {
        Some(first)
    } else {
        None
    }
}

/// The radius after growing by `factor`.
pub fn grow_radius(radius: u64, factor: u32) -> (r: u64)
    ensures
        r == grown(radius, factor),
{
    assert((radius as int) * (factor as int) <= (u64::MAX as int) * (u32::MAX as int)) by (nonlinear_arith)
        requires radius <= u64::MAX, factor <= u32::MAX;
    let product: u128 = (radius as u128) * (factor as u128) / (ONE as u128);
    if product > u64::MAX as u128 {
        u64::MAX
    } else {
        product as u64
    }
}

/// Decides what a collision does to an inject, given the growth factor to use.
pub fn decide(body: &InjectBody, enough: u64, factor: u32) -> (r: CollisionOutcome)
    ensures
        r == outcome_spec(*body, enough, factor),
{
    if is_shape_enough(body.radius, enough) {
        return CollisionOutcome::Pop;
    }
    if let Some(p) = body.tween_progress {
        if p < ONE {
            return CollisionOutcome::Busy;
        }
    }
    CollisionOutcome::Grow { factor, end_radius: grow_radius(body.radius, factor) }
}

/// The collision radius at `ratio` of a growth from `start` to `end`.
pub fn collision_radius_at(start: u64, end: u64, ratio: u64) -> (r: u64)
    requires
        ratio <= ONE,
    ensures
        r == lerp_spec(start, end, ratio),
{
    lerp(start, end, ratio)
}

/// A random speed along one axis, in either direction.
pub fn rand_velocity() -> (r: i64)
    ensures
        SPEED_LOW <= r < SPEED_HIGH || SPEED_LOW <= -r < SPEED_HIGH,
{
    let v: i64 = random_in(SPEED_LOW, SPEED_HIGH);
    if random_bool() {
        v
    } else {
        -v
    }
}

/// A random spin, in either direction.
pub fn rand_angular() -> (r: i64)
    ensures
        SPIN_LOW <= r < SPIN_HIGH || SPIN_LOW <= -r < SPIN_HIGH,
{
    let v: i64 = random_in(SPIN_LOW, SPIN_HIGH);
    if random_bool() {
        v
    } else {
        -v
    }
}

/// Where and how a new inject starts.
#[derive(Clone, Copy, Debug, PartialEq, Eq, Structural)]
pub struct InjectSpawn {
    pub x: i64,
    pub y: i64,
    pub radius: u64,
    pub velocity_x: i64,
    pub velocity_y: i64,
    pub velocity_z: i64,
    pub angular: i64,
}

pub open spec fn speed_ok(v: i64) -> bool {
    SPEED_LOW <= v < SPEED_HIGH || SPEED_LOW <= -v < SPEED_HIGH
}

/// A well-placed new inject: inside `(-half_width, half_width)` by
/// `(-half_height, half_height)`, of the given radius, moving and spinning.
pub open spec fn spawn_ok(s: InjectSpawn, radius: u64, half_width: i64, half_height: i64) -> bool {
    &&& -half_width <= s.x < half_width
    &&& -half_height <= s.y < half_height
    &&& s.radius == radius
    &&& speed_ok(s.velocity_x)
    &&& speed_ok(s.velocity_y)
    &&& speed_ok(s.velocity_z)
    &&& (SPIN_LOW <= s.angular < SPIN_HIGH || SPIN_LOW <= -s.angular < SPIN_HIGH)
}

/// Places `num` new injects of `radius` at random in the given half extents.
pub fn spawn_inject(num: u8, radius: u64, half_width: i64, half_height: i64) -> (r: Vec<
    InjectSpawn,
>)
    requires
        num > 0 ==> 0 < half_width && 0 < half_height,
    ensures
        r.len() == num,
        forall|i: int| 0 <= i < r.len() ==> spawn_ok(#[trigger] r[i], radius, half_width, half_height),
{
    let mut out: Vec<InjectSpawn> = Vec::new();
    let mut k: u8 = 0;
    while k < num
        invariant
            k <= num,
            out.len() == k,
            num > 0 ==> 0 < half_width && 0 < half_height,
            forall|i: int|
                0 <= i < out.len() ==> spawn_ok(#[trigger] out[i], radius, half_width, half_height),
        decreases num - k,
    {
        let x: i64 = random_in(-half_width, half_width);
        let y: i64 = random_in(-half_height, half_height);
        let velocity_x = rand_velocity();
        let velocity_y = rand_velocity();
        let velocity_z = rand_velocity();
        let angular = rand_angular();
        out.push(InjectSpawn { x, y, radius, velocity_x, velocity_y, velocity_z, angular });
        k = k + 1;
    }
    out
}

/// Half of a window's extent, less the margin kept free for a new inject.
pub fn half_extent(window: u64, margin: u64) -> (r: i64)
    requires
        window <= i64::MAX as u64,
        margin <= i64::MAX as u64,
    ensures
        r == window / 2 - margin,
{
    (window / 2) as i64 - margin as i64
}

/// A wall of the playing field: its size and the position of its centre.
#[derive(Clone, Copy, Debug, PartialEq, Eq, Structural)]
pub struct WallSpec {
    pub width: u64,
    pub height: u64,
    pub x: i64,
    pub y: i64,
}

/// The four walls round a window: right, left, top, bottom.
pub fn spawn_all_wall(window_width: u64, window_height: u64) -> (r: Vec<WallSpec>)
    requires
        window_width <= i64::MAX as u64,
        window_height <= i64::MAX as u64,
    ensures
        r@ == seq![
            (WallSpec { width: DEFAULT_WALL_WIDTH, height: window_height, x: (window_width / 2) as i64, y: 0 }),
            (WallSpec { width: DEFAULT_WALL_WIDTH, height: window_height, x: (-(window_width / 2)) as i64, y: 0 }),
            (WallSpec { width: window_width, height: DEFAULT_WALL_WIDTH, x: 0, y: (window_height / 2) as i64 }),
            (WallSpec { width: window_width, height: DEFAULT_WALL_WIDTH, x: 0, y: (-(window_height / 2)) as i64 }),
        ],
{
    let half_width: i64 = (window_width / 2) as i64;
    let half_height: i64 = (window_height / 2) as i64;
    let mut walls: Vec<WallSpec> = Vec::new();
    walls.push(WallSpec { width: DEFAULT_WALL_WIDTH, height: window_height, x: half_width, y: 0 });
    walls.push(WallSpec { width: DEFAULT_WALL_WIDTH, height: window_height, x: -half_width, y: 0 });
    walls.push(WallSpec { width: window_width, height: DEFAULT_WALL_WIDTH, x: 0, y: half_height });
    walls.push(WallSpec { width: window_width, height: DEFAULT_WALL_WIDTH, x: 0, y: -half_height });
    walls
}

/// One coordinate pulled back inside `[-half, half]`: first the upper bound,
/// then the lower one.
pub open spec fn fit_axis(v: int, half: int) -> int {
    let a = if v > half {
        half
    } else {
        v
    };
    if a < -half {
        -half
    } else {
        a
    }
}

fn fit_axis_exec(v: i64, half: i64) -> (r: i64)
    requires
        half > i64::MIN,
    ensures
        r == fit_axis(v as int, half as int),
{
    let a: i64 = if v > half {
        half
    } else {
        v
    };
    if a < -half {
        -half
    } else {
        a
    }
}

/// Pulls an inject back inside a resized window, keeping `size` (its sprite's
/// width) clear of each edge.
pub fn sync_with_window_size(x: i64, y: i64, size: u64, window_width: u64, window_height: u64) -> (r: (
    i64,
    i64,
))
    requires
        size <= i64::MAX as u64,
        window_width <= i64::MAX as u64,
        window_height <= i64::MAX as u64,
    ensures
        r.0 == fit_axis(x as int, window_width / 2 - size),
        r.1 == fit_axis(y as int, window_height / 2 - size),
{
    let half_width = half_extent(window_width, size);
    let half_height = half_extent(window_height, size);
    (fit_axis_exec(x, half_width), fit_axis_exec(y, half_height))
}

/// The per-run counters of the game screen.
#[derive(Clone, Copy, Debug, PartialEq, Eq, Structural)]
pub struct InjectRun {
    /// Injects still to pop before the next batch.
    pub current: u8,
    /// Size of the next batch.
    pub max: u8,
    /// Radius of a new inject.
    pub init_radius: u64,
    /// Radius from which an inject pops.
    pub enough: u64,
}

impl Default for InjectRun {
    fn default() -> (r: InjectRun)
        ensures
            r.current == INIT_CURRENT,
            r.max == INIT_MAX,
            r.init_radius == INIT_RADIUS,
            r.enough == ENOUGH_RADIUS,
    {
        InjectRun { current: INIT_CURRENT, max: INIT_MAX, init_radius: INIT_RADIUS, enough: ENOUGH_RADIUS }
    }
}

impl InjectRun {
    /// Applies a collision with the growth factor already drawn: a pop counts
    /// the countdown down, stopping at zero.
    pub fn resolve(&mut self, body: &InjectBody, factor: u32) -> (r: CollisionOutcome)
        ensures
            r == outcome_spec(*body, old(self).enough, factor),
            final(self).current == if r is Pop {
                countdown_after(old(self).current, 1)
            } else {
                old(self).current
            },
            final(self).max == old(self).max,
            final(self).init_radius == old(self).init_radius,
            final(self).enough == old(self).enough,
    {
        let r = decide(body, self.enough, factor);
        if let CollisionOutcome::Pop = r {
            self.current = self.current.saturating_sub(1);
        }
        r
    }

    /// Handles the pointer touching an inject, drawing a growth factor in
    /// `[GROWTH_LOW, GROWTH_HIGH)` for one that grows.
    pub fn touch(&mut self, body: &InjectBody) -> (r: CollisionOutcome)
        ensures
            outcome_fits(*body, old(self).enough, r),
            final(self).current == if r is Pop {
                countdown_after(old(self).current, 1)
            } else {
                old(self).current
            },
            final(self).max == old(self).max,
            final(self).init_radius == old(self).init_radius,
            final(self).enough == old(self).enough,
    {
        let factor: i64 = random_in(GROWTH_LOW, GROWTH_HIGH);
        self.resolve(body, factor as u32)
    }

    /// Handles the injects the pointer touched in one frame, in order; the
    /// countdown falls by one for each pop, stopping at zero.
    pub fn handle_inject(&mut self, bodies: &Vec<InjectBody>) -> (r: Vec<CollisionOutcome>)
        ensures
            r.len() == bodies.len(),
            forall|i: int| 0 <= i < r.len() ==> outcome_fits(bodies[i], old(self).enough, #[trigger] r[i]),
            final(self).current == countdown_after(old(self).current, pops_in(bodies@, old(self).enough) as int),
            final(self).max == old(self).max,
            final(self).init_radius == old(self).init_radius,
            final(self).enough == old(self).enough,
    {
        let mut out: Vec<CollisionOutcome> = Vec::new();
        let mut i: usize = 0;
        while i < bodies.len()
            invariant
                i <= bodies.len(),
                out.len() == i,
                forall|j: int| 0 <= j < i ==> outcome_fits(bodies[j], old(self).enough, #[trigger] out[j]),
                self.current == countdown_after(old(self).current, pops_in(bodies@.take(i as int), old(self).enough) as int),
                self.max == old(self).max,
                self.init_radius == old(self).init_radius,
                self.enough == old(self).enough,
            decreases bodies.len() - i,
        {
            proof {
                assert(bodies@.take(i as int + 1).drop_last() =~= bodies@.take(i as int));
            }
            let o = self.touch(&bodies[i]);
            out.push(o);
            i = i + 1;
        }
        proof {
            assert(bodies@.take(bodies.len() as int) =~= bodies@);
        }
        out
    }

    /// The unfair advantage: every inject is treated as touched at once.
    pub fn space_to_unfair(&mut self, bodies: &Vec<InjectBody>) -> (r: Vec<CollisionOutcome>)
        ensures
            r.len() == bodies.len(),
            forall|i: int| 0 <= i < r.len() ==> outcome_fits(bodies[i], old(self).enough, #[trigger] r[i]),
            final(self).current == countdown_after(old(self).current, pops_in(bodies@, old(self).enough) as int),
            final(self).max == old(self).max,
            final(self).init_radius == old(self).init_radius,
            final(self).enough == old(self).enough,
    {
        self.handle_inject(bodies)
    }

    /// Starts a new batch once the countdown is at zero: returns how many
    /// injects to spawn (the cap), raises the cap by one, stopping at the
    /// largest `u8`, and resets the countdown to the raised cap. Returns zero
    /// and changes nothing while injects are still to pop.
    pub fn gen_new_inject(&mut self) -> (spawn: u8)
        ensures
            old(self).current == 0 ==> {
                &&& spawn == old(self).max
                &&& final(self).max == if old(self).max == u8::MAX {
                    u8::MAX
                } else {
                    (old(self).max + 1) as u8
                }
                &&& final(self).current == final(self).max
            },
            old(self).current != 0 ==> spawn == 0 && final(self).current == old(self).current
                && final(self).max == old(self).max,
            final(self).init_radius == old(self).init_radius,
            final(self).enough == old(self).enough,
    {
        if self.current == 0 {
            let spawn = self.max;
            self.max = self.max.saturating_add(1);
            self.current = self.max;
            spawn
        } else {
            0
        }
    }
}

/// Counting pops down one at a time or several at once gives the same
/// countdown, which never goes below zero and never rises.
pub proof fn lemma_countdown_never_underflows(current: u8, n: int)
    requires
        n >= 0,
    ensures
        0 <= countdown_after(current, n) <= current,
        n >= current ==> countdown_after(current, n) == 0,
        n < current ==> countdown_after(current, n) == current - n,
        countdown_after(countdown_after(current, n), 1) == countdown_after(current, n + 1),
{
}

/// A touched inject at or above the pop radius is always removed; one below
/// it is never removed, and when it grows its radius does not shrink.
pub proof fn lemma_pop_only_when_enough(body: InjectBody, enough: u64, factor: u32)
    ensures
        (outcome_spec(body, enough, factor) is Pop) <==> body.radius >= enough,
        body.radius < enough && factor >= GROWTH_LOW ==> match outcome_spec(body, enough, factor) {
            CollisionOutcome::Grow { factor: f, end_radius } => f == factor && end_radius >= body.radius,
            CollisionOutcome::Busy => in_flight(body),
            CollisionOutcome::Pop => false,
        },
{
    if factor >= GROWTH_LOW {
        let r = body.radius as int;
        let f = factor as int;
        assert(r * f >= r * (ONE as int)) by (nonlinear_arith)
            requires r >= 0, f >= ONE as int;
        assert(r * (ONE as int) / (ONE as int) == r) by (nonlinear_arith);
        assert(r * f / (ONE as int) >= r * (ONE as int) / (ONE as int)) by (nonlinear_arith)
            requires r * f >= r * (ONE as int);
    }
}

} // verus!
