use vstd::prelude::*;
use crate::fixed::ONE;
use crate::game_state::{depleted_target, FishWarState};
use crate::random::random_in;
use crate::tween::Interaction;

verus! {

/// The menu's resting tick: the meter refills by this much each frame.
pub const NORMAL_OFFSET: i64 = 5_000;

/// The tick while the start button is pressed: ten resting ticks, draining.
pub const PRESSED_OFFSET: i64 = -50_000;

/// The tick while the pointer is over the start button: three resting ticks, draining.
pub const HOVERED_OFFSET: i64 = -15_000;

/// Smallest amount a pop takes off the meter.
pub const POP_DRAW_LOW: i64 = 10_000;

/// Bound (excluded) of the amount a pop takes off the meter.
pub const POP_DRAW_HIGH: i64 = 20_000;

/// The meter level after moving `level` by `delta`, held within `[0, ONE]`.
pub open spec fn clamp_level(level: int, delta: int) -> int {
    if level + delta <= 0 {
        0
    } else if level + delta >= ONE as int {
        ONE as int
    } else {
        level + delta
    }
}

/// Moving by `delta` takes a meter that was above zero down to zero.
pub open spec fn crosses(level: int, delta: int) -> bool {
    level > 0 && clamp_level(level, delta) == 0
}

/// The meter level after a pop that draws `draw`.
pub open spec fn after_pop(level: int, draw: int) -> int {
    clamp_level(level, -draw)
}

/// Every draw lies in `[POP_DRAW_LOW, POP_DRAW_HIGH)`.
pub open spec fn draws_ok(draws: Seq<u64>) -> bool {
    forall|i: int| 0 <= i < draws.len() ==> POP_DRAW_LOW <= #[trigger] draws[i] < POP_DRAW_HIGH
}

/// Screen, meter level and move after draining `level` by each of `draws` in
/// turn: the first draw that empties the meter moves to the next screen, if
/// there is one, leaving the meter empty, and the draws after it are not applied.
pub open spec fn drain_spec(state: FishWarState, level: int, draws: Seq<u64>) -> (
    FishWarState,
    int,
    Option<FishWarState>,
)
    decreases draws.len(),
{
    if draws.len() == 0 {
        (state, level, None)
    } else if crosses(level, -(draws[0] as int)) && depleted_target(state) is Some {
        (depleted_target(state)->0, 0, depleted_target(state))
    } else {
        drain_spec(state, after_pop(level, draws[0] as int), draws.drop_first())
    }
}

/// `a - b`, stopping at zero.
pub open spec fn floor_sub(a: int, b: int) -> int {
    if a - b <= 0 {
        0
    } else {
        a - b
    }
}

/// Screen, meter level and move after moving `level` by `delta`: a move that
/// empties the meter goes to the next screen, if there is one.
pub open spec fn step_spec(state: FishWarState, level: int, delta: int) -> (
    FishWarState,
    int,
    Option<FishWarState>,
) {
    if crosses(level, delta) && depleted_target(state) is Some {
        (depleted_target(state)->0, clamp_level(level, delta), depleted_target(state))
    } else {
        (state, clamp_level(level, delta), None)
    }
}

/// The sum of a sequence of draws.
pub open spec fn total(draws: Seq<u64>) -> int
    decreases draws.len(),
{
    if draws.len() == 0 {
        0
    } else {
        draws[0] + total(draws.drop_first())
    }
}

/// The wave offset: the game's single win/lose gauge, a fraction of `ONE`.
pub struct Meter {
    level: u64,
}

impl Meter {
    pub open spec fn wf(&self) -> bool {
        0 <= self.level_spec() <= ONE as int
    }

    pub closed spec fn level_spec(&self) -> int {
        self.level as int
    }

    /// A full meter, as each screen starts with.
    pub fn full() -> (m: Meter)
        ensures
            m.wf(),
            m.level_spec() == ONE as int,
    {
        Meter { level: ONE }
    }

    /// A meter at a given level.
    pub fn new(level: u64) -> (m: Meter)
        requires
            level <= ONE,
        ensures
            m.wf(),
            m.level_spec() == level as int,
    {
        Meter { level }
    }

    pub fn level(&self) -> (r: u64)
        ensures
            r as int == self.level_spec(),
    {
        self.level
    }

    pub fn is_empty(&self) -> (r: bool)
        ensures
            r == (self.level_spec() == 0),
    {
        self.level == 0
    }

    /// Moves the meter by `delta`, clamped to `[0, ONE]`; tells whether this
    /// move took it from above zero down to zero.
    pub fn adjust(&mut self, delta: i64) -> (crossed: bool)
        requires
            old(self).wf(),
        ensures
            final(self).wf(),
            final(self).level_spec() == clamp_level(old(self).level_spec(), delta as int),
            crossed == crosses(old(self).level_spec(), delta as int),
    {
        let was_above: bool = self.level > 0;
        let sum: i128 = self.level as i128 + delta as i128;
        if sum <= 0 {
            self.level = 0;
        } else if sum >= ONE as i128 {
            self.level = ONE;
        } else {
            self.level = sum as u64;
        }
        was_above && self.level == 0
    }

    /// Takes `draw` off the meter for a popped inject, stopping at zero.
    pub fn pop(&mut self, draw: u64) -> (crossed: bool)
        requires
            old(self).wf(),
        ensures
            final(self).wf(),
            final(self).level_spec() == after_pop(old(self).level_spec(), draw as int),
            crossed == crosses(old(self).level_spec(), -(draw as int)),
    {
        let was_above: bool = self.level > 0;
        if draw >= self.level {
            self.level = 0;
        } else {
            self.level = self.level - draw;
        }
        was_above && self.level == 0
    }

    /// Takes a random amount in `[POP_DRAW_LOW, POP_DRAW_HIGH)` off the meter.
    pub fn pop_random(&mut self) -> (crossed: bool)
        requires
            old(self).wf(),
        ensures
            final(self).wf(),
            exists|draw: int|
                POP_DRAW_LOW <= draw < POP_DRAW_HIGH && final(self).level_spec() == #[trigger] after_pop(
                    old(self).level_spec(),
                    draw,
                ) && crossed == crosses(old(self).level_spec(), -draw),
    {
        let draw: i64 = random_in(POP_DRAW_LOW, POP_DRAW_HIGH);
        self.pop(draw as u64)
    }

    /// One menu frame: the meter moves by the current tick.
    pub fn tick(&mut self, offset: &Offset) -> (crossed: bool)
        requires
            old(self).wf(),
        ensures
            final(self).wf(),
            final(self).level_spec() == clamp_level(old(self).level_spec(), offset.0 as int),
            crossed == crosses(old(self).level_spec(), offset.0 as int),
    {
        self.adjust(offset.0)
    }
}

/// The menu's per-frame tick of the meter; its sign follows the start button.
#[derive(Clone, Copy, Debug, PartialEq, Eq, Structural)]
pub struct Offset(pub i64);

impl Default for Offset {
    fn default() -> (r: Offset)
        ensures
            r.0 == NORMAL_OFFSET,
    {
        Offset(NORMAL_OFFSET)
    }
}

impl Offset {
    /// The pointer left the button: a draining tick turns back into the resting one.
    pub fn off(&mut self)
        ensures
            final(self).0 == if old(self).0 < 0 {
                NORMAL_OFFSET
            } else {
                old(self).0
            },
    {
        if self.0 < 0 {
            self.0 = NORMAL_OFFSET;
        }
    }

    /// The button was pressed: a non-draining tick drains fast.
    pub fn on(&mut self)
        ensures
            final(self).0 == if old(self).0 >= 0 {
                PRESSED_OFFSET
            } else {
                old(self).0
            },
    {
        if self.0 >= 0 {
            self.0 = PRESSED_OFFSET;
        }
    }

    /// Follows the start button: pressed drains fast, hovered drains slowly,
    /// left alone rests.
    pub fn react(&mut self, interaction: Interaction)
        ensures
            final(self).0 == match interaction {
                Interaction::Clicked => if old(self).0 >= 0 {
                    PRESSED_OFFSET
                } else {
                    old(self).0
                },
                Interaction::Hovered => if old(self).0 >= 0 {
                    HOVERED_OFFSET
                } else {
                    old(self).0
                },
                Interaction::Idle => if old(self).0 < 0 {
                    NORMAL_OFFSET
                } else {
                    old(self).0
                },
            },
    {
        match interaction {
            Interaction::Clicked => self.on(),
            Interaction::Hovered => self.hoverd_on(),
            Interaction::Idle => self.off(),
        }
    }

    /// The pointer is over the button: a non-draining tick drains slowly.
    pub fn hoverd_on(&mut self)
        ensures
            final(self).0 == if old(self).0 >= 0 {
                HOVERED_OFFSET
            } else {
                old(self).0
            },
    {
        if self.0 >= 0 {
            self.0 = HOVERED_OFFSET;
        }
    }
}

/// The active screen together with its wave meter.
pub struct Stage {
    pub state: FishWarState,
    pub meter: Meter,
}

impl Stage {
    pub open spec fn wf(&self) -> bool {
        self.meter.wf()
    }

    /// A screen entered afresh, with a full meter.
    pub fn enter(state: FishWarState) -> (s: Stage)
        ensures
            s.wf(),
            s.state == state,
            s.meter.level_spec() == ONE as int,
    {
        Stage { state, meter: Meter::full() }
    }

    /// Moves the meter by `delta`, clamped to `[0, ONE]`; when that empties
    /// it, the screen that follows is taken and returned. The meter is left
    /// as the move left it: the next screen fills its own when entered.
    pub fn apply(&mut self, delta: i64) -> (moved: Option<FishWarState>)
        requires
            old(self).wf(),
        ensures
            final(self).wf(),
            0 <= final(self).meter.level_spec() <= ONE as int,
            step_spec(old(self).state, old(self).meter.level_spec(), delta as int) == (
                final(self).state,
                final(self).meter.level_spec(),
                moved,
            ),
            final(self).meter.level_spec() == clamp_level(old(self).meter.level_spec(), delta as int),
            moved is Some ==> final(self).meter.level_spec() == 0,
    {
        let crossed = self.meter.adjust(delta);
        if crossed {
            match self.state.on_depleted() {
                Some(next) => {
                    self.state = next;
                    Some(next)
                },
                None => None,
            }
        } else {
            None
        }
    }

    /// Applies the pops of one frame, each draining the meter by its draw in
    /// turn; the pop that empties it moves to the next screen, leaving the
    /// meter at zero, and the draws after it are dropped with the old screen.
    pub fn drain(&mut self, draws: &Vec<u64>) -> (moved: Option<FishWarState>)
        requires
            old(self).wf(),
        ensures
            final(self).wf(),
            0 <= final(self).meter.level_spec() <= ONE as int,
            drain_spec(old(self).state, old(self).meter.level_spec(), draws@) == (
                final(self).state,
                final(self).meter.level_spec(),
                moved,
            ),
            final(self).meter.level_spec() == floor_sub(old(self).meter.level_spec(), total(draws@)),
    {
        let ghost before = *self;
        let mut i: usize = 0;
        proof {
            assert(draws@.skip(0) =~= draws@);
            lemma_drain_level(before.state, before.meter.level_spec(), draws@);
        }
        while i < draws.len()
            invariant
                self.wf(),
                i <= draws.len(),
                before == *old(self),
                drain_spec(before.state, before.meter.level_spec(), draws@).1 == floor_sub(
                    before.meter.level_spec(),
                    total(draws@),
                ),
                drain_spec(before.state, before.meter.level_spec(), draws@) == drain_spec(
                    self.state,
                    self.meter.level_spec(),
                    draws@.skip(i as int),
                ),
            decreases draws.len() - i,
        {
            proof {
                assert(draws@.skip(i as int).drop_first() =~= draws@.skip(i as int + 1));
                assert(draws@.skip(i as int)[0] == draws@[i as int]);
            }
            let crossed = self.meter.pop(draws[i]);
            if crossed {
                if let Some(next) = self.state.on_depleted() {
                    self.state = next;
                    return Some(next);
                }
            }
            i = i + 1;
        }
        proof {
            assert(draws@.skip(i as int).len() == 0);
        }
        None
    }

    /// The pops of one frame: draws an amount in `[POP_DRAW_LOW, POP_DRAW_HIGH)`
    /// for each of `pops` popped injects and drains the meter by them in turn.
    pub fn pop_frame(&mut self, pops: u32) -> (moved: Option<FishWarState>)
        requires
            old(self).wf(),
        ensures
            final(self).wf(),
            0 <= final(self).meter.level_spec() <= ONE as int,
            exists|draws: Seq<u64>|
                #![trigger drain_spec(old(self).state, old(self).meter.level_spec(), draws)]
                {
                    &&& draws.len() == pops
                    &&& draws_ok(draws)
                    &&& drain_spec(old(self).state, old(self).meter.level_spec(), draws) == (
                        final(self).state,
                        final(self).meter.level_spec(),
                        moved,
                    )
                    &&& final(self).meter.level_spec() == floor_sub(
                        old(self).meter.level_spec(),
                        total(draws),
                    )
                },
            pops == 0 ==> {
                &&& moved is None
                &&& final(self).state == old(self).state
                &&& final(self).meter.level_spec() == old(self).meter.level_spec()
            },
            moved is Some ==> {
                &&& pops > 0
                &&& 0 < old(self).meter.level_spec() < pops as int * POP_DRAW_HIGH
                &&& moved == depleted_target(old(self).state)
                &&& final(self).state == moved->0
                &&& final(self).meter.level_spec() == 0
            },
            moved is None ==> {
                &&& final(self).state == old(self).state
                &&& final(self).meter.level_spec() >= old(self).meter.level_spec() - pops as int
                    * POP_DRAW_HIGH
                &&& (final(self).meter.level_spec() == 0 || final(self).meter.level_spec()
                    <= old(self).meter.level_spec() - pops as int * POP_DRAW_LOW)
            },
    {
        let mut draws: Vec<u64> = Vec::new();
        let mut k: u32 = 0;
        while k < pops
            invariant
                k <= pops,
                draws.len() == k,
                draws_ok(draws@),
            decreases pops - k,
        {
            let d: i64 = random_in(POP_DRAW_LOW, POP_DRAW_HIGH);
            draws.push(d as u64);
            k = k + 1;
        }
        let ghost before = *self;
        let moved = self.drain(&draws);
        proof {
            if pops == 0 {
                assert(draws@.len() == 0);
            }
            lemma_total_bounds(draws@);
            lemma_drain_level(before.state, before.meter.level_spec(), draws@);
            if moved is Some {
                lemma_drain_moves(before.state, before.meter.level_spec(), draws@);
            }
        }
        moved
    }

    /// One frame of the current screen. On the menu the meter moves by the
    /// button's tick `offset`; in the game it is drained by the `pops` injects
    /// popped this frame; on the game-over screen nothing moves. The other
    /// screen's input is ignored.
    pub fn sync_with_time(&mut self, offset: &Offset, pops: u32) -> (moved: Option<FishWarState>)
        requires
            old(self).wf(),
        ensures
            final(self).wf(),
            0 <= final(self).meter.level_spec() <= ONE as int,
            old(self).state == FishWarState::Menu ==> step_spec(
                old(self).state,
                old(self).meter.level_spec(),
                offset.0 as int,
            ) == (final(self).state, final(self).meter.level_spec(), moved),
            old(self).state == FishWarState::Game ==> {
                &&& exists|draws: Seq<u64>|
                    #![trigger drain_spec(old(self).state, old(self).meter.level_spec(), draws)]
                    {
                        &&& draws.len() == pops
                        &&& draws_ok(draws)
                        &&& drain_spec(old(self).state, old(self).meter.level_spec(), draws) == (
                            final(self).state,
                            final(self).meter.level_spec(),
                            moved,
                        )
                        &&& final(self).meter.level_spec() == floor_sub(
                            old(self).meter.level_spec(),
                            total(draws),
                        )
                    }
                &&& pops == 0 ==> moved is None && final(self).state == old(self).state
                    && final(self).meter.level_spec() == old(self).meter.level_spec()
                &&& moved is Some ==> pops > 0 && 0 < old(self).meter.level_spec() < pops as int
                    * POP_DRAW_HIGH && moved == Some(FishWarState::GameOver) && final(self).state
                    == FishWarState::GameOver && final(self).meter.level_spec() == 0
            },
            old(self).state == FishWarState::GameOver ==> {
                &&& moved is None
                &&& final(self).state == old(self).state
                &&& final(self).meter.level_spec() == old(self).meter.level_spec()
            },
    {
        match self.state {
            FishWarState::Menu => self.apply(offset.0),
            FishWarState::Game => self.pop_frame(pops),
            FishWarState::GameOver => None,
        }
    }
}

/// Once a move has emptied the meter, no further move can report emptying it
/// again until it has risen above zero: each crossing of zero is seen once.
pub proof fn lemma_one_transition_per_crossing(level: int, first: int, second: int)
    requires
        0 <= level <= ONE as int,
        crosses(level, first),
    ensures
        clamp_level(level, first) == 0,
        !crosses(clamp_level(level, first), second),
{
}

/// Whatever the move, the meter stays within `[0, ONE]`.
pub proof fn lemma_level_clamped(level: int, delta: int)
    ensures
        0 <= clamp_level(level, delta) <= ONE as int,
{
}

/// The pops of a frame leave the meter at its old level less the sum of the
/// draws, stopping at zero, whether or not they change the screen; a frame
/// that does not change it keeps the screen.
pub proof fn lemma_drain_level(state: FishWarState, level: int, draws: Seq<u64>)
    requires
        0 <= level <= ONE as int,
    ensures
        drain_spec(state, level, draws).1 == floor_sub(level, total(draws)),
        drain_spec(state, level, draws).2 is None ==> drain_spec(state, level, draws).0 == state,
    decreases draws.len(),
{
    if draws.len() > 0 {
        lemma_total_nonneg(draws.drop_first());
        let next = after_pop(level, draws[0] as int);
        lemma_drain_level(state, next, draws.drop_first());
    }
}

proof fn lemma_total_nonneg(draws: Seq<u64>)
    ensures
        total(draws) >= 0,
    decreases draws.len(),
{
    if draws.len() > 0 {
        lemma_total_nonneg(draws.drop_first());
    }
}

/// A frame whose pops change the screen had at least one pop, started above
/// zero, drew at least the level it started from, and leaves the meter empty.
pub proof fn lemma_drain_moves(state: FishWarState, level: int, draws: Seq<u64>)
    requires
        0 <= level <= ONE as int,
        drain_spec(state, level, draws).2 is Some,
    ensures
        draws.len() > 0,
        0 < level <= total(draws),
        drain_spec(state, level, draws) == (depleted_target(state)->0, 0int, depleted_target(state)),
    decreases draws.len(),
{
    lemma_total_nonneg(draws);
    if draws.len() > 0 {
        lemma_total_nonneg(draws.drop_first());
        if !(crosses(level, -(draws[0] as int)) && depleted_target(state) is Some) {
            lemma_drain_moves(state, after_pop(level, draws[0] as int), draws.drop_first());
        }
    }
}
/// Draws that each lie in `[POP_DRAW_LOW, POP_DRAW_HIGH)` sum to between
/// `POP_DRAW_LOW` and `POP_DRAW_HIGH` times their number, the upper bound
/// excluded when there is at least one.
pub proof fn lemma_total_bounds(draws: Seq<u64>)
    requires
        draws_ok(draws),
    ensures
        total(draws) >= draws.len() * POP_DRAW_LOW,
        total(draws) <= draws.len() * POP_DRAW_HIGH,
        draws.len() > 0 ==> total(draws) < draws.len() * POP_DRAW_HIGH,
    decreases draws.len(),
{
    if draws.len() > 0 {
        let rest = draws.drop_first();
        assert forall|i: int| 0 <= i < rest.len() implies POP_DRAW_LOW <= #[trigger] rest[i]
            < POP_DRAW_HIGH by {
            assert(rest[i] == draws[i + 1]);
        }
        assert(POP_DRAW_LOW <= draws[0] < POP_DRAW_HIGH);
        lemma_total_bounds(rest);
        assert(draws.len() * POP_DRAW_LOW == rest.len() * POP_DRAW_LOW + POP_DRAW_LOW) by (
        nonlinear_arith)
            requires draws.len() == rest.len() + 1;
        assert(draws.len() * POP_DRAW_HIGH == rest.len() * POP_DRAW_HIGH + POP_DRAW_HIGH) by (
        nonlinear_arith)
            requires draws.len() == rest.len() + 1;
    }
}

} // verus!
