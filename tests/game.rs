use fishwar::fixed::{lerp, ONE};
use fishwar::game_state::{FishWarState, Key, KeyAction, StateError};
use fishwar::inject::{
    collision_target, decide, grow_radius, is_shape_enough, spawn_all_wall, spawn_inject,
    sync_with_window_size, CollisionOutcome, InjectBody, InjectRun, LayerGroups, WallSpec,
    DEFAULT_WALL_WIDTH, ENOUGH_RADIUS, GROWTH_HIGH, GROWTH_LOW, INIT_CURRENT, INIT_MAX,
    INIT_RADIUS,
};
use fishwar::meter::{Meter, Offset, Stage, HOVERED_OFFSET, NORMAL_OFFSET, PRESSED_OFFSET};
use fishwar::tween::Interaction;

fn body(radius: u64, tween_progress: Option<u64>) -> InjectBody {
    InjectBody { radius, tween_progress }
}

#[test]
fn last_pop_then_new_batch() {
    let mut run = InjectRun::default();
    run.current = 1;
    let before_max = run.max;
    let outcome = run.resolve(&body(ENOUGH_RADIUS, None), 2_000_000);
    assert_eq!(outcome, CollisionOutcome::Pop);
    assert_eq!(run.current, 0);
    let spawned = run.gen_new_inject();
    assert_eq!(spawned, before_max);
    assert_eq!(run.max, before_max + 1);
    assert_eq!(run.current, before_max + 1);
}

#[test]
fn pop_draw_small_leaves_meter_running() {
    let mut stage = Stage::enter(FishWarState::Game);
    stage.meter = Meter::new(15_000);
    let moved = stage.apply(-10_000);
    assert_eq!(moved, None);
    assert_eq!(stage.meter.level(), 5_000);
    assert_eq!(stage.state, FishWarState::Game);
}

#[test]
fn pop_draw_large_ends_game() {
    let mut stage = Stage::enter(FishWarState::Game);
    stage.meter = Meter::new(15_000);
    let moved = stage.apply(-20_000);
    assert_eq!(moved, Some(FishWarState::GameOver));
    assert_eq!(stage.state, FishWarState::GameOver);
    assert_eq!(stage.meter.level(), 0);
}

#[test]
fn meter_pop_clamps_at_zero() {
    let mut m = Meter::new(15_000);
    assert!(!m.pop(10_000));
    assert_eq!(m.level(), 5_000);
    assert!(m.pop(20_000));
    assert_eq!(m.level(), 0);
    assert!(m.is_empty());
    // a second draining move does not report the crossing again
    assert!(!m.pop(20_000));
    assert!(!m.adjust(-1));
}

#[test]
fn meter_clamps_at_one() {
    let mut m = Meter::new(ONE - 1_000);
    assert!(!m.adjust(5_000));
    assert_eq!(m.level(), ONE);
    let mut full = Meter::full();
    assert!(!full.tick(&Offset::default()));
    assert_eq!(full.level(), ONE);
}

#[test]
fn meter_pop_random_draw_in_range() {
    for _ in 0..50 {
        let mut m = Meter::full();
        m.pop_random();
        let taken = ONE - m.level();
        assert!(taken >= 10_000 && taken < 20_000, "taken {}", taken);
    }
}

#[test]
fn menu_tick_crosses_into_game_once() {
    let mut stage = Stage::enter(FishWarState::Menu);
    stage.meter = Meter::new(40_000);
    assert_eq!(stage.apply(PRESSED_OFFSET), Some(FishWarState::Game));
    assert_eq!(stage.meter.level(), 0);
    let mut over = Stage::enter(FishWarState::GameOver);
    over.meter = Meter::new(1);
    assert_eq!(over.apply(-5), None);
    assert_eq!(over.state, FishWarState::GameOver);
    assert_eq!(over.meter.level(), 0);
}

#[test]
fn offset_follows_button() {
    let mut o = Offset::default();
    assert_eq!(o.0, NORMAL_OFFSET);
    o.off();
    assert_eq!(o.0, NORMAL_OFFSET);
    o.hoverd_on();
    assert_eq!(o.0, HOVERED_OFFSET);
    o.on();
    assert_eq!(o.0, HOVERED_OFFSET);
    o.off();
    assert_eq!(o.0, NORMAL_OFFSET);
    o.on();
    assert_eq!(o.0, PRESSED_OFFSET);
    assert_eq!(PRESSED_OFFSET, -50_000);
    assert_eq!(HOVERED_OFFSET, -15_000);
}

#[test]
fn transitions_follow_the_state_machine() {
    assert_eq!(FishWarState::Menu.transition(FishWarState::Game), Ok(FishWarState::Game));
    assert_eq!(FishWarState::Game.transition(FishWarState::GameOver), Ok(FishWarState::GameOver));
    assert_eq!(FishWarState::GameOver.transition(FishWarState::Menu), Ok(FishWarState::Menu));
    assert_eq!(FishWarState::GameOver.transition(FishWarState::Game), Ok(FishWarState::Game));
    assert_eq!(FishWarState::Game.transition(FishWarState::Game), Err(StateError::AlreadyInState));
    assert_eq!(FishWarState::Menu.transition(FishWarState::GameOver), Err(StateError::NotAllowed));
    assert_eq!(FishWarState::Game.transition(FishWarState::Menu), Err(StateError::NotAllowed));
    assert_eq!(FishWarState::Menu.on_depleted(), Some(FishWarState::Game));
    assert_eq!(FishWarState::Game.on_depleted(), Some(FishWarState::GameOver));
    assert_eq!(FishWarState::GameOver.on_depleted(), None);
}

#[test]
fn keys_on_each_screen() {
    assert_eq!(FishWarState::GameOver.key_action(Key::Q), KeyAction::Quit);
    assert_eq!(FishWarState::GameOver.key_action(Key::Escape), KeyAction::Quit);
    assert_eq!(FishWarState::GameOver.key_action(Key::M), KeyAction::Enter(FishWarState::Menu));
    assert_eq!(FishWarState::GameOver.key_action(Key::G), KeyAction::Enter(FishWarState::Game));
    assert_eq!(FishWarState::Game.key_action(Key::Space), KeyAction::UnfairAdvantage);
    assert_eq!(FishWarState::Game.key_action(Key::M), KeyAction::Nothing);
    assert_eq!(FishWarState::Menu.key_action(Key::Other), KeyAction::Nothing);
}

#[test]
fn run_defaults() {
    let run = InjectRun::default();
    assert_eq!(run.current, INIT_CURRENT);
    assert_eq!(run.max, INIT_MAX);
    assert_eq!(run.current, 3);
    assert_eq!(run.max, 4);
    assert_eq!(run.init_radius, INIT_RADIUS);
    assert_eq!(run.enough, ENOUGH_RADIUS);
}

#[test]
fn countdown_saturates_at_zero() {
    let mut run = InjectRun::default();
    run.current = 0;
    assert_eq!(run.resolve(&body(ENOUGH_RADIUS + 1, None), GROWTH_LOW as u32), CollisionOutcome::Pop);
    assert_eq!(run.current, 0);
}

#[test]
fn batch_waits_for_countdown() {
    let mut run = InjectRun::default();
    assert_eq!(run.gen_new_inject(), 0);
    assert_eq!(run.current, 3);
    assert_eq!(run.max, 4);
}

#[test]
fn batch_cap_saturates() {
    let mut run = InjectRun::default();
    run.current = 0;
    run.max = u8::MAX;
    assert_eq!(run.gen_new_inject(), u8::MAX);
    assert_eq!(run.max, u8::MAX);
    assert_eq!(run.current, u8::MAX);
}

#[test]
fn below_threshold_grows_or_waits() {
    let enough = ENOUGH_RADIUS;
    assert_eq!(decide(&body(20_000_000, Some(400_000)), enough, 2_000_000), CollisionOutcome::Busy);
    assert_eq!(
        decide(&body(20_000_000, Some(ONE)), enough, 2_000_000),
        CollisionOutcome::Grow { factor: 2_000_000, end_radius: 40_000_000 }
    );
    assert_eq!(
        decide(&body(20_000_000, None), enough, 1_500_000),
        CollisionOutcome::Grow { factor: 1_500_000, end_radius: 30_000_000 }
    );
    assert!(is_shape_enough(50_000_000, enough));
    assert!(!is_shape_enough(49_999_999, enough));
    assert_eq!(grow_radius(u64::MAX, 3_000_000), u64::MAX);
}

#[test]
fn handle_inject_draws_growth_in_range() {
    let mut run = InjectRun::default();
    for _ in 0..50 {
        match run.touch(&body(INIT_RADIUS, None)) {
            CollisionOutcome::Grow { factor, end_radius } => {
                assert!(factor as i64 >= GROWTH_LOW && (factor as i64) < GROWTH_HIGH);
                assert_eq!(end_radius, INIT_RADIUS * factor as u64 / ONE);
                assert!(end_radius >= 30_000_000 && end_radius < 72_000_000);
            }
            other => panic!("unexpected {:?}", other),
        }
    }
    assert_eq!(run.current, 3);
}

#[test]
fn unfair_advantage_pops_big_and_grows_small() {
    let mut run = InjectRun::default();
    let bodies = vec![
        body(ENOUGH_RADIUS, None),
        body(INIT_RADIUS, Some(100)),
        body(INIT_RADIUS, None),
        body(ENOUGH_RADIUS * 2, Some(5)),
        body(ENOUGH_RADIUS, None),
        body(ENOUGH_RADIUS, None),
    ];
    let out = run.space_to_unfair(&bodies);
    assert_eq!(out.len(), 6);
    assert_eq!(out[0], CollisionOutcome::Pop);
    assert_eq!(out[1], CollisionOutcome::Busy);
    assert!(matches!(out[2], CollisionOutcome::Grow { .. }));
    assert_eq!(out[3], CollisionOutcome::Pop);
    assert_eq!(run.current, 0);
}

#[test]
fn collision_picks_the_inject() {
    let mouse = LayerGroups { mouse: true, wall: false, inject: false };
    let inject = LayerGroups { mouse: false, wall: false, inject: true };
    let wall = LayerGroups { mouse: false, wall: true, inject: false };
    assert_eq!(collision_target(1, mouse, 2, inject), Some(2));
    assert_eq!(collision_target(1, inject, 2, mouse), Some(1));
    assert_eq!(collision_target(1, wall, 2, inject), None);
    assert_eq!(collision_target(1, inject, 2, inject), None);
}

#[test]
fn spawned_injects_stay_inside() {
    let spawns = spawn_inject(4, INIT_RADIUS, 300_000_000, 200_000_000);
    assert_eq!(spawns.len(), 4);
    for s in &spawns {
        assert!(s.x >= -300_000_000 && s.x < 300_000_000);
        assert!(s.y >= -200_000_000 && s.y < 200_000_000);
        assert_eq!(s.radius, INIT_RADIUS);
        for v in [s.velocity_x, s.velocity_y, s.velocity_z] {
            assert!(v.abs() >= 50_000_000 && v.abs() < 80_000_000);
        }
        assert!(s.angular.abs() >= 300_000 && s.angular.abs() < 1_200_000);
    }
    assert!(spawn_inject(0, INIT_RADIUS, 1, 1).is_empty());
}

#[test]
fn walls_frame_the_window() {
    let walls = spawn_all_wall(800_000_000, 600_000_000);
    assert_eq!(
        walls,
        vec![
            WallSpec { width: DEFAULT_WALL_WIDTH, height: 600_000_000, x: 400_000_000, y: 0 },
            WallSpec { width: DEFAULT_WALL_WIDTH, height: 600_000_000, x: -400_000_000, y: 0 },
            WallSpec { width: 800_000_000, height: DEFAULT_WALL_WIDTH, x: 0, y: 300_000_000 },
            WallSpec { width: 800_000_000, height: DEFAULT_WALL_WIDTH, x: 0, y: -300_000_000 },
        ]
    );
}

#[test]
fn resize_pulls_injects_back() {
    // window 800 x 600, sprite 40 wide: x within 360, y within 260
    let w = 800_000_000;
    let h = 600_000_000;
    let size = 40_000_000;
    assert_eq!(sync_with_window_size(500_000_000, 0, size, w, h), (360_000_000, 0));
    assert_eq!(sync_with_window_size(-500_000_000, 270_000_000, size, w, h), (-360_000_000, 260_000_000));
    assert_eq!(sync_with_window_size(10, -300_000_000, size, w, h), (10, -260_000_000));
}

#[test]
fn lerp_exact_values() {
    assert_eq!(lerp(0, ONE, 250_000), 250_000);
    assert_eq!(lerp(ONE, 0, 250_000), 750_000);
    assert_eq!(lerp(20_000_000, 40_000_000, ONE), 40_000_000);
    assert_eq!(lerp(7, 9, 0), 7);
}

#[test]
fn game_frame_pops_drain_and_end_game() {
    let mut stage = Stage::enter(FishWarState::Game);
    assert_eq!(stage.sync_with_time(&Offset::default(), 0), None);
    assert_eq!(stage.meter.level(), ONE);
    assert_eq!(stage.sync_with_time(&Offset::default(), 1), None);
    let after_one = stage.meter.level();
    assert!(after_one <= ONE - 10_000 && after_one > ONE - 20_000);

    let mut low = Stage::enter(FishWarState::Game);
    low.meter = Meter::new(15_000);
    assert_eq!(low.sync_with_time(&Offset::default(), 2), Some(FishWarState::GameOver));
    assert_eq!(low.state, FishWarState::GameOver);
    assert_eq!(low.meter.level(), 0);
    // the game-over screen does not move on its own
    assert_eq!(low.sync_with_time(&Offset(PRESSED_OFFSET), 3), None);
    assert_eq!(low.meter.level(), 0);
}

#[test]
fn menu_frame_ticks() {
    let mut stage = Stage::enter(FishWarState::Menu);
    stage.meter = Meter::new(500_000);
    let mut offset = Offset::default();
    assert_eq!(stage.sync_with_time(&offset, 7), None);
    assert_eq!(stage.meter.level(), 505_000);
    offset.on();
    for _ in 0..10 {
        assert_eq!(stage.sync_with_time(&offset, 7), None);
    }
    assert_eq!(stage.meter.level(), 5_000);
    assert_eq!(stage.sync_with_time(&offset, 7), Some(FishWarState::Game));
    assert_eq!(stage.state, FishWarState::Game);
}

#[test]
fn game_pop_small_draw_keeps_playing() {
    let mut stage = Stage::enter(FishWarState::Game);
    stage.meter = Meter::new(15_000);
    assert_eq!(stage.drain(&vec![10_000]), None);
    assert_eq!(stage.meter.level(), 5_000);
    assert_eq!(stage.state, FishWarState::Game);
}

#[test]
fn game_pop_large_draw_ends_game() {
    let mut stage = Stage::enter(FishWarState::Game);
    stage.meter = Meter::new(15_000);
    assert_eq!(stage.drain(&vec![20_000]), Some(FishWarState::GameOver));
    assert_eq!(stage.state, FishWarState::GameOver);
    assert_eq!(stage.meter.level(), 0);
}

#[test]
fn game_pops_sum_their_draws() {
    let mut stage = Stage::enter(FishWarState::Game);
    stage.meter = Meter::new(100_000);
    assert_eq!(stage.drain(&vec![10_000, 15_000, 19_999]), None);
    assert_eq!(stage.meter.level(), 55_001);
    assert_eq!(stage.drain(&vec![]), None);
    assert_eq!(stage.meter.level(), 55_001);
    // the draw that empties the meter ends the game; later draws are dropped
    assert_eq!(stage.drain(&vec![50_000, 10_000, 10_000]), Some(FishWarState::GameOver));
    assert_eq!(stage.meter.level(), 0);
}

#[test]
fn game_over_meter_drains_without_moving() {
    let mut stage = Stage::enter(FishWarState::GameOver);
    stage.meter = Meter::new(15_000);
    assert_eq!(stage.drain(&vec![20_000, 10_000]), None);
    assert_eq!(stage.meter.level(), 0);
    assert_eq!(stage.state, FishWarState::GameOver);
}

#[test]
fn frame_collisions_count_down_to_zero() {
    let mut run = InjectRun::default();
    run.current = 2;
    let bodies = vec![
        body(ENOUGH_RADIUS, None),
        body(ENOUGH_RADIUS, None),
        body(ENOUGH_RADIUS + 5, None),
        body(INIT_RADIUS, Some(10)),
    ];
    let out = run.handle_inject(&bodies);
    assert_eq!(
        out,
        vec![CollisionOutcome::Pop, CollisionOutcome::Pop, CollisionOutcome::Pop, CollisionOutcome::Busy]
    );
    assert_eq!(run.current, 0);
}

#[test]
fn offset_reacts_to_button() {
    let mut o = Offset::default();
    o.react(Interaction::Hovered);
    assert_eq!(o.0, HOVERED_OFFSET);
    o.react(Interaction::Clicked);
    assert_eq!(o.0, HOVERED_OFFSET);
    o.react(Interaction::Idle);
    assert_eq!(o.0, NORMAL_OFFSET);
    o.react(Interaction::Clicked);
    assert_eq!(o.0, PRESSED_OFFSET);
    o.react(Interaction::Idle);
    assert_eq!(o.0, NORMAL_OFFSET);
}

#[test]
fn spawn_nothing_needs_no_room() {
    assert!(spawn_inject(0, INIT_RADIUS, 0, -5).is_empty());
}
