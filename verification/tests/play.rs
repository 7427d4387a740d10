use lawn_defense::combat::Team;
use lawn_defense::defense::{mower_moves, mower_step, MowerState};
use lawn_defense::hud::{card_label_look, card_panel_look, card_status, CardLook, CardStatus};
use lawn_defense::pause::{game_not_paused, GamePause};
use lawn_defense::physics::{
    physics_projectile_groups, plant_groups, torchwood_groups, world_groups, zombie_groups,
    CollisionGroups, SimulationRate,
};
use lawn_defense::plant::ShooterState;
use lawn_defense::projectile::{
    collision_as_hit, HitOutcome, HitPolicy, HitRegistry, HitResolver, ProjectileHit,
};
use lawn_defense::catalog::{MILLISECOND, SECOND};
use lawn_defense::flow::{next_state, FlowEvent, GameState};
use lawn_defense::timer::{OnceTimer, RepeatingTimer};
use lawn_defense::zombie::{
    attack_frame, render_detail_with_hysteresis, state_for_blocker, Chilled, ZombieModelDetail,
    ZombieRenderSequence, ZombieState, CHILL_DURATION, HORDE_FULL_DETAIL_RESTORE_THRESHOLD,
    HORDE_SIMPLIFICATION_THRESHOLD, ZOMBIE_RENDER_Z_SLOTS,
};

#[test]
fn zombie_render_detail_uses_hysteresis() {
    assert_eq!(
        render_detail_with_hysteresis(10, ZombieModelDetail::Full, 10, 8),
        ZombieModelDetail::Simplified
    );
    assert_eq!(
        render_detail_with_hysteresis(9, ZombieModelDetail::Simplified, 10, 8),
        ZombieModelDetail::Simplified
    );
    assert_eq!(
        render_detail_with_hysteresis(8, ZombieModelDetail::Simplified, 10, 8),
        ZombieModelDetail::Full
    );
}

#[test]
fn horde_between_thresholds_keeps_its_detail() {
    let between = 3_600;
    for detail in [ZombieModelDetail::Full, ZombieModelDetail::Simplified] {
        assert_eq!(
            render_detail_with_hysteresis(
                between,
                detail,
                HORDE_SIMPLIFICATION_THRESHOLD,
                HORDE_FULL_DETAIL_RESTORE_THRESHOLD
            ),
            detail
        );
    }
    assert_eq!(
        render_detail_with_hysteresis(
            9,
            ZombieModelDetail::Full,
            HORDE_SIMPLIFICATION_THRESHOLD,
            HORDE_FULL_DETAIL_RESTORE_THRESHOLD
        ),
        ZombieModelDetail::Full
    );
}

#[test]
fn render_slots_wrap_at_the_slot_count() {
    let mut sequence = ZombieRenderSequence { next: ZOMBIE_RENDER_Z_SLOTS - 1 };
    assert_eq!(sequence.next_slot(), ZOMBIE_RENDER_Z_SLOTS - 1);
    assert_eq!(sequence.next_slot(), 0);
    assert_eq!(sequence.next, ZOMBIE_RENDER_Z_SLOTS + 1);
    let mut sequence = ZombieRenderSequence { next: u32::MAX };
    assert_eq!(sequence.next_slot(), u32::MAX % ZOMBIE_RENDER_Z_SLOTS);
    assert_eq!(sequence.next, 0);
}

#[test]
fn zombies_bite_only_while_blocked_by_a_plant() {
    assert_eq!(state_for_blocker(None), ZombieState::Walking);
    let eating = state_for_blocker(Some(12));
    assert_eq!(eating, ZombieState::Eating { target: 12 });
    let mut timer = RepeatingTimer::new(SECOND);
    assert_eq!(attack_frame(eating, true, &mut timer, 600 * MILLISECOND), None);
    assert_eq!(timer.elapsed, 600 * MILLISECOND);
    assert_eq!(attack_frame(eating, false, &mut timer, 600 * MILLISECOND), None);
    assert_eq!(timer.elapsed, 0);
    assert_eq!(attack_frame(eating, true, &mut timer, 600 * MILLISECOND), None);
    assert_eq!(timer.elapsed, 600 * MILLISECOND);
    assert_eq!(attack_frame(eating, true, &mut timer, 600 * MILLISECOND), Some(12));
    assert_eq!(timer.elapsed, 200 * MILLISECOND);
    assert_eq!(attack_frame(ZombieState::Walking, true, &mut timer, SECOND), None);
    assert_eq!(timer.elapsed, 0);
}

#[test]
fn chill_wears_off_after_ten_seconds() {
    let mut chill = Chilled::new();
    assert_eq!(chill.timer.duration, CHILL_DURATION);
    assert!(!chill.tick(9 * SECOND));
    assert!(chill.tick(SECOND));
    assert_eq!(chill.timer.elapsed, CHILL_DURATION);
}

#[test]
fn repeating_timers_wrap_and_count_laps() {
    let mut timer = RepeatingTimer::new(1_350 * MILLISECOND);
    assert!(!timer.tick(SECOND));
    assert!(timer.tick(SECOND));
    assert_eq!(timer.elapsed, 650 * MILLISECOND);
    assert!(timer.tick(5 * SECOND));
    assert_eq!(timer.elapsed, (650 + 5_000) * MILLISECOND % (1_350 * MILLISECOND));
    timer.reset();
    assert_eq!(timer.elapsed, 0);
    let mut instant = RepeatingTimer::new(0);
    assert!(instant.tick(0));
    assert_eq!(instant.elapsed, 0);
}

#[test]
fn one_shot_timers_stop_at_their_duration() {
    let mut timer = OnceTimer::new(2 * SECOND);
    assert!(!timer.tick(SECOND));
    assert_eq!(timer.elapsed, SECOND);
    assert!(timer.tick(3 * SECOND));
    assert_eq!(timer.elapsed, 2 * SECOND);
    assert!(timer.tick(SECOND));
    assert_eq!(timer.elapsed, 2 * SECOND);
}

#[test]
fn game_flow_moves_between_play_and_outcomes() {
    let state = GameState::initial();
    assert_eq!(state, GameState::Loading);
    assert_eq!(next_state(state, FlowEvent::RestartPressed), None);
    assert_eq!(next_state(state, FlowEvent::LoadingEntered), Some(GameState::Playing));
    let step = |past: bool, spawned: bool, living: usize| FlowEvent::StepEnded {
        zombie_past_house: past,
        all_waves_spawned: spawned,
        living_zombies: living,
    };
    assert_eq!(next_state(GameState::Playing, step(false, false, 0)), None);
    assert_eq!(next_state(GameState::Playing, step(false, true, 2)), None);
    assert_eq!(next_state(GameState::Playing, step(false, true, 0)), Some(GameState::Victory));
    assert_eq!(next_state(GameState::Playing, step(true, false, 3)), Some(GameState::Defeat));
    assert_eq!(next_state(GameState::Victory, step(true, true, 0)), None);
    assert_eq!(next_state(GameState::Defeat, FlowEvent::RestartPressed), Some(GameState::Loading));
    assert_eq!(next_state(GameState::Playing, FlowEvent::RestartPressed), Some(GameState::Loading));
}

#[test]
fn space_pauses_virtual_time_and_shows_overlay() {
    let mut pause = GamePause::new();
    assert!(game_not_paused(&pause));
    let paused = pause.toggle();
    assert!(paused);
    assert!(pause.paused);
    assert!(!game_not_paused(&pause));
    assert!(!pause.toggle());
    pause.toggle();
    pause.reset();
    assert!(!pause.paused);
}

#[test]
fn mower_sets_off_once_and_stays_active() {
    let state = mower_step(MowerState::Ready, false);
    assert_eq!(state, MowerState::Ready);
    assert!(!mower_moves(state));
    let state = mower_step(state, true);
    assert_eq!(state, MowerState::Active);
    assert!(mower_moves(state));
    assert_eq!(mower_step(state, false), MowerState::Active);
}

#[test]
fn repeater_fires_its_burst_on_the_burst_timer() {
    let mut shooter = ShooterState::new(1_400 * MILLISECOND, 2, 150 * MILLISECOND);
    assert!(!shooter.bursting());
    assert!(!shooter.frame(1_000 * MILLISECOND, true));
    assert!(!shooter.frame(500 * MILLISECOND, false));
    assert_eq!(shooter.cycle.elapsed, 100 * MILLISECOND);
    assert!(!shooter.frame(1_000 * MILLISECOND, true));
    assert!(shooter.frame(300 * MILLISECOND, true));
    assert!(shooter.bursting());
    assert_eq!(shooter.burst.elapsed, 0);
    assert!(!shooter.frame(100 * MILLISECOND, true));
    assert!(shooter.frame(100 * MILLISECOND, true));
    assert!(!shooter.bursting());
    assert_eq!(shooter.cycle.elapsed, 200 * MILLISECOND);

    let mut single = ShooterState::new(SECOND, 1, 150 * MILLISECOND);
    assert!(single.frame(SECOND, true));
    assert!(!single.bursting());
}

#[test]
fn card_status_and_looks_follow_cooldown_and_sun() {
    assert_eq!(card_status(5, 500, 100), CardStatus::Cooling);
    assert_eq!(card_status(0, 50, 100), CardStatus::NoSun);
    assert_eq!(card_status(0, 100, 100), CardStatus::Plantable);
    assert_eq!(card_label_look(true, 5, 0, 100), CardLook::Selected);
    assert_eq!(card_label_look(false, 5, 500, 100), CardLook::Disabled);
    assert_eq!(card_label_look(false, 0, 99, 100), CardLook::Disabled);
    assert_eq!(card_label_look(false, 0, 100, 100), CardLook::Normal);
    assert_eq!(card_panel_look(false, false, 500, 100), CardLook::Disabled);
    assert_eq!(card_panel_look(false, true, 500, 100), CardLook::Normal);
    assert_eq!(card_panel_look(true, false, 0, 100), CardLook::Selected);
}

fn interacts(a: CollisionGroups, b: CollisionGroups) -> bool {
    (a.memberships & b.filters) != 0 && (b.memberships & a.filters) != 0
}

#[test]
fn collision_groups_follow_the_matrix() {
    let plant = plant_groups();
    let zombie = zombie_groups();
    let pea = physics_projectile_groups();
    let torchwood = torchwood_groups();
    let world = world_groups();
    assert!(interacts(pea, zombie));
    assert!(interacts(pea, pea));
    assert!(interacts(pea, world));
    assert!(interacts(pea, torchwood));
    assert!(!interacts(plant, zombie));
    assert!(!interacts(plant, pea));
    assert!(!interacts(zombie, zombie));
    assert!(!interacts(world, torchwood));
}

#[test]
fn simulation_rate_has_hysteresis() {
    let mut rate = SimulationRate::default();
    assert!(!rate.adapt(2_000, false, false));
    assert!(rate.adapt(2_500, false, false));
    assert!(rate.is_reduced());
    assert!(!rate.adapt(2_000, true, false));
    assert!(rate.is_reduced());
    assert!(!rate.adapt(1_800, false, false));
    assert!(rate.adapt(1_800, true, false));
    assert!(!rate.is_reduced());
    assert!(rate.adapt(10, false, true));
}

#[test]
fn each_target_is_damaged_once_per_projectile() {
    let mut resolver = HitResolver::new();
    let mut policy = HitPolicy { destroy_on_hit: false, remaining_pierces: 2 };
    let mut registry = HitRegistry::new();
    assert_eq!(
        resolver.resolve(1, 10, Team::Plants, &mut policy, &mut registry),
        HitOutcome::Damage { despawn: false }
    );
    assert_eq!(policy.remaining_pierces, 1);
    assert!(registry.contains(10));
    assert_eq!(
        resolver.resolve(1, 10, Team::Plants, &mut policy, &mut registry),
        HitOutcome::Ignored
    );
    assert_eq!(policy.remaining_pierces, 1);
    assert_eq!(
        resolver.resolve(1, 11, Team::Plants, &mut policy, &mut registry),
        HitOutcome::Damage { despawn: false }
    );
    assert_eq!(
        resolver.resolve(1, 12, Team::Plants, &mut policy, &mut registry),
        HitOutcome::Damage { despawn: true }
    );
    assert_eq!(
        resolver.resolve(1, 13, Team::Plants, &mut policy, &mut registry),
        HitOutcome::Ignored
    );
    assert!(!registry.contains(13));
    resolver.clear();
    assert_eq!(
        resolver.resolve(1, 13, Team::Plants, &mut policy, &mut registry),
        HitOutcome::Damage { despawn: true }
    );
}

#[test]
fn spent_and_zombie_projectiles_deal_no_damage() {
    let mut resolver = HitResolver::new();
    let mut policy = HitPolicy { destroy_on_hit: true, remaining_pierces: 0 };
    let mut registry = HitRegistry::new();
    assert_eq!(
        resolver.resolve(7, 20, Team::Zombies, &mut policy, &mut registry),
        HitOutcome::Ignored
    );
    assert!(registry.contains(20));
    let mut endless = HitPolicy { destroy_on_hit: false, remaining_pierces: u8::MAX };
    let mut other = HitRegistry::new();
    assert!(other.insert(4));
    assert!(!other.insert(4));
    assert_eq!(
        resolver.resolve(8, 21, Team::Plants, &mut endless, &mut other),
        HitOutcome::Damage { despawn: false }
    );
    assert_eq!(endless.remaining_pierces, u8::MAX);
}

#[test]
fn collisions_read_as_projectile_hits_either_way_round() {
    assert_eq!(
        collision_as_hit(1, 2, true, false, false, true),
        Some(ProjectileHit { projectile: 1, target: 2 })
    );
    assert_eq!(
        collision_as_hit(1, 2, false, true, true, false),
        Some(ProjectileHit { projectile: 2, target: 1 })
    );
    assert_eq!(collision_as_hit(1, 2, true, false, true, false), None);
    assert_eq!(collision_as_hit(1, 2, false, true, false, true), None);
}

#[test]
fn a_long_step_wraps_the_lap_and_still_counts_as_finished() {
    let mut timer = RepeatingTimer::new(SECOND);
    timer.elapsed = 900 * MILLISECOND;
    assert!(timer.tick(7_300 * MILLISECOND));
    assert_eq!(timer.elapsed, 200 * MILLISECOND);
    assert!(timer.elapsed < timer.duration);
    assert!(!timer.tick(700 * MILLISECOND));
    assert_eq!(timer.elapsed, 900 * MILLISECOND);
}
