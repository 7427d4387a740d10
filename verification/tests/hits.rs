use lawn_defense::combat::Team;
use lawn_defense::kinds::{ProjectileKind, ZombieKind};
use lawn_defense::projectile::{
    direct_hit_chill, fire_splash_affects, fire_splash_triggers, ice_pea_chills, ignited_kind, ChillEffect,
    HitOutcome, HitPolicy, HitRegistry, HitResolver,
};
use lawn_defense::zombie::Chilled;

/// A hit of `kind` on a zombie, as the game resolves it: damage first, then
/// the chill effect on a damaging hit.
fn hit_zombie(
    kind: ProjectileKind,
    target: ZombieKind,
    barrier_intact: Option<bool>,
    chill: Option<Chilled>,
) -> (HitOutcome, Option<Chilled>) {
    let mut resolver = HitResolver::new();
    let mut policy = HitPolicy { destroy_on_hit: true, remaining_pierces: 0 };
    let mut registry = HitRegistry::new();
    let outcome = resolver.resolve(1, 2, Team::Plants, &mut policy, &mut registry);
    let chill = match outcome {
        HitOutcome::Damage { .. } => match direct_hit_chill(kind, target, barrier_intact) {
            ChillEffect::Chill => Some(Chilled::new()),
            ChillEffect::Thaw => None,
            ChillEffect::Unchanged => chill,
        },
        HitOutcome::Ignored => chill,
    };
    (outcome, chill)
}

#[test]
fn ice_pea_chills_direct_target_unless_barrier_blocks_it() {
    let (outcome, chill) = hit_zombie(ProjectileKind::IcePea, ZombieKind::Basic, None, None);
    assert_eq!(outcome, HitOutcome::Damage { despawn: true });
    assert!(chill.is_some());
    assert!(ice_pea_chills(ZombieKind::Basic, None));
    assert!(!ice_pea_chills(ZombieKind::ScreenDoor, None));

    let intact_barrier = Some(true);
    let broken_barrier = Some(false);
    assert!(!ice_pea_chills(ZombieKind::ScreenDoor, intact_barrier));
    assert!(ice_pea_chills(ZombieKind::ScreenDoor, broken_barrier));
}

#[test]
fn fire_pea_direct_hit_clears_chill() {
    let (outcome, chill) = hit_zombie(ProjectileKind::FirePea, ZombieKind::Basic, None, Some(Chilled::new()));
    assert_eq!(outcome, HitOutcome::Damage { despawn: true });
    assert!(chill.is_none());
}

#[test]
fn chill_effects_by_pea_and_barrier() {
    assert_eq!(direct_hit_chill(ProjectileKind::IcePea, ZombieKind::Conehead, Some(true)), ChillEffect::Chill);
    assert_eq!(direct_hit_chill(ProjectileKind::IcePea, ZombieKind::Ladder, Some(true)), ChillEffect::Unchanged);
    assert_eq!(direct_hit_chill(ProjectileKind::IcePea, ZombieKind::Ladder, Some(false)), ChillEffect::Chill);
    assert_eq!(direct_hit_chill(ProjectileKind::FirePea, ZombieKind::ScreenDoor, Some(true)), ChillEffect::Thaw);
    assert_eq!(direct_hit_chill(ProjectileKind::Pea, ZombieKind::Basic, None), ChillEffect::Unchanged);
    assert_eq!(direct_hit_chill(ProjectileKind::PhysicsPea, ZombieKind::Basic, None), ChillEffect::Unchanged);
}

#[test]
fn an_unchilled_zombie_stays_unchilled_after_a_plain_pea() {
    let (_, chill) = hit_zombie(ProjectileKind::Pea, ZombieKind::Basic, None, None);
    assert!(chill.is_none());
    let (_, chill) = hit_zombie(ProjectileKind::Pea, ZombieKind::Basic, None, Some(Chilled::new()));
    assert!(chill.is_some());
}

#[test]
fn fire_splash_spares_front_barriers() {
    assert!(!fire_splash_triggers(ZombieKind::ScreenDoor));
    assert!(fire_splash_triggers(ZombieKind::Basic));
    assert!(!fire_splash_affects(ZombieKind::Ladder));
    assert!(fire_splash_affects(ZombieKind::Newspaper));
    assert!(fire_splash_affects(ZombieKind::Zomboni));
    assert!(fire_splash_affects(ZombieKind::Conehead));
}

#[test]
fn torchwood_sets_plain_peas_alight() {
    assert_eq!(ignited_kind(ProjectileKind::Pea), Some(ProjectileKind::FirePea));
    assert_eq!(ignited_kind(ProjectileKind::FirePea), None);
    assert_eq!(ignited_kind(ProjectileKind::IcePea), None);
    assert_eq!(ignited_kind(ProjectileKind::PhysicsPea), None);
}
