use lawn_defense::catalog::{ContentCatalog, SECOND};
use lawn_defense::combat::Team;
use lawn_defense::economy::{PlantCards, SunBank};
use lawn_defense::kinds::{PlantKind, ZombieKind};
use lawn_defense::lawn::{CellOccupancy, GridCell, LawnLayout};
use lawn_defense::level::{
    default_plant_cards, reset_level, LevelChecks, LevelDefinition, LevelId, LevelRuntime,
    PeaPathArrivalEffect, PlantCardDefinition, ShovelMode, ZombieWaveDefinition,
};

fn sample_level() -> LevelDefinition {
    LevelDefinition {
        id: LevelId(String::from("level_01")),
        display_name: String::from("前院白天"),
        starting_sun: 50,
        always_shoot: false,
        pea_path_arrival_effect: PeaPathArrivalEffect::default_effect(),
        gatling_pea_upgrade_only: false,
        lawn: LawnLayout::default(),
        cards: default_plant_cards(),
        waves: vec![
            ZombieWaveDefinition { spawns: vec![ZombieKind::Basic, ZombieKind::Basic] },
            ZombieWaveDefinition { spawns: vec![ZombieKind::Conehead] },
        ],
    }
}

fn sound_checks() -> LevelChecks {
    LevelChecks { lawn_geometry_valid: true, spawn_time_issues: Vec::new() }
}

#[test]
fn validation_rejects_duplicate_cards_and_invalid_lawn() {
    let catalog = ContentCatalog::default();
    let mut level = sample_level();
    level.cards[1].plant = level.cards[0].plant;
    assert!(level
        .validate(&catalog, &sound_checks())
        .unwrap_err()
        .contains("duplicate plant card"));
    level = sample_level();
    let checks = LevelChecks { lawn_geometry_valid: false, spawn_time_issues: Vec::new() };
    assert!(level
        .validate(&catalog, &checks)
        .unwrap_err()
        .contains("finite and positive"));
}

#[test]
fn a_sound_level_validates() {
    let catalog = ContentCatalog::default();
    assert_eq!(sample_level().validate(&catalog, &sound_checks()), Ok(()));
}

#[test]
fn validation_reports_each_failure_in_order() {
    let catalog = ContentCatalog::default();

    let mut level = sample_level();
    level.id = LevelId(String::from("  "));
    assert_eq!(
        level.validate(&catalog, &sound_checks()),
        Err(String::from("level id must not be empty"))
    );

    let mut level = sample_level();
    level.display_name = String::from("\t");
    assert_eq!(
        level.validate(&catalog, &sound_checks()),
        Err(String::from("level display name must not be empty"))
    );

    let mut level = sample_level();
    level.lawn.columns = 0;
    assert_eq!(
        level.validate(&catalog, &sound_checks()),
        Err(String::from("lawn dimensions must be finite and positive"))
    );

    let mut level = sample_level();
    level.cards.clear();
    assert_eq!(
        level.validate(&catalog, &sound_checks()),
        Err(String::from("level must contain at least one plant card"))
    );

    let mut level = sample_level();
    level.cards[3].slot = level.cards[0].slot;
    assert_eq!(
        level.validate(&catalog, &sound_checks()),
        Err(String::from("duplicate card slot 1"))
    );

    let mut level = sample_level();
    level.cards[2].plant = PlantKind::Sunflower;
    assert_eq!(
        level.validate(&catalog, &sound_checks()),
        Err(String::from("duplicate plant card Sunflower"))
    );

    let mut level = sample_level();
    level.waves.clear();
    assert_eq!(
        level.validate(&catalog, &sound_checks()),
        Err(String::from("level must contain at least one zombie wave"))
    );

    let mut level = sample_level();
    level.waves[1].spawns.clear();
    assert_eq!(
        level.validate(&catalog, &sound_checks()),
        Err(String::from("wave 1 must contain at least one zombie"))
    );
}

#[test]
fn validation_reports_spawn_time_issues_and_missing_zombies() {
    let level = sample_level();
    let checks = LevelChecks {
        lawn_geometry_valid: true,
        spawn_time_issues: vec![
            vec![None, None],
            vec![Some(String::from("wave 1 spawn 0 time must be finite and non-negative"))],
        ],
    };
    let catalog = ContentCatalog::default();
    assert_eq!(
        level.validate(&catalog, &checks),
        Err(String::from("wave 1 spawn 0 time must be finite and non-negative"))
    );

    let mut catalog = ContentCatalog::default();
    catalog.zombies.retain(|definition| definition.kind != ZombieKind::Conehead);
    assert_eq!(
        level.validate(&catalog, &sound_checks()),
        Err(String::from("wave 1 spawn 0 references missing zombie Conehead"))
    );
}

#[test]
fn validation_reports_a_card_for_a_missing_plant() {
    let level = sample_level();
    let mut catalog = ContentCatalog::default();
    catalog.plants.retain(|definition| definition.kind != PlantKind::Repeater);
    assert_eq!(
        level.validate(&catalog, &sound_checks()),
        Err(String::from("card 4 references missing plant Repeater"))
    );
}

#[test]
fn default_cards_fill_slots_one_to_eight() {
    let cards = default_plant_cards();
    assert_eq!(cards.len(), 8);
    assert_eq!(cards[0], PlantCardDefinition { slot: 1, plant: PlantKind::Sunflower });
    assert_eq!(cards[4], PlantCardDefinition { slot: 5, plant: PlantKind::GatlingPea });
    assert_eq!(cards[7], PlantCardDefinition { slot: 8, plant: PlantKind::Torchwood });
}

#[test]
fn final_wave_is_spawned_before_outcome_check() {
    let mut definition = sample_level();
    definition.waves = vec![ZombieWaveDefinition { spawns: vec![ZombieKind::Basic] }];
    let mut runtime = LevelRuntime::new();

    let spawned = runtime.advance_timeline(&definition, &vec![vec![true]]);

    assert_eq!(runtime.next_wave, 1);
    assert_eq!(spawned, vec![ZombieKind::Basic]);
    let living_zombies = spawned.len();
    assert!(!runtime.is_won(definition.waves.len(), living_zombies));
}

#[test]
fn timeline_stops_at_the_first_spawn_not_yet_due() {
    let definition = sample_level();
    let mut runtime = LevelRuntime::new();

    let spawned = runtime.advance_timeline(&definition, &vec![vec![true, false], vec![true]]);
    assert_eq!(spawned, vec![ZombieKind::Basic]);
    assert_eq!((runtime.next_wave, runtime.next_spawn_in_wave), (0, 1));
    assert_eq!(runtime.waves_started(), 1);

    let spawned = runtime.advance_timeline(&definition, &vec![vec![true, true], vec![true]]);
    assert_eq!(spawned, vec![ZombieKind::Basic, ZombieKind::Conehead]);
    assert_eq!((runtime.next_wave, runtime.next_spawn_in_wave), (2, 0));
    assert_eq!(runtime.waves_started(), 2);

    let spawned = runtime.advance_timeline(&definition, &vec![vec![true, true], vec![true]]);
    assert!(spawned.is_empty());
    assert!(runtime.is_won(definition.waves.len(), 0));
    assert!(!runtime.is_won(definition.waves.len(), 3));
}

#[test]
fn only_zombie_deaths_count_as_defeats() {
    let mut runtime = LevelRuntime::new();
    runtime.record_death(Team::Plants);
    runtime.record_death(Team::Zombies);
    runtime.record_death(Team::Zombies);
    assert_eq!(runtime.defeated_zombies, 2);
    runtime.add_elapsed(3 * SECOND);
    assert_eq!(runtime.elapsed, 3 * SECOND);
}

#[test]
fn reset_uses_the_current_level_definition() {
    let mut definition = sample_level();
    definition.starting_sun = 777;
    definition.lawn.columns = 7;
    let expected_card_count = definition.cards.len();

    let mut runtime = LevelRuntime {
        elapsed: 9 * SECOND,
        next_wave: 2,
        next_spawn_in_wave: 1,
        defeated_zombies: 1,
    };
    let mut bank = SunBank { amount: 1 };
    let mut cards = PlantCards::new();
    let mut shovel = ShovelMode { preview: Some(u64::MAX) };
    let mut layout = LawnLayout::default();
    let mut occupancy = CellOccupancy::new();
    occupancy.insert(GridCell { column: 1, row: 0 }, 5);

    reset_level(
        &definition,
        &mut runtime,
        &mut bank,
        &mut cards,
        &mut shovel,
        &mut layout,
        &mut occupancy,
    );

    assert_eq!(bank.amount, 777);
    assert!(!shovel.active());
    assert_eq!(layout.columns, 7);
    assert_eq!(runtime.next_wave, 0);
    assert_eq!(runtime.next_spawn_in_wave, 0);
    assert_eq!(cards.len(), expected_card_count);
    assert!(cards.ready(PlantKind::Torchwood));
    assert_eq!(occupancy.occupant(GridCell { column: 1, row: 0 }), None);
}

#[test]
fn a_level_without_cards_gets_the_default_bar() {
    assert_eq!(lawn_defense::level::card_bar(None), default_plant_cards());
    let listed = vec![
        PlantCardDefinition { slot: 1, plant: PlantKind::Sunflower },
        PlantCardDefinition { slot: 2, plant: PlantKind::Peashooter },
    ];
    assert_eq!(lawn_defense::level::card_bar(Some(listed.clone())), listed);
}
