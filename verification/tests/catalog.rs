use lawn_defense::catalog::{
    validate_kinds, ContentCatalog, DefinitionIssues, PlantBehavior, MILLISECOND, SECOND,
};
use lawn_defense::catalog::zombie_scene_label;
use lawn_defense::kinds::{PlantKind, ProjectileKind, ZombieKind};

#[test]
fn built_in_catalog_is_complete_and_valid() {
    ContentCatalog::default().validate(&DefinitionIssues::none()).unwrap();
}

#[test]
fn builtin_definitions_hold_the_game_values() {
    let catalog = ContentCatalog::default();
    let peashooter = catalog.plant(PlantKind::Peashooter);
    assert_eq!(peashooter.price, 100);
    assert_eq!(peashooter.card_cooldown, 4 * SECOND);
    assert_eq!(peashooter.display_name, "豌豆");
    assert_eq!(
        peashooter.behavior,
        PlantBehavior::Shooter {
            interval: 1350 * MILLISECOND,
            projectile: ProjectileKind::Pea,
            shots_per_burst: 1,
            burst_interval: 150 * MILLISECOND,
        }
    );
    let gatling = catalog.plant(PlantKind::GatlingPea);
    assert_eq!(gatling.price, 250);
    let sunflower = catalog.plant(PlantKind::Sunflower);
    assert_eq!(sunflower.behavior, PlantBehavior::SunProducer { interval: 7 * SECOND, value: 25 });
    assert_eq!(catalog.plant(PlantKind::WallNut).behavior, PlantBehavior::Blocker);
    assert_eq!(catalog.zombie(ZombieKind::ScreenDoor).display_name, "铁门僵尸");
    assert_eq!(catalog.zombie(ZombieKind::ScreenDoor).scene_label, "栅栏\n僵尸");
    assert_eq!(catalog.zombie(ZombieKind::Imp).attack_interval, SECOND);
    assert!(catalog.projectile(ProjectileKind::FirePea).hit_policy.destroy_on_hit);
    assert_eq!(catalog.plants.len(), 8);
    assert_eq!(catalog.zombies.len(), 32);
    assert_eq!(catalog.projectiles.len(), 4);
}

#[test]
fn missing_or_doubled_kinds_are_reported() {
    let mut catalog = ContentCatalog::default();
    catalog.plants.remove(2);
    assert_eq!(
        catalog.validate(&DefinitionIssues::none()).unwrap_err(),
        "plant kind Peashooter has 0 definitions"
    );
    let mut catalog = ContentCatalog::default();
    let extra = catalog.zombies[0];
    catalog.zombies.push(extra);
    assert_eq!(
        catalog.validate(&DefinitionIssues::none()).unwrap_err(),
        "zombie kind Basic has 2 definitions"
    );
}

#[test]
fn unknown_definitions_are_reported() {
    let names = vec!["A", "B"];
    assert_eq!(validate_kinds("thing", &names, &vec![0, 1]), Ok(()));
    assert_eq!(
        validate_kinds("thing", &names, &vec![0, 1, 7]).unwrap_err(),
        "thing catalog contains unknown definitions"
    );
    assert_eq!(
        validate_kinds("thing", &names, &vec![1, 1]).unwrap_err(),
        "thing kind A has 0 definitions"
    );
}

#[test]
fn shooter_rules_are_checked() {
    let mut catalog = ContentCatalog::default();
    catalog.plants[2].behavior = PlantBehavior::Shooter {
        interval: 0,
        projectile: ProjectileKind::Pea,
        shots_per_burst: 1,
        burst_interval: 0,
    };
    assert_eq!(
        catalog.validate(&DefinitionIssues::none()).unwrap_err(),
        "shooter interval and burst size must be positive"
    );
    catalog.plants[2].behavior = PlantBehavior::Shooter {
        interval: SECOND,
        projectile: ProjectileKind::Pea,
        shots_per_burst: 2,
        burst_interval: 0,
    };
    assert_eq!(
        catalog.validate(&DefinitionIssues::none()).unwrap_err(),
        "multi-shot burst interval must be positive"
    );
    catalog.plants[2].behavior = PlantBehavior::Shooter {
        interval: SECOND,
        projectile: ProjectileKind::Pea,
        shots_per_burst: 3,
        burst_interval: 500 * MILLISECOND,
    };
    assert_eq!(
        catalog.validate(&DefinitionIssues::none()).unwrap_err(),
        "shooter burst must finish before the next firing cycle"
    );
    catalog.plants[2].behavior = PlantBehavior::Shooter {
        interval: SECOND,
        projectile: ProjectileKind::Pea,
        shots_per_burst: 3,
        burst_interval: 499 * MILLISECOND,
    };
    assert_eq!(catalog.validate(&DefinitionIssues::none()), Ok(()));
    catalog.projectiles.retain(|p| p.kind != ProjectileKind::Pea);
    let error = catalog.validate(&DefinitionIssues::none()).unwrap_err();
    assert_eq!(error, "projectile kind Pea has 0 definitions");
}

#[test]
fn missing_projectile_and_sun_rules_are_checked() {
    let mut catalog = ContentCatalog::default();
    // Replace the pea definition by a second ice pea: the kinds check fails first.
    catalog.projectiles[0].kind = ProjectileKind::IcePea;
    assert_eq!(
        catalog.validate(&DefinitionIssues::none()).unwrap_err(),
        "projectile kind Pea has 0 definitions"
    );
    let mut catalog = ContentCatalog::default();
    catalog.plants[0].behavior = PlantBehavior::SunProducer { interval: SECOND, value: 0 };
    assert_eq!(
        catalog.validate(&DefinitionIssues::none()).unwrap_err(),
        "sun producer interval and value must be positive"
    );
    let mut catalog = ContentCatalog::default();
    catalog.zombies[3].attack_interval = 0;
    assert_eq!(
        catalog.validate(&DefinitionIssues::none()).unwrap_err(),
        "zombie attack interval must be positive"
    );
}

#[test]
fn floating_point_issues_come_in_catalog_order() {
    let catalog = ContentCatalog::default();
    let mut issues = DefinitionIssues::none();
    issues.projectiles = vec![None, Some("projectile radius must be finite and positive, got 0".to_string())];
    issues.zombies_after = vec![None, None, Some("zombie engage range is reversed".to_string())];
    assert_eq!(catalog.validate(&issues).unwrap_err(), "zombie engage range is reversed");
    issues.plants = vec![Some("plant health must be finite and positive, got -1".to_string())];
    assert_eq!(
        catalog.validate(&issues).unwrap_err(),
        "plant health must be finite and positive, got -1"
    );
}

#[test]
fn kinds_have_their_names_and_codes() {
    assert_eq!(ZombieKind::GigaGargantuar.name(), "GigaGargantuar");
    assert_eq!(ZombieKind::all().len(), 32);
    for (index, kind) in PlantKind::all().into_iter().enumerate() {
        assert_eq!(kind.code() as usize, index);
        assert_eq!(PlantKind::from_code(kind.code()), kind);
    }
    assert_eq!(ProjectileKind::all(), vec![ProjectileKind::Pea, ProjectileKind::IcePea, ProjectileKind::FirePea, ProjectileKind::PhysicsPea]);
    assert_eq!(zombie_scene_label(ZombieKind::Basic), "普通\n僵尸");
}

#[test]
fn every_kind_is_found_in_a_valid_catalog() {
    let catalog = ContentCatalog::default();
    assert_eq!(catalog.validate(&DefinitionIssues::none()), Ok(()));
    for kind in PlantKind::all() {
        assert!(catalog.contains_plant(kind));
        assert_eq!(catalog.plant(kind).kind, kind);
    }
    for kind in ZombieKind::all() {
        assert!(catalog.contains_zombie(kind));
        assert_eq!(catalog.zombie(kind).kind, kind);
    }
    for kind in ProjectileKind::all() {
        assert_eq!(catalog.projectile(kind).kind, kind);
    }
}
