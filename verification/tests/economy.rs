use lawn_defense::catalog::{ContentCatalog, SECOND};
use lawn_defense::economy::{PlantCards, SunBank};
use lawn_defense::kinds::PlantKind;
use lawn_defense::lawn::{CellOccupancy, GridCell, LawnLayout};
use lawn_defense::placement::{plant_can_occupy, try_place};

#[test]
fn sun_spending_is_atomic() {
    let mut bank = SunBank { amount: 75 };
    assert!(!bank.try_spend(100));
    assert_eq!(bank.amount, 75);
    assert!(bank.try_spend(50));
    assert_eq!(bank.amount, 25);
}

#[test]
fn card_cooldown_tracks_ready_state() {
    let catalog = ContentCatalog::default();
    let mut cards = PlantCards::new();
    cards.set_remaining(PlantKind::Peashooter, 0);
    assert!(cards.ready(PlantKind::Peashooter));
    cards.trigger(PlantKind::Peashooter, &catalog);
    assert!(!cards.ready(PlantKind::Peashooter));
    let remaining = cards.remaining(PlantKind::Peashooter);
    cards.set_remaining(PlantKind::Peashooter, remaining.saturating_sub(10 * SECOND));
    assert!(cards.ready(PlantKind::Peashooter));
}

#[test]
fn trigger_uses_the_catalog_cooldown() {
    let catalog = ContentCatalog::default();
    let mut cards = PlantCards::new();
    cards.trigger(PlantKind::WallNut, &catalog);
    assert_eq!(cards.remaining(PlantKind::WallNut), 8 * SECOND);
    cards.trigger(PlantKind::Peashooter, &catalog);
    assert_eq!(cards.remaining(PlantKind::Peashooter), 4 * SECOND);
    assert_eq!(cards.len(), 2);
}

#[test]
fn cooldown_ticks_down_and_saturates() {
    let mut cards = PlantCards::new();
    cards.set_remaining(PlantKind::Sunflower, 5 * SECOND);
    cards.set_remaining(PlantKind::Torchwood, 0);
    cards.tick(2 * SECOND);
    assert_eq!(cards.remaining(PlantKind::Sunflower), 3 * SECOND);
    assert!(!cards.ready(PlantKind::Sunflower));
    assert!(cards.ready(PlantKind::Torchwood));
    cards.tick(3 * SECOND);
    assert!(cards.ready(PlantKind::Sunflower));
    cards.tick(SECOND);
    assert_eq!(cards.remaining(PlantKind::Sunflower), 0);
}

#[test]
fn a_kind_without_card_is_never_ready() {
    let mut cards = PlantCards::new();
    assert!(!cards.ready(PlantKind::GatlingPea));
    assert_eq!(cards.remaining(PlantKind::GatlingPea), 0);
    cards.tick(SECOND);
    assert_eq!(cards.len(), 0);
}

#[test]
fn deposit_adds_collected_sun() {
    let mut bank = SunBank { amount: 25 };
    bank.deposit(50);
    assert_eq!(bank.amount, 75);
}

#[test]
fn placement_pays_triggers_and_refuses_occupied_cells() {
    let catalog = ContentCatalog::default();
    let layout = LawnLayout::default();
    let mut occupancy = CellOccupancy::new();
    let mut cards = PlantCards::new();
    cards.set_remaining(PlantKind::WallNut, 0);
    let mut bank = SunBank { amount: 150 };
    let cell = GridCell { column: 4, row: 0 };

    assert!(try_place(PlantKind::WallNut, cell, &catalog, &layout, &occupancy, &mut cards, &mut bank));
    assert_eq!(bank.amount, 100);
    assert_eq!(cards.remaining(PlantKind::WallNut), 8 * SECOND);
    occupancy.insert(cell, 7);

    cards.set_remaining(PlantKind::WallNut, 0);
    bank.amount = 500;
    assert!(!try_place(PlantKind::WallNut, cell, &catalog, &layout, &occupancy, &mut cards, &mut bank));
    assert_eq!(bank.amount, 500);
    assert!(cards.ready(PlantKind::WallNut));
}

#[test]
fn plant_rows_enforce_their_specializations() {
    let ground = GridCell { column: 4, row: 0 };
    let elevated = GridCell { column: 0, row: 2 };
    let peashooter_row = GridCell { column: 4, row: -2 };

    assert!(!plant_can_occupy(PlantKind::Sunflower, ground));
    assert!(plant_can_occupy(PlantKind::Sunflower, elevated));
    assert!(!plant_can_occupy(PlantKind::Peashooter, ground));
    assert!(!plant_can_occupy(PlantKind::Peashooter, elevated));
    assert!(plant_can_occupy(PlantKind::Peashooter, peashooter_row));
    assert!(plant_can_occupy(PlantKind::Repeater, peashooter_row));
    assert!(plant_can_occupy(PlantKind::GatlingPea, peashooter_row));
    assert!(!plant_can_occupy(PlantKind::WallNut, peashooter_row));
    assert!(plant_can_occupy(PlantKind::WallNut, ground));
    assert!(plant_can_occupy(PlantKind::Torchwood, ground));
    assert!(plant_can_occupy(PlantKind::Torchwood, peashooter_row));
    assert!(!plant_can_occupy(PlantKind::Torchwood, elevated));
}

#[test]
fn kinds_outside_the_old_rule_follow_their_family() {
    let ground = GridCell { column: 4, row: 0 };
    let elevated = GridCell { column: 11, row: 3 };
    let shooters = GridCell { column: 0, row: -2 };
    assert!(plant_can_occupy(PlantKind::TwinSunflower, elevated));
    assert!(!plant_can_occupy(PlantKind::TwinSunflower, ground));
    assert!(!plant_can_occupy(PlantKind::TwinSunflower, shooters));
    assert!(!plant_can_occupy(PlantKind::Sunflower, shooters));
    assert!(!plant_can_occupy(PlantKind::WallNut, elevated));
    assert!(plant_can_occupy(PlantKind::SnowPea, shooters));
    assert!(!plant_can_occupy(PlantKind::SnowPea, ground));
    assert!(!plant_can_occupy(PlantKind::SnowPea, elevated));
    assert!(!plant_can_occupy(PlantKind::GatlingPea, GridCell { column: 4, row: -1 }));
}

#[test]
fn shooters_are_placed_on_their_row() {
    let catalog = ContentCatalog::default();
    let layout = LawnLayout::default();
    let occupancy = CellOccupancy::new();
    let mut cards = PlantCards::new();
    cards.set_remaining(PlantKind::Peashooter, 0);
    let mut bank = SunBank { amount: 150 };
    let cell = GridCell { column: 7, row: -2 };
    assert!(try_place(PlantKind::Peashooter, cell, &catalog, &layout, &occupancy, &mut cards, &mut bank));
    assert_eq!(bank.amount, 50);
    assert_eq!(cards.remaining(PlantKind::Peashooter), 4 * SECOND);
    // Past the last column the row ends.
    cards.set_remaining(PlantKind::Peashooter, 0);
    let off = GridCell { column: 12, row: -2 };
    assert!(!try_place(PlantKind::Peashooter, off, &catalog, &layout, &occupancy, &mut cards, &mut bank));
    assert_eq!(bank.amount, 50);
}

#[test]
fn placement_refuses_a_kind_on_the_wrong_row() {
    let catalog = ContentCatalog::default();
    let layout = LawnLayout::default();
    let occupancy = CellOccupancy::new();
    let mut cards = PlantCards::new();
    cards.set_remaining(PlantKind::Sunflower, 0);
    cards.set_remaining(PlantKind::Peashooter, 0);
    let mut bank = SunBank { amount: 1000 };
    let ground = GridCell { column: 3, row: 0 };
    assert!(!try_place(PlantKind::Sunflower, ground, &catalog, &layout, &occupancy, &mut cards, &mut bank));
    assert!(!try_place(PlantKind::Peashooter, ground, &catalog, &layout, &occupancy, &mut cards, &mut bank));
    assert_eq!(bank.amount, 1000);
    assert!(cards.ready(PlantKind::Sunflower));
    assert!(cards.ready(PlantKind::Peashooter));
}

#[test]
fn placement_refuses_without_sun_or_ready_card() {
    let catalog = ContentCatalog::default();
    let layout = LawnLayout::default();
    let occupancy = CellOccupancy::new();
    let mut cards = PlantCards::new();
    let mut bank = SunBank { amount: 1000 };
    let cell = GridCell { column: 0, row: 2 };
    // No card for the kind yet.
    assert!(!try_place(PlantKind::Sunflower, cell, &catalog, &layout, &occupancy, &mut cards, &mut bank));
    cards.set_remaining(PlantKind::Sunflower, 0);
    bank.amount = 49;
    assert!(!try_place(PlantKind::Sunflower, cell, &catalog, &layout, &occupancy, &mut cards, &mut bank));
    assert_eq!(bank.amount, 49);
    bank.amount = 50;
    assert!(try_place(PlantKind::Sunflower, cell, &catalog, &layout, &occupancy, &mut cards, &mut bank));
    assert_eq!(bank.amount, 0);
    // Off the lawn.
    cards.set_remaining(PlantKind::Sunflower, 0);
    bank.amount = 50;
    let off = GridCell { column: 5, row: 2 };
    assert!(!try_place(PlantKind::Sunflower, off, &catalog, &layout, &occupancy, &mut cards, &mut bank));
    assert_eq!(bank.amount, 50);
}
