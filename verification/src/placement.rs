//! Placing a plant: the kind must suit the cell's row, the cell must be free,
//! the card ready and the sun enough; then the price is paid and the card
//! starts its cooldown, all at once.

use vstd::prelude::*;

use crate::catalog::{has_plant, ContentCatalog};
use crate::economy::{plant_definition, lemma_first_plant_unique, saturating_less, PlantCards, SunBank};
use crate::kinds::PlantKind;
use crate::lawn::{is_air_row, layout_contains, CellOccupancy, GridCell, LawnLayout, SHOOTER_ROW};

verus! {

/// Which rows each kind of plant may stand on. The elevated cells take only
/// sunflowers (the twin sunflower, grown from one, among them); the lane
/// (row 0) takes only wall-nuts and torchwoods; the shooters' row takes only
/// the pea shooters (peashooter, snow pea, repeater, gatling pea) and
/// torchwoods.
pub open spec fn plant_allowed_on(kind: PlantKind, cell: GridCell) -> bool {
    match kind {
        PlantKind::Sunflower | PlantKind::TwinSunflower => is_air_row(cell.row),
        PlantKind::WallNut => cell.row == 0,
        PlantKind::Torchwood => cell.row == 0 || cell.row == SHOOTER_ROW,
        PlantKind::Peashooter | PlantKind::SnowPea | PlantKind::Repeater | PlantKind::GatlingPea => cell.row
            == SHOOTER_ROW,
    }
}

/// Whether a plant of `kind` may stand on `cell` (see `plant_allowed_on`).
pub fn plant_can_occupy(kind: PlantKind, cell: GridCell) -> (r: bool)
    ensures
        r == plant_allowed_on(kind, cell),
{
    match kind {
        PlantKind::Sunflower | PlantKind::TwinSunflower => cell.is_elevated(),
        PlantKind::WallNut => cell.is_ground(),
        PlantKind::Torchwood => cell.is_ground() || cell.is_shooter_row(),
        PlantKind::Peashooter | PlantKind::SnowPea | PlantKind::Repeater | PlantKind::GatlingPea => cell.is_shooter_row(),
    }
}

/// Whether a placement of `kind` on `cell` goes through.
pub open spec fn placement_allowed(
    kind: PlantKind,
    cell: GridCell,
    catalog: ContentCatalog,
    layout: LawnLayout,
    occupancy: Map<GridCell, u64>,
    cards: Map<PlantKind, u64>,
    sun: u32,
) -> bool {
    &&& plant_allowed_on(kind, cell)
    &&& layout_contains(layout.columns, cell)
    &&& !occupancy.contains_key(cell)
    &&& cards.contains_key(kind) && cards[kind] == 0
    &&& sun >= plant_definition(catalog, kind).price
}

/// Tries to place a plant of `kind` on `cell`. When the kind may stand on
/// the cell's row, the cell is on the lawn and free, the card is ready and the bank holds the price, pays the price,
/// starts the card's cooldown and returns `true` (the caller then records the
/// new plant in the occupancy); otherwise changes nothing and returns `false`.
pub fn try_place(
    kind: PlantKind,
    cell: GridCell,
    catalog: &ContentCatalog,
    layout: &LawnLayout,
    occupancy: &CellOccupancy,
    cards: &mut PlantCards,
    bank: &mut SunBank,
) -> (placed: bool)
    requires
        has_plant(catalog.plants@, kind),
    ensures
        placed == placement_allowed(kind, cell, *catalog, *layout, occupancy@, old(cards)@, old(bank).amount),
        placed ==> final(bank).amount == old(bank).amount - plant_definition(*catalog, kind).price,
        placed ==> final(cards)@ == old(cards)@.insert(kind, plant_definition(*catalog, kind).card_cooldown),
        !placed ==> *final(bank) == *old(bank),
        !placed ==> final(cards)@ == old(cards)@,
{
    let definition = catalog.plant(kind);
    proof {
        let i = choose|i: int| crate::catalog::first_plant_at(catalog.plants@, kind, i) && *definition == catalog.plants@[i];
        lemma_first_plant_unique(*catalog, kind, i);
    }
    if !plant_can_occupy(kind, cell) || !occupancy.is_available(cell, layout) || !cards.ready(kind) || !bank.try_spend(definition.price) {
        return false;
    }
    cards.trigger(kind, catalog);
    true
}

/// The remaining cooldowns after `delta` nanoseconds.
pub open spec fn after_tick(cards: Map<PlantKind, u64>, delta: u64) -> Map<PlantKind, u64> {
    Map::new(|kind: PlantKind| cards.contains_key(kind), |kind: PlantKind| saturating_less(cards[kind], delta))
}

/// A card that has just been used is not ready while its cooldown lasts, and
/// is ready again once the cooldown has fully passed, whether in one tick or
/// in two.
pub proof fn law_card_recovers_after_cooldown(cards: Map<PlantKind, u64>, kind: PlantKind, cooldown: u64, first: u64, second: u64)
    requires
        first + second <= u64::MAX,
    ensures
        ({
            let used = cards.insert(kind, cooldown);
            let once = after_tick(used, first);
            let twice = after_tick(once, second);
            &&& (cooldown > 0 ==> !(used[kind] == 0))
            &&& (once[kind] == 0) == (first >= cooldown)
            &&& (twice[kind] == 0) == (first + second >= cooldown)
            &&& once.contains_key(kind) && twice.contains_key(kind)
        }),
{
}

/// Once a plant occupies a cell, no other plant can be placed there.
pub proof fn law_occupied_cell_refuses_placement(
    kind: PlantKind,
    cell: GridCell,
    catalog: ContentCatalog,
    layout: LawnLayout,
    occupancy: Map<GridCell, u64>,
    entity: u64,
    cards: Map<PlantKind, u64>,
    sun: u32,
)
    ensures
        !placement_allowed(kind, cell, catalog, layout, occupancy.insert(cell, entity), cards, sun),
{
}

/// A plant is never placed on a cell whose row its kind may not stand on,
/// whatever the sun, the cards and the free cells.
pub proof fn law_wrong_row_refuses_placement(
    kind: PlantKind,
    cell: GridCell,
    catalog: ContentCatalog,
    layout: LawnLayout,
    occupancy: Map<GridCell, u64>,
    cards: Map<PlantKind, u64>,
    sun: u32,
)
    requires
        !plant_allowed_on(kind, cell),
    ensures
        !placement_allowed(kind, cell, catalog, layout, occupancy, cards, sun),
{
}

/// Every kind of plant has somewhere to go: on any lawn with at least one
/// column, some cell of the layout takes it.
pub proof fn law_every_kind_has_a_cell(kind: PlantKind, columns: u8)
    requires
        columns >= 1,
    ensures
        exists|cell: GridCell| plant_allowed_on(kind, cell) && layout_contains(columns, cell),
{
    let cell = match kind {
        PlantKind::Sunflower | PlantKind::TwinSunflower => GridCell { column: 0, row: 2 },
        PlantKind::WallNut | PlantKind::Torchwood => GridCell { column: 0, row: 0 },
        _ => GridCell { column: 0, row: SHOOTER_ROW },
    };
    assert(plant_allowed_on(kind, cell) && layout_contains(columns, cell));
}


/// Which rows each kind may use, row by row: every pea shooter (peashooter,
/// snow pea, repeater, gatling pea) exactly the shooters' row; sunflowers
/// exactly the elevated rows 2 and 3; the wall-nut exactly the lane; the
/// torchwood exactly the lane and the shooters' row. So only wall-nuts and
/// torchwoods stand on the lane, and a placement that goes through puts a
/// pea shooter on the shooters' row.
pub proof fn law_rows_by_kind(
    kind: PlantKind,
    cell: GridCell,
    catalog: ContentCatalog,
    layout: LawnLayout,
    occupancy: Map<GridCell, u64>,
    cards: Map<PlantKind, u64>,
    sun: u32,
)
    ensures
        (kind == PlantKind::Peashooter || kind == PlantKind::SnowPea || kind == PlantKind::Repeater
            || kind == PlantKind::GatlingPea) ==> (plant_allowed_on(kind, cell) <==> cell.row == -2),
        (kind == PlantKind::Sunflower || kind == PlantKind::TwinSunflower) ==> (plant_allowed_on(kind, cell) <==> (
        cell.row == 2 || cell.row == 3)),
        kind == PlantKind::WallNut ==> (plant_allowed_on(kind, cell) <==> cell.row == 0),
        kind == PlantKind::Torchwood ==> (plant_allowed_on(kind, cell) <==> (cell.row == 0 || cell.row == -2)),
        plant_allowed_on(kind, cell) && cell.row == 0 ==> (kind == PlantKind::WallNut || kind == PlantKind::Torchwood),
        placement_allowed(kind, cell, catalog, layout, occupancy, cards, sun) && (kind == PlantKind::Peashooter || kind
            == PlantKind::SnowPea || kind == PlantKind::Repeater || kind == PlantKind::GatlingPea) ==> cell.row == -2,
{
}

} // verus!
