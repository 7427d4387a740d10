use lawn_defense::lawn::{CellOccupancy, GridCell, LawnLayout, LAWN_COLUMNS};

#[test]
fn grid_rejects_boundaries_and_occupancy() {
    let layout = LawnLayout::default();
    assert_eq!(layout.cell_at(layout.columns, 1), None);

    let mut occupancy = CellOccupancy::new();
    assert_eq!(layout.cell_at(0, 1), None);
    assert_eq!(layout.cell_at(1, 2), None);

    let cell = GridCell { column: 3, row: 0 };
    assert!(occupancy.is_available(cell, &layout));
    occupancy.insert(cell, 42);
    assert!(!occupancy.is_available(cell, &layout));
}

#[test]
fn every_lane_and_air_cell_is_found() {
    let layout = LawnLayout::default();
    assert_eq!(layout.columns, LAWN_COLUMNS);
    for column in 0..layout.columns {
        assert_eq!(layout.cell_at(column, 0), Some(GridCell { column, row: 0 }));
    }
    for column in [0, layout.columns - 2, layout.columns - 1] {
        for row in [2, 3] {
            assert_eq!(layout.cell_at(column, row), Some(GridCell { column, row }));
        }
    }
    assert_eq!(layout.cell_at(5, 3), None);
    assert_eq!(layout.cell_at(0, 4), None);
}

#[test]
fn shooter_row_spans_every_column() {
    let layout = LawnLayout::default();
    for column in 0..layout.columns {
        let cell = GridCell { column, row: -2 };
        assert_eq!(layout.cell_at(column, -2), Some(cell));
        assert!(cell.is_shooter_row());
        assert!(!cell.is_ground());
        assert!(!cell.is_elevated());
    }
    assert_eq!(layout.cell_at(layout.columns, -2), None);
    assert_eq!(layout.cell_at(3, -1), None);
    assert_eq!(layout.cell_at(3, -3), None);
    let mut occupancy = CellOccupancy::new();
    let below = GridCell { column: 3, row: -2 };
    let lane = GridCell { column: 3, row: 0 };
    occupancy.insert(below, 9);
    assert!(!occupancy.is_available(below, &layout));
    assert!(occupancy.is_available(lane, &layout));
    assert_eq!(occupancy.occupant(below), Some(9));
}

#[test]
fn air_cells_are_the_three_columns_in_both_rows() {
    let layout = LawnLayout::default();
    let cells = layout.air_cells();
    assert_eq!(
        cells,
        vec![
            GridCell { column: 0, row: 2 },
            GridCell { column: 0, row: 3 },
            GridCell { column: 10, row: 2 },
            GridCell { column: 10, row: 3 },
            GridCell { column: 11, row: 2 },
            GridCell { column: 11, row: 3 },
        ]
    );
    let narrow = LawnLayout { columns: 1 };
    assert_eq!(narrow.air_cells().len(), 6);
    assert!(narrow.air_cells().iter().all(|cell| cell.column == 0));
}

#[test]
fn freeing_a_cell_makes_it_available_again() {
    let layout = LawnLayout::default();
    let mut occupancy = CellOccupancy::new();
    let cell = GridCell { column: 11, row: 3 };
    let other = GridCell { column: 11, row: 2 };
    occupancy.insert(cell, 1);
    occupancy.insert(other, 2);
    assert_eq!(occupancy.occupant(cell), Some(1));
    occupancy.remove(cell);
    assert!(occupancy.is_available(cell, &layout));
    assert!(!occupancy.is_available(other, &layout));
    occupancy.clear();
    assert!(occupancy.is_available(other, &layout));
}

#[test]
fn ground_and_elevated_cells() {
    assert!(GridCell { column: 2, row: 0 }.is_ground());
    assert!(!GridCell { column: 2, row: 2 }.is_ground());
    assert!(GridCell { column: 0, row: 2 }.is_elevated());
    assert!(GridCell { column: 0, row: 3 }.is_elevated());
    assert!(!GridCell { column: 0, row: 1 }.is_elevated());
}
