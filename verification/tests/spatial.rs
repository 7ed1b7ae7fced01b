use zcad::entity::EntityId;
use zcad::spatial::{CellRange, SpatialIndex};

/// The cells a world box covers on a grid of the given cell size.
fn cells(min: (f64, f64), max: (f64, f64), size: f64) -> CellRange {
    CellRange {
        min_x: (min.0 / size).floor() as i64,
        min_y: (min.1 / size).floor() as i64,
        max_x: (max.0 / size).floor() as i64,
        max_y: (max.1 / size).floor() as i64,
    }
}

fn intersects(a: ((f64, f64), (f64, f64)), b: ((f64, f64), (f64, f64))) -> bool {
    a.0 .0 <= b.1 .0 && a.1 .0 >= b.0 .0 && a.0 .1 <= b.1 .1 && a.1 .1 >= b.0 .1
}

#[test]
fn test_spatial_index() {
    let mut index = SpatialIndex::new();
    let id1 = EntityId(1);
    let id2 = EntityId(2);
    let id3 = EntityId(3);
    let b1 = ((0.0, 0.0), (5.0, 5.0));
    let b2 = ((10.0, 10.0), (15.0, 15.0));
    let b3 = ((100.0, 100.0), (105.0, 105.0));
    index.insert(id1, cells(b1.0, b1.1, 10.0));
    index.insert(id2, cells(b2.0, b2.1, 10.0));
    index.insert(id3, cells(b3.0, b3.1, 10.0));

    let rect = ((0.0, 0.0), (20.0, 20.0));
    let boxes = [(id1, b1), (id2, b2), (id3, b3)];
    let result: Vec<EntityId> = index
        .query_cells(cells(rect.0, rect.1, 10.0))
        .into_iter()
        .filter(|id| boxes.iter().any(|(k, b)| k == id && intersects(*b, rect)))
        .collect();

    assert_eq!(result.len(), 2);
    assert!(result.contains(&id1));
    assert!(result.contains(&id2));
    assert!(!result.contains(&id3));
}

#[test]
fn query_cells_lists_each_entity_once_in_walk_order() {
    let mut index = SpatialIndex::new();
    index.insert(EntityId(7), CellRange { min_x: 0, min_y: 0, max_x: 1, max_y: 1 });
    index.insert(EntityId(3), CellRange { min_x: 1, min_y: 0, max_x: 1, max_y: 0 });
    // column 0 holds 7; column 1 holds 7 then 3 in (1, 0)
    assert_eq!(index.query_cells(CellRange { min_x: 0, min_y: 0, max_x: 1, max_y: 1 }), vec![EntityId(7), EntityId(3)]);
    assert_eq!(index.query_cell(1, 0), vec![EntityId(7), EntityId(3)]);
    assert_eq!(index.query_cell(0, 1), vec![EntityId(7)]);
    assert!(index.query_cell(2, 2).is_empty());
    // an empty range finds nothing
    assert!(index.query_cells(CellRange { min_x: 1, min_y: 0, max_x: 0, max_y: 5 }).is_empty());
    assert_eq!(index.len(), 2);
}

#[test]
fn insert_moves_and_remove_forgets() {
    let mut index = SpatialIndex::new();
    assert!(index.is_empty());
    index.insert(EntityId(1), CellRange { min_x: -2, min_y: -2, max_x: -1, max_y: -1 });
    assert_eq!(index.query_cell(-2, -1), vec![EntityId(1)]);
    index.update(EntityId(1), CellRange { min_x: 5, min_y: 5, max_x: 5, max_y: 5 });
    assert!(index.query_cell(-2, -1).is_empty());
    assert_eq!(index.query_cell(5, 5), vec![EntityId(1)]);
    assert_eq!(index.get_cells(&EntityId(1)), Some(CellRange { min_x: 5, min_y: 5, max_x: 5, max_y: 5 }));
    assert!(index.remove(&EntityId(1)));
    assert!(!index.remove(&EntityId(1)));
    assert!(index.query_cell(5, 5).is_empty());
    assert_eq!(index.get_cells(&EntityId(1)), None);
    assert!(index.is_empty());
}

#[test]
fn extreme_cells_and_rebuild() {
    let mut index = SpatialIndex::new();
    index.insert(EntityId(9), CellRange { min_x: i64::MAX, min_y: i64::MIN, max_x: i64::MAX, max_y: i64::MIN });
    index.insert(EntityId(4), CellRange { min_x: i64::MIN, min_y: i64::MAX, max_x: i64::MIN, max_y: i64::MAX });
    assert_eq!(index.query_cell(i64::MAX, i64::MIN), vec![EntityId(9)]);
    assert_eq!(index.query_cell(i64::MIN, i64::MAX), vec![EntityId(4)]);
    index.rebuild();
    assert_eq!(index.query_cell(i64::MAX, i64::MIN), vec![EntityId(9)]);
    assert_eq!(index.query_cell(i64::MIN, i64::MAX), vec![EntityId(4)]);
    index.clear();
    assert!(index.query_cell(i64::MAX, i64::MIN).is_empty());
    assert_eq!(index.len(), 0);
}
