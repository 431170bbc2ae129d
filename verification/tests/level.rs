use platformer::level::{
    remove_tile_from_cache, translation_to_grid_coords, GridCoords, LevelEntityLookup, Movable,
    TILE_SIZE, TILE_SIZE_MILLI,
};
use platformer::word::{WordTileEvent, WordTileEventKind};

#[test]
fn constants() {
    assert_eq!(TILE_SIZE, 32);
    assert_eq!(TILE_SIZE_MILLI, 32_000);
}

#[test]
fn translation_floors_to_owning_tile() {
    // Each tile owns the half-open 32-unit span starting at its edge.
    assert_eq!(translation_to_grid_coords(0, 0), GridCoords::new(0, 0));
    assert_eq!(translation_to_grid_coords(31_999, 0), GridCoords::new(0, 0));
    assert_eq!(translation_to_grid_coords(32_000, 0), GridCoords::new(1, 0));
    assert_eq!(translation_to_grid_coords(48_000, -1), GridCoords::new(1, -1));
    assert_eq!(translation_to_grid_coords(-32_000, -32_001), GridCoords::new(-1, -2));
    assert_eq!(translation_to_grid_coords(16_000, 95_999), GridCoords::new(0, 2));
}

#[test]
fn world_round_trip() {
    let c = GridCoords::new(5, -3);
    let (x, y) = c.to_world_milli();
    assert_eq!((x, y), (176_000, -80_000));
    assert_eq!(translation_to_grid_coords(x, y), c);
}

#[test]
fn steps_clamp_at_level_border() {
    let c = GridCoords::new(0, 0);
    assert_eq!(c.up(), GridCoords::new(0, 1));
    assert_eq!(c.down(), GridCoords::new(0, 0));
    assert_eq!(c.left(), GridCoords::new(0, 0));
    assert_eq!(c.right(), GridCoords::new(1, 0));
    let d = GridCoords::new(4, 7);
    assert_eq!(d.down(), GridCoords::new(4, 6));
    assert_eq!(d.left(), GridCoords::new(3, 7));
    assert_eq!(GridCoords::x(), GridCoords::new(1, 0));
    assert_eq!(GridCoords::neg_x(), GridCoords::new(-1, 0));
    assert_eq!(GridCoords::y(), GridCoords::new(0, 1));
    assert_eq!(GridCoords::neg_y(), GridCoords::new(0, -1));
}

#[test]
fn neighbours_deduplicate_at_origin() {
    let inner = GridCoords::new(5, 5).neighbours();
    assert_eq!(inner.len(), 4);
    assert!(inner.contains(&GridCoords::new(5, 6)));
    assert!(inner.contains(&GridCoords::new(5, 4)));
    assert!(inner.contains(&GridCoords::new(4, 5)));
    assert!(inner.contains(&GridCoords::new(6, 5)));

    // At the origin, down and left both clamp onto the centre tile.
    let corner = GridCoords::new(0, 0).neighbours();
    assert_eq!(corner.len(), 3);
    assert!(corner.contains(&GridCoords::new(0, 1)));
    assert!(corner.contains(&GridCoords::new(0, 0)));
    assert!(corner.contains(&GridCoords::new(1, 0)));
}

#[test]
fn distance_squared_is_euclidean() {
    let a = GridCoords::new(1, 2);
    let b = GridCoords::new(4, 6);
    assert_eq!(a.distance_squared(&b), 25);
    assert_eq!(b.distance_squared(&a), 25);
    assert_eq!(a.distance_squared(&a), 0);
}

#[test]
fn radius_collects_the_disc() {
    let c = GridCoords::new(5, 5);
    let r1 = c.radius(1, false);
    // The four neighbours and the centre.
    assert_eq!(r1.len(), 5);
    assert!(r1.contains(&c));
    assert!(r1.contains(&GridCoords::new(4, 5)));
    assert!(r1.contains(&GridCoords::new(6, 5)));
    assert!(r1.contains(&GridCoords::new(5, 4)));
    assert!(r1.contains(&GridCoords::new(5, 6)));
    assert!(!r1.contains(&GridCoords::new(4, 4)));

    let skipped = c.radius(1, true);
    assert_eq!(skipped.len(), 4);
    assert!(!skipped.contains(&c));

    // Radius 2 includes the diagonal ring (distance sqrt(2) <= 2).
    let r2 = c.radius(2, false);
    assert_eq!(r2.len(), 13);
    assert!(r2.contains(&GridCoords::new(4, 4)));
    assert!(!r2.contains(&GridCoords::new(3, 3)));

    // The disc is clamped at the level border.
    let edge = GridCoords::new(0, 0).radius(1, false);
    assert_eq!(edge.len(), 3);
}

#[test]
fn lookup_insert_get_remove() {
    let mut lookup = LevelEntityLookup::new();
    let a = GridCoords::new(1, 2);
    let b = GridCoords::new(3, 4);
    assert_eq!(lookup.get(&a), None);
    lookup.insert(a, 10);
    lookup.insert(b, 20);
    assert_eq!(lookup.get(&a), Some(10));
    assert_eq!(lookup.get(&b), Some(20));
    // Inserting again replaces.
    lookup.insert(a, 11);
    assert_eq!(lookup.get(&a), Some(11));
    assert_eq!(lookup.remove(&a), Some(11));
    assert_eq!(lookup.get(&a), None);
    assert_eq!(lookup.remove(&a), None);
    assert_eq!(lookup.get(&b), Some(20));
}

#[test]
fn lookup_upsert_moves_an_entry() {
    let mut lookup = LevelEntityLookup::new();
    let from = GridCoords::new(0, 0);
    let to = GridCoords::new(0, 1);
    lookup.insert(from, 42);
    lookup.upsert(42, &from, to);
    assert_eq!(lookup.get(&from), None);
    assert_eq!(lookup.get(&to), Some(42));
}

#[test]
fn finished_tiles_leave_the_cache() {
    let mut lookup = LevelEntityLookup::new();
    let a = GridCoords::new(1, 0);
    let b = GridCoords::new(2, 0);
    lookup.insert(a, 1);
    lookup.insert(b, 2);
    let events = vec![
        WordTileEvent {
            e: 1,
            kind: WordTileEventKind::TileFinished {
                word_count: 3,
                coords: a,
            },
        },
        WordTileEvent {
            e: 2,
            kind: WordTileEventKind::WordFinished(1),
        },
    ];
    remove_tile_from_cache(&events, &mut lookup);
    assert_eq!(lookup.get(&a), None);
    assert_eq!(lookup.get(&b), Some(2));
}

#[test]
fn movable_default_tween() {
    let m = Movable::default();
    assert_eq!(m.tween_duration_ms, 110);
    assert!(m.easing.is_none());
}
