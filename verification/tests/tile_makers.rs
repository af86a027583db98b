use ldtk_levels::ldtk::{IVec2, TileInstance, TilePos, TilesetDefinition};
use ldtk_levels::tile_makers::{
    tile_pos_to_invisible_tile, tile_pos_to_tile_bundle_if_int_grid_nonzero_maker,
    tile_pos_to_tile_bundle_maker, tile_pos_to_tile_maker, InvisibleTileMaker, TileBundleQuery,
    TileLayerBuilder, TileQuery,
};
use ldtk_levels::utils::set_all_tiles_with_func;

#[test]
fn test_tile_pos_to_tile_maker() {
    let grid_tiles = vec![
        TileInstance {
            px: IVec2::new(0, 0),
            src: IVec2::new(32, 0),
            ..Default::default()
        },
        TileInstance {
            px: IVec2::new(32, 0),
            src: IVec2::new(32, 32),
            ..Default::default()
        },
        TileInstance {
            px: IVec2::new(0, 32),
            src: IVec2::new(64, 0),
            ..Default::default()
        },
        TileInstance {
            px: IVec2::new(32, 32),
            src: IVec2::new(32, 0),
            ..Default::default()
        },
    ];

    let tileset_definition = TilesetDefinition {
        c_wid: 3,
        c_hei: 2,
        tile_grid_size: 32,
        ..Default::default()
    };

    let tile_maker = tile_pos_to_tile_maker(2, 32, &tileset_definition, grid_tiles);

    assert_eq!(tile_maker.tile_at(TilePos { x: 0, y: 0 }).unwrap().texture_index, 2);
    assert_eq!(tile_maker.tile_at(TilePos { x: 1, y: 0 }).unwrap().texture_index, 1);
    assert_eq!(tile_maker.tile_at(TilePos { x: 0, y: 1 }).unwrap().texture_index, 1);
    assert_eq!(tile_maker.tile_at(TilePos { x: 1, y: 1 }).unwrap().texture_index, 4);
}

#[test]
fn test_tile_pos_to_tile_maker_with_flips() {
    let grid_tiles = vec![
        TileInstance {
            px: IVec2::new(0, 0),
            src: IVec2::new(0, 0),
            f: 0,
        },
        TileInstance {
            px: IVec2::new(32, 0),
            src: IVec2::new(0, 0),
            f: 1,
        },
        TileInstance {
            px: IVec2::new(0, 32),
            src: IVec2::new(0, 0),
            f: 2,
        },
        TileInstance {
            px: IVec2::new(64, 0),
            src: IVec2::new(0, 0),
            f: 3,
        },
    ];

    let tileset_definition = TilesetDefinition {
        c_wid: 1,
        c_hei: 1,
        tile_grid_size: 16,
        ..Default::default()
    };

    let tile_maker = tile_pos_to_tile_maker(2, 32, &tileset_definition, grid_tiles);

    assert_eq!(tile_maker.tile_at(TilePos { x: 0, y: 0 }).unwrap().flip_x, false);
    assert_eq!(tile_maker.tile_at(TilePos { x: 0, y: 0 }).unwrap().flip_y, true);

    assert_eq!(tile_maker.tile_at(TilePos { x: 0, y: 1 }).unwrap().flip_x, false);
    assert_eq!(tile_maker.tile_at(TilePos { x: 0, y: 1 }).unwrap().flip_y, false);

    assert_eq!(tile_maker.tile_at(TilePos { x: 1, y: 1 }).unwrap().flip_x, true);
    assert_eq!(tile_maker.tile_at(TilePos { x: 1, y: 1 }).unwrap().flip_y, false);

    assert_eq!(tile_maker.tile_at(TilePos { x: 2, y: 1 }).unwrap().flip_x, true);
    assert_eq!(tile_maker.tile_at(TilePos { x: 2, y: 1 }).unwrap().flip_y, true);
}

#[test]
fn test_tile_maker_last_write_wins() {
    // Two records land in the same cell; the later one decides.
    let grid_tiles = vec![
        TileInstance {
            px: IVec2::new(0, 0),
            src: IVec2::new(0, 0),
            ..Default::default()
        },
        TileInstance {
            px: IVec2::new(0, 0),
            src: IVec2::new(32, 0),
            ..Default::default()
        },
    ];
    let tileset_definition = TilesetDefinition {
        c_wid: 4,
        c_hei: 4,
        tile_grid_size: 32,
        ..Default::default()
    };
    let tile_maker = tile_pos_to_tile_maker(1, 32, &tileset_definition, grid_tiles);
    assert_eq!(tile_maker.tile_at(TilePos { x: 0, y: 0 }).unwrap().texture_index, 1);
    assert_eq!(tile_maker.tile_at(TilePos { x: 1, y: 0 }), None);
}

#[test]
fn test_tile_pos_to_invisible_tile() {
    let tile = tile_pos_to_invisible_tile(TilePos { x: 7, y: 9 }).unwrap();
    assert_eq!(tile.visible, false);
    assert_eq!(tile.texture_index, 0);
    assert_eq!(tile.flip_x, false);
    assert_eq!(tile.flip_y, false);
}

#[test]
fn test_tile_pos_to_tile_bundle_maker() {
    let grid_tiles = vec![TileInstance {
        px: IVec2::new(0, 0),
        src: IVec2::new(0, 0),
        ..Default::default()
    }];
    let tileset_definition = TilesetDefinition {
        c_wid: 1,
        c_hei: 1,
        tile_grid_size: 32,
        ..Default::default()
    };
    let tile_maker = tile_pos_to_tile_maker(1, 32, &tileset_definition, grid_tiles);
    let bundle_maker = tile_pos_to_tile_bundle_maker(tile_maker);

    let bundle = bundle_maker.bundle_at(TilePos { x: 0, y: 0 }).unwrap();
    assert_eq!(bundle.tile.texture_index, 0);
    assert!(bundle.tile.visible);
    assert_eq!(bundle_maker.bundle_at(TilePos { x: 1, y: 0 }), None);
}

#[test]
fn test_int_grid_nonzero_gating() {
    // A 2x2 grid whose source rows are [5, 0] over [0, 7]: after the
    // flip, row 0 of the source lands at target y = 1.
    let int_grid_csv = vec![5, 0, 0, 7];
    let maker = tile_pos_to_tile_bundle_if_int_grid_nonzero_maker(
        InvisibleTileMaker {},
        &int_grid_csv,
        2,
        2,
    );

    assert!(maker.bundle_at(TilePos { x: 0, y: 1 }).is_some());
    assert_eq!(maker.bundle_at(TilePos { x: 1, y: 1 }), None);
    assert_eq!(maker.bundle_at(TilePos { x: 0, y: 0 }), None);
    assert!(maker.bundle_at(TilePos { x: 1, y: 0 }).is_some());
    // Outside the grid there is no mask entry at all.
    assert_eq!(maker.bundle_at(TilePos { x: 5, y: 5 }), None);

    let gated = maker.bundle_at(TilePos { x: 0, y: 1 }).unwrap();
    assert_eq!(gated.tile.visible, false);
}

#[test]
fn test_int_grid_zero_area_layer() {
    // A zero-area layer carries no values and yields no mapping at all:
    // legitimately empty, not an error.
    let int_grid_csv: Vec<i32> = Vec::new();
    let maker = tile_pos_to_tile_bundle_if_int_grid_nonzero_maker(
        InvisibleTileMaker {},
        &int_grid_csv,
        0,
        0,
    );
    assert_eq!(maker.bundle_at(TilePos { x: 0, y: 0 }), None);
}

#[test]
fn test_set_all_tiles_with_func() {
    let int_grid_csv = vec![1, 0, 0, 1];
    let maker = tile_pos_to_tile_bundle_if_int_grid_nonzero_maker(
        InvisibleTileMaker {},
        &int_grid_csv,
        2,
        2,
    );

    let mut layer_builder = TileLayerBuilder::new(2, 2);
    set_all_tiles_with_func(&mut layer_builder, &maker);

    assert!(layer_builder.tile_at(TilePos { x: 0, y: 1 }).is_some());
    assert!(layer_builder.tile_at(TilePos { x: 1, y: 0 }).is_some());
    assert_eq!(layer_builder.tile_at(TilePos { x: 0, y: 0 }), None);
    assert_eq!(layer_builder.tile_at(TilePos { x: 1, y: 1 }), None);
}
