use ldtk_levels::frac::{Frac, Transform, Vec2F};
use ldtk_levels::ldtk::{EntityDefinition, EntityInstance, EntityInstanceTile, IRect, IVec2, TilePos};
use ldtk_levels::utils::{
    calculate_transform_from_entity_instance, calculate_transform_from_tile_pos,
    create_entity_definition_map, int_grid_index_to_tile_pos, ldtk_grid_coords_to_tile_pos,
    ldtk_grid_coords_to_translation, ldtk_grid_coords_to_translation_centered,
    ldtk_map_get_or_default, ldtk_pixel_coords_to_translation,
    ldtk_pixel_coords_to_translation_pivoted, tile_pos_to_ldtk_grid_coords,
    tile_pos_to_translation_centered, translation_to_ldtk_pixel_coords,
    try_each_optional_permutation,
};

#[test]
fn test_int_grid_index_to_tile_pos() {
    assert_eq!(int_grid_index_to_tile_pos(3, 4, 5), Some(TilePos { x: 3, y: 4 }));

    assert_eq!(int_grid_index_to_tile_pos(10, 5, 5), Some(TilePos { x: 0, y: 2 }));

    assert_eq!(int_grid_index_to_tile_pos(49, 10, 5), Some(TilePos { x: 9, y: 0 }));

    assert_eq!(int_grid_index_to_tile_pos(64, 100, 1), Some(TilePos { x: 64, y: 0 }));

    assert_eq!(int_grid_index_to_tile_pos(35, 1, 100), Some(TilePos { x: 0, y: 64 }));
}

#[test]
fn test_int_grid_index_out_of_range() {
    assert_eq!(int_grid_index_to_tile_pos(3, 0, 5), None);

    assert_eq!(int_grid_index_to_tile_pos(3, 5, 0), None);

    assert_eq!(int_grid_index_to_tile_pos(25, 5, 5), None);
}

#[test]
fn test_calculate_transform_from_entity_instance() {
    let entity_definitions = vec![
        EntityDefinition { uid: 0, width: 32, height: 32 },
        EntityDefinition { uid: 1, width: 64, height: 16 },
        EntityDefinition { uid: 2, width: 10, height: 25 },
    ];
    let entity_definition_map = create_entity_definition_map(&entity_definitions);

    // simple case
    let entity_instance = EntityInstance {
        px: IVec2::new(256, 256),
        def_uid: 0,
        width: 32,
        height: 32,
        pivot: Vec2F::new(Frac::from_int(0), Frac::from_int(0)),
        ..Default::default()
    };
    let result =
        calculate_transform_from_entity_instance(&entity_instance, &entity_definition_map, 320, 0);
    assert_eq!(result, Transform::from_xyz(Frac::from_int(272), Frac::from_int(47), 0));

    // difficult case
    let entity_instance = EntityInstance {
        px: IVec2::new(40, 50),
        def_uid: 2,
        width: 30,
        height: 50,
        pivot: Vec2F::new(Frac::from_int(1), Frac::from_int(1)),
        ..Default::default()
    };
    let result =
        calculate_transform_from_entity_instance(&entity_instance, &entity_definition_map, 100, 2);
    assert_eq!(
        result,
        Transform::from_xyz(Frac::from_int(25), Frac::from_int(74), 2)
            .with_scale(Frac::from_int(3), Frac::from_int(2))
    );
}

#[test]
fn test_calculate_transform_from_entity_instance_with_tile() {
    let entity_definitions = vec![EntityDefinition { uid: 0, width: 32, height: 32 }];
    let entity_definition_map = create_entity_definition_map(&entity_definitions);

    let entity_instance = EntityInstance {
        px: IVec2::new(64, 64),
        def_uid: 0,
        width: 64,
        height: 64,
        pivot: Vec2F::new(Frac::from_int(1), Frac::from_int(1)),
        tile: Some(EntityInstanceTile {
            src_rect: IRect::new(0, 0, 16, 32),
            ..Default::default()
        }),
        ..Default::default()
    };
    let result =
        calculate_transform_from_entity_instance(&entity_instance, &entity_definition_map, 100, 2);
    assert_eq!(
        result,
        Transform::from_xyz(Frac::from_int(32), Frac::from_int(67), 2)
            .with_scale(Frac::from_int(4), Frac::from_int(2))
    );
}

#[test]
fn test_calculate_transform_from_tile_pos() {
    assert_eq!(
        calculate_transform_from_tile_pos(TilePos { x: 1, y: 2 }, 32, 0),
        Transform::from_xyz(Frac::from_int(48), Frac::from_int(80), 0)
    );

    assert_eq!(
        calculate_transform_from_tile_pos(TilePos { x: 1, y: 0 }, 100, 50),
        Transform::from_xyz(Frac::from_int(150), Frac::from_int(50), 50)
    );

    assert_eq!(
        calculate_transform_from_tile_pos(TilePos { x: 0, y: 5 }, 1, 1),
        Transform::from_xyz(Frac::new(1, 2), Frac::new(11, 2), 1)
    );
}

#[test]
fn test_try_each_optional_permutation() {
    let table: Vec<((Option<i32>, Option<i32>), i32)> = vec![
        ((Some(1), Some(1)), 1),
        ((Some(2), None), 2),
        ((None, Some(3)), 3),
        ((None, None), 4),
    ];

    assert_eq!(try_each_optional_permutation(&1, &1, &table), Some(&1));
    assert_eq!(try_each_optional_permutation(&2, &1, &table), Some(&2));
    assert_eq!(try_each_optional_permutation(&2, &2, &table), Some(&2));
    assert_eq!(try_each_optional_permutation(&2, &3, &table), Some(&3));
    assert_eq!(try_each_optional_permutation(&3, &3, &table), Some(&3));
    assert_eq!(try_each_optional_permutation(&4, &3, &table), Some(&3));
    assert_eq!(try_each_optional_permutation(&4, &4, &table), Some(&4));
    assert_eq!(try_each_optional_permutation(&5, &5, &table), Some(&4));
}

#[test]
fn test_defaulting_lookup_priority() {
    // Registrations at mixed specificity: the second key generic, the
    // first key generic, and the fully generic fallback.
    let table: Vec<((Option<i32>, Option<i32>), &str)> =
        vec![((Some(1), None), "first-specific"), ((None, Some(3)), "second-specific")];
    let default = "default";

    // (1, 1): no dual match, no (None, Some(1)), so (Some(1), None) wins.
    assert_eq!(ldtk_map_get_or_default(&1, &1, &default, &table), &"first-specific");
    // (2, 3): falls through to (None, Some(3)).
    assert_eq!(ldtk_map_get_or_default(&2, &3, &default, &table), &"second-specific");
    // (1, 3): (None, Some(3)) beats (Some(1), None).
    assert_eq!(ldtk_map_get_or_default(&1, &3, &default, &table), &"second-specific");
    // No partial match at all: the default handler.
    assert_eq!(ldtk_map_get_or_default(&9, &9, &default, &table), &"default");
}

#[test]
fn test_grid_coords_round_trip() {
    let cell = ldtk_grid_coords_to_tile_pos(IVec2::new(3, 1), 5);
    assert_eq!(cell, TilePos { x: 3, y: 3 });
    assert_eq!(tile_pos_to_ldtk_grid_coords(cell, 5), IVec2::new(3, 1));
}

#[test]
fn test_pixel_coords_to_translation() {
    let translation = ldtk_pixel_coords_to_translation(IVec2::new(1, 3), 10);
    assert_eq!(translation, Vec2F::new(Frac::from_int(1), Frac::from_int(6)));

    let back = translation_to_ldtk_pixel_coords(translation, 10);
    assert_eq!(back, IVec2::new(1, 3));

    // Fractional translations truncate toward zero before the flip.
    let coords = translation_to_ldtk_pixel_coords(
        Vec2F::new(Frac::new(5, 2), Frac::new(7, 2)),
        10,
    );
    assert_eq!(coords, IVec2::new(2, 6));
}

#[test]
fn test_grid_coords_to_translation() {
    let corner = ldtk_grid_coords_to_translation(IVec2::new(1, 1), 2, IVec2::new(32, 32));
    assert_eq!(corner, Vec2F::new(Frac::from_int(32), Frac::from_int(31)));

    let centered =
        ldtk_grid_coords_to_translation_centered(IVec2::new(1, 1), 2, IVec2::new(32, 32));
    assert_eq!(centered, Vec2F::new(Frac::from_int(48), Frac::from_int(15)));
}

#[test]
fn test_tile_pos_to_translation_centered() {
    assert_eq!(
        tile_pos_to_translation_centered(TilePos { x: 1, y: 2 }, IVec2::new(16, 16)),
        Vec2F::new(Frac::from_int(24), Frac::from_int(40))
    );
}

#[test]
fn test_pixel_coords_to_translation_pivoted() {
    let translation = ldtk_pixel_coords_to_translation_pivoted(
        IVec2::new(256, 256),
        320,
        IVec2::new(32, 32),
        Vec2F::new(Frac::from_int(0), Frac::from_int(0)),
    );
    assert_eq!(translation, Vec2F::new(Frac::from_int(272), Frac::from_int(47)));

    // A centered pivot contributes no offset at all.
    let translation = ldtk_pixel_coords_to_translation_pivoted(
        IVec2::new(10, 20),
        100,
        IVec2::new(8, 8),
        Vec2F::new(Frac::new(1, 2), Frac::new(1, 2)),
    );
    assert_eq!(translation, Vec2F::new(Frac::from_int(10), Frac::from_int(79)));
}
