use ldtk_levels::external_level::{LdtkExternalLevelLoader, LdtkExternalLevelLoaderError};
use ldtk_levels::ldtk::{Definitions, LdtkJson, Level, TilesetDefinition, World};
use ldtk_levels::project::{LdtkProjectLoader, LdtkProjectLoaderError, LevelIndices, LevelSelection};

fn level(identifier: &str, iid: &str, uid: i32) -> Level {
    Level {
        identifier: identifier.to_owned(),
        iid: iid.to_owned(),
        uid,
        layer_instances: Some(Vec::new()),
        ..Default::default()
    }
}

fn sample_manifest() -> LdtkJson {
    let mut first = level("Plains", "iid-a", 10);
    first.bg_rel_path = Some("bg/plains.png".to_owned());
    let second = level("Caves", "iid-b", 11);

    LdtkJson {
        external_levels: false,
        levels: vec![first, second],
        worlds: Vec::new(),
        defs: Definitions {
            tilesets: vec![
                TilesetDefinition {
                    uid: 7,
                    rel_path: Some("tiles.png".to_owned()),
                    tile_grid_size: 16,
                    c_wid: 8,
                    c_hei: 8,
                    ..Default::default()
                },
                TilesetDefinition {
                    uid: 8,
                    rel_path: None,
                    ..Default::default()
                },
            ],
            entities: Vec::new(),
        },
    }
}

#[test]
fn test_load_project_and_lookups() {
    let loader = LdtkProjectLoader::default();
    let loaded = loader.load(sample_manifest(), "project").unwrap();
    let project = &loaded.project;

    let by_iid = project.get_raw_level_by_iid(&"iid-b".to_owned()).unwrap();
    assert_eq!(by_iid.identifier, "Caves");

    let by_index = project.get_raw_level_by_index(0).unwrap();
    assert_eq!(by_index.identifier, "Plains");
    assert!(project.get_raw_level_by_index(2).is_none());

    let by_indices = project
        .get_raw_level_by_indices(&LevelIndices::new(None, 1))
        .unwrap();
    assert_eq!(by_indices.iid, "iid-b");
    assert!(project
        .get_raw_level_by_indices(&LevelIndices::new(Some(0), 0))
        .is_none());

    // All three access paths agree on the same level.
    assert_eq!(by_iid.uid, by_indices.uid);

    let by_identifier = project
        .find_raw_level_by_level_selection(&LevelSelection::Identifier("Plains".to_owned()))
        .unwrap();
    assert_eq!(by_identifier.iid, "iid-a");
    let by_uid = project
        .find_raw_level_by_level_selection(&LevelSelection::Uid(11))
        .unwrap();
    assert_eq!(by_uid.identifier, "Caves");
    let by_sel_index = project
        .find_raw_level_by_level_selection(&LevelSelection::Index(1))
        .unwrap();
    assert_eq!(by_sel_index.identifier, "Caves");
    assert!(project
        .find_raw_level_by_level_selection(&LevelSelection::Uid(99))
        .is_none());

    // Reference resolution joins paths against the project directory.
    assert_eq!(loaded.background_images, vec!["project/bg/plains.png".to_owned()]);
    assert_eq!(loaded.tileset_rel_paths, vec!["project/tiles.png".to_owned()]);
    assert!(loaded.external_level_paths.is_empty());
    assert_eq!(project.tileset_map.get(&7), Some(&"project/tiles.png".to_owned()));
    // The pathless tileset is skipped, not an error.
    assert_eq!(project.tileset_map.get(&8), None);

    let all = project.iter_raw_levels();
    assert_eq!(all.len(), 2);
    assert_eq!(all[0].identifier, "Plains");
}

#[test]
fn test_load_project_mode_mismatch() {
    let mut external_manifest = sample_manifest();
    external_manifest.external_levels = true;
    for l in external_manifest.levels.iter_mut() {
        l.external_rel_path = Some("x.ldtkl".to_owned());
        l.layer_instances = None;
    }

    let inline_loader = LdtkProjectLoader { external_levels: false };
    let external_loader = LdtkProjectLoader { external_levels: true };

    assert!(matches!(
        inline_loader.load(external_manifest.clone(), "p"),
        Err(LdtkProjectLoaderError::ExternalLevelProject)
    ));
    assert!(matches!(
        external_loader.load(sample_manifest(), "p"),
        Err(LdtkProjectLoaderError::InternalLevelProject)
    ));

    let loaded = external_loader.load(external_manifest, "p").unwrap();
    assert_eq!(
        loaded.external_level_paths,
        vec!["p/x.ldtkl".to_owned(), "p/x.ldtkl".to_owned()]
    );
}

#[test]
fn test_load_project_null_layers() {
    let mut manifest = sample_manifest();
    manifest.levels[1].layer_instances = None;

    let loader = LdtkProjectLoader::default();
    assert!(matches!(
        loader.load(manifest, "p"),
        Err(LdtkProjectLoaderError::InternalLevelWithNullLayers)
    ));
}

#[test]
fn test_load_project_duplicate_iid_keeps_position() {
    let mut manifest = sample_manifest();
    manifest.levels[1].iid = "iid-a".to_owned();

    let loader = LdtkProjectLoader::default();
    let loaded = loader.load(manifest, "p").unwrap();
    let project = &loaded.project;

    // The duplicate identifier keeps the first entry's position but now
    // points at the later level.
    let by_index = project.get_raw_level_by_index(0).unwrap();
    assert_eq!(by_index.identifier, "Caves");
    assert!(project.get_raw_level_by_index(1).is_none());
}

#[test]
fn test_load_project_idempotent() {
    let loader = LdtkProjectLoader::default();
    let first = loader.load(sample_manifest(), "project").unwrap();
    let second = loader.load(sample_manifest(), "project").unwrap();

    assert_eq!(first.project.level_map, second.project.level_map);
    assert_eq!(first.project.tileset_map, second.project.tileset_map);
    assert_eq!(first.background_images, second.background_images);
    assert_eq!(first.tileset_rel_paths, second.tileset_rel_paths);
    assert_eq!(first.external_level_paths, second.external_level_paths);
    assert_eq!(
        first.project.level_metadata.len(),
        second.project.level_metadata.len()
    );
    for (a, b) in first
        .project
        .level_metadata
        .iter()
        .zip(second.project.level_metadata.iter())
    {
        assert_eq!(a.bg_image, b.bg_image);
        assert_eq!(a.indices, b.indices);
        assert_eq!(a.external_handle, b.external_handle);
    }
}

#[test]
fn test_iter_raw_levels_with_worlds() {
    let mut manifest = sample_manifest();
    manifest.worlds = vec![World { levels: vec![level("Deep", "iid-w", 20)] }];

    let loader = LdtkProjectLoader::default();
    let loaded = loader.load(manifest, "p").unwrap();

    let all = loaded.project.iter_raw_levels();
    assert_eq!(all.len(), 3);
    assert_eq!(all[2].identifier, "Deep");

    let by_world = loaded
        .project
        .get_raw_level_by_indices(&LevelIndices::new(Some(0), 0))
        .unwrap();
    assert_eq!(by_world.identifier, "Deep");

    let found = loaded
        .project
        .find_raw_level_by_level_selection(&LevelSelection::Uid(20))
        .unwrap();
    assert_eq!(found.iid, "iid-w");
}

#[test]
fn test_external_level_loader() {
    let loader = LdtkExternalLevelLoader::default();

    let complete = level("Plains", "iid-a", 10);
    let loaded = loader.load(complete).unwrap();
    assert_eq!(loaded.data().identifier, "Plains");
    assert!(loaded.background_image().is_none());

    let incomplete = Level {
        identifier: "Broken".to_owned(),
        ..Default::default()
    };
    assert!(matches!(
        loader.load(incomplete),
        Err(LdtkExternalLevelLoaderError::NullLayers)
    ));
}

#[test]
fn test_loader_extensions() {
    let project_loader = LdtkProjectLoader::default();
    assert_eq!(project_loader.extensions(), vec!["ldtk".to_owned()]);

    let level_loader = LdtkExternalLevelLoader::default();
    assert_eq!(level_loader.extensions(), vec!["ldtkl".to_owned()]);
}
