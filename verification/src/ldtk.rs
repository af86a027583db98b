//! Plain data types mirroring the fields of the level-editor manifest that
//! the library consumes, plus the small vector types the geometry works in.

use vstd::prelude::*;

use crate::frac::{Frac, Vec2F};

verus! {

/// A signed 2D coordinate in source (Y-down) pixel or grid units.
#[derive(Clone, Copy, Debug, PartialEq, Eq, Structural)]
pub struct IVec2 {
    pub x: i32,
    pub y: i32,
}

impl IVec2 {
    pub fn new(x: i32, y: i32) -> (r: IVec2)
        ensures
            r.x == x,
            r.y == y,
    {
        IVec2 { x, y }
    }
}

/// An unsigned 2D cell coordinate in target (Y-up) orientation.
#[derive(Clone, Copy, Debug, PartialEq, Eq, Hash, Structural)]
pub struct TilePos {
    pub x: u32,
    pub y: u32,
}

impl TilePos {
    pub fn new(x: u32, y: u32) -> (r: TilePos)
        ensures
            r.x == x,
            r.y == y,
    {
        TilePos { x, y }
    }
}

/// A signed axis-aligned rectangle in source pixel units.
#[derive(Clone, Copy, Debug, PartialEq, Eq, Structural)]
pub struct IRect {
    pub x: i32,
    pub y: i32,
    pub w: i32,
    pub h: i32,
}

impl IRect {
    pub fn new(x: i32, y: i32, w: i32, h: i32) -> (r: IRect)
        ensures
            r == (IRect { x, y, w, h }),
    {
        IRect { x, y, w, h }
    }
}

/// One raw tile placement record of a layer: pixel position within the
/// layer, pixel offset into the tileset image, and a flip code
/// (0 = none, 1 = horizontal, 2 = vertical, 3 = both).
#[derive(Clone, Copy, Debug, PartialEq, Eq, Structural)]
pub struct TileInstance {
    pub px: IVec2,
    pub src: IVec2,
    pub f: i32,
}

impl Default for TileInstance {
    fn default() -> (r: TileInstance)
        ensures
            r == (TileInstance { px: IVec2 { x: 0, y: 0 }, src: IVec2 { x: 0, y: 0 }, f: 0 }),
    {
        TileInstance { px: IVec2 { x: 0, y: 0 }, src: IVec2 { x: 0, y: 0 }, f: 0 }
    }
}

/// The marker a tileset definition carries when its image is an icon
/// atlas embedded in the editor rather than a file of the project.
#[derive(Clone, Copy, Debug, PartialEq, Eq, Structural)]
pub enum EmbedAtlas {
    LdtkIcons,
}

/// A tileset definition: a source image sliced into a fixed grid of
/// same-size square tiles.
#[derive(Clone, Debug)]
pub struct TilesetDefinition {
    pub uid: i32,
    pub identifier: String,
    /// Image path relative to the project file, when the tileset has one.
    pub rel_path: Option<String>,
    /// Present when the tileset uses the editor's embedded icon atlas.
    pub embed_atlas: Option<EmbedAtlas>,
    /// Pixel width and height of one tile of the grid.
    pub tile_grid_size: i32,
    /// Tileset width in tiles.
    pub c_wid: i32,
    /// Tileset height in tiles.
    pub c_hei: i32,
}

impl Default for TilesetDefinition {
    fn default() -> (r: TilesetDefinition)
        ensures
            r.uid == 0,
            r.identifier@ == Seq::<char>::empty(),
            r.rel_path is None,
            r.embed_atlas is None,
            r.tile_grid_size == 0,
            r.c_wid == 0,
            r.c_hei == 0,
    {
        TilesetDefinition {
            uid: 0,
            identifier: String::new(),
            rel_path: None,
            embed_atlas: None,
            tile_grid_size: 0,
            c_wid: 0,
            c_hei: 0,
        }
    }
}

/// An entity definition: the identity and default size entity instances
/// of this kind inherit.
#[derive(Clone, Copy, Debug, PartialEq, Eq, Structural)]
pub struct EntityDefinition {
    pub uid: i32,
    pub width: i32,
    pub height: i32,
}

impl Default for EntityDefinition {
    fn default() -> (r: EntityDefinition)
        ensures
            r == (EntityDefinition { uid: 0, width: 0, height: 0 }),
    {
        EntityDefinition { uid: 0, width: 0, height: 0 }
    }
}

/// The tile-crop carried by an entity instance rendered from a tileset
/// region: the region overrides the definition's implied source size.
#[derive(Clone, Copy, Debug, PartialEq, Eq, Structural)]
pub struct EntityInstanceTile {
    pub tileset_uid: i32,
    pub src_rect: IRect,
}

impl Default for EntityInstanceTile {
    fn default() -> (r: EntityInstanceTile)
        ensures
            r == (EntityInstanceTile { tileset_uid: 0, src_rect: IRect { x: 0, y: 0, w: 0, h: 0 } }),
    {
        EntityInstanceTile { tileset_uid: 0, src_rect: IRect { x: 0, y: 0, w: 0, h: 0 } }
    }
}

/// One raw entity placement record: which definition it instantiates,
/// where it sits in source pixel space, its (possibly resized) size, its
/// pivot anchor, and an optional tile-crop override.
#[derive(Clone, Debug)]
pub struct EntityInstance {
    pub def_uid: i32,
    pub px: IVec2,
    pub width: i32,
    pub height: i32,
    /// Normalized anchor within the entity's box, each component an
    /// exact fraction in `[0, 1]`.
    pub pivot: Vec2F,
    pub tile: Option<EntityInstanceTile>,
}

impl Default for EntityInstance {
    fn default() -> (r: EntityInstance)
        ensures
            r.def_uid == 0,
            r.px == (IVec2 { x: 0, y: 0 }),
            r.width == 0,
            r.height == 0,
            r.pivot.x == (Frac { num: 0, den: 1 }),
            r.pivot.y == (Frac { num: 0, den: 1 }),
            r.tile is None,
    {
        EntityInstance {
            def_uid: 0,
            px: IVec2 { x: 0, y: 0 },
            width: 0,
            height: 0,
            pivot: Vec2F { x: Frac { num: 0, den: 1 }, y: Frac { num: 0, den: 1 } },
            tile: None,
        }
    }
}

/// One layer's worth of placement data within a level.
#[derive(Clone, Debug)]
pub struct LayerInstance {
    /// Layer width in cells.
    pub c_wid: i32,
    /// Layer height in cells.
    pub c_hei: i32,
    /// Pixel width and height of one cell.
    pub grid_size: i32,
    /// One value per cell, row-major in source orientation.
    pub int_grid_csv: Vec<i32>,
    /// Raw tile placement records.
    pub grid_tiles: Vec<TileInstance>,
    /// Raw entity placement records.
    pub entity_instances: Vec<EntityInstance>,
}

/// One discrete playable area of the project.
#[derive(Clone, Debug)]
pub struct Level {
    pub identifier: String,
    pub iid: String,
    pub uid: i32,
    /// Background image path relative to the project file, if any.
    pub bg_rel_path: Option<String>,
    /// Path of the externally stored level payload, present when the
    /// project stores levels externally.
    pub external_rel_path: Option<String>,
    /// Inline layer data; absent when the level is stored externally.
    pub layer_instances: Option<Vec<LayerInstance>>,
    /// Level height in pixels.
    pub px_hei: i32,
}

impl Default for Level {
    fn default() -> (r: Level)
        ensures
            r.identifier@ == Seq::<char>::empty(),
            r.iid@ == Seq::<char>::empty(),
            r.uid == 0,
            r.bg_rel_path is None,
            r.external_rel_path is None,
            r.layer_instances is None,
            r.px_hei == 0,
    {
        Level {
            identifier: String::new(),
            iid: String::new(),
            uid: 0,
            bg_rel_path: None,
            external_rel_path: None,
            layer_instances: None,
            px_hei: 0,
        }
    }
}

/// One world of a multi-world project: an ordered list of levels.
#[derive(Clone, Debug)]
pub struct World {
    pub levels: Vec<Level>,
}

/// The definition tables of the project.
#[derive(Clone, Debug)]
pub struct Definitions {
    pub tilesets: Vec<TilesetDefinition>,
    pub entities: Vec<EntityDefinition>,
}

impl Default for Definitions {
    fn default() -> (r: Definitions)
        ensures
            r.tilesets@.len() == 0,
            r.entities@.len() == 0,
    {
        Definitions { tilesets: Vec::new(), entities: Vec::new() }
    }
}

/// The root of the parsed project manifest.
#[derive(Clone, Debug)]
pub struct LdtkJson {
    /// Whether the manifest declares that level payloads live in
    /// separate files.
    pub external_levels: bool,
    /// The flat level list of a single-world project.
    pub levels: Vec<Level>,
    /// The worlds of a multi-world project; empty otherwise.
    pub worlds: Vec<World>,
    pub defs: Definitions,
}

impl Default for LdtkJson {
    fn default() -> (r: LdtkJson)
        ensures
            r.external_levels == false,
            r.levels@.len() == 0,
            r.worlds@.len() == 0,
            r.defs.tilesets@.len() == 0,
            r.defs.entities@.len() == 0,
    {
        LdtkJson {
            external_levels: false,
            levels: Vec::new(),
            worlds: Vec::new(),
            defs: Definitions { tilesets: Vec::new(), entities: Vec::new() },
        }
    }
}

} // verus!
