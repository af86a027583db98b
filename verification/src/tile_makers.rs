//! The tile factory: immutable per-layer lookup tables from cell
//! coordinates to tile descriptors, built once from the raw tile records
//! of a layer and queried once per cell when the layer is materialized.
//!
//! Each maker is a small strategy value exposing one query operation; a
//! cell without a recorded tile yields absence, never an error.

use vstd::prelude::*;
use vstd::arithmetic::div_mod::{lemma_div_nonincreasing, lemma_div_pos_is_pos};

use crate::ldtk::{TileInstance, TilePos, TilesetDefinition};
use crate::utils::{int_grid_index_to_tile_pos, spec_int_grid_index_to_tile_pos};

use std::collections::HashMap;

verus! {

broadcast use vstd::std_specs::hash::group_hash_axioms;

/// A synthesized tile descriptor: an index into the tileset's flattened
/// tile grid, flip flags, and visibility.
#[derive(Clone, Copy, Debug, PartialEq, Eq, Structural)]
pub struct Tile {
    pub texture_index: u16,
    pub flip_x: bool,
    pub flip_y: bool,
    pub visible: bool,
}

/// The placement-bundle shape layer construction consumes; wrapping a
/// tile adds no information.
#[derive(Clone, Copy, Debug, PartialEq, Eq, Structural)]
pub struct TileBundle {
    pub tile: Tile,
}

/// Whether a flip code (0 = none, 1 = horizontal, 2 = vertical,
/// 3 = both) flips the X axis.
pub open spec fn spec_flip_x(f: int) -> bool {
    f == 1 || f == 3
}

/// Whether a flip code flips the Y axis.
pub open spec fn spec_flip_y(f: int) -> bool {
    f == 2 || f == 3
}

/// The tile descriptor a raw tile record synthesizes to: its source
/// pixel offset divided by the tileset's per-tile pixel size gives the
/// tileset column and row, flattened row-major into a texture index.
pub open spec fn spec_tile_of(t: TileInstance, tile_grid_size: int, tileset_width: int) -> Tile {
    Tile {
        texture_index: ((t.src.y as int / tile_grid_size) * tileset_width + t.src.x as int / tile_grid_size) as u16,
        flip_x: spec_flip_x(t.f as int),
        flip_y: spec_flip_y(t.f as int),
        visible: true,
    }
}

/// The target-orientation cell a raw tile record lands in: its pixel
/// position divided by the layer's grid size, Y-flipped within the
/// layer's height.
pub open spec fn spec_target_cell(t: TileInstance, layer_height: int, grid_size: int) -> TilePos {
    TilePos {
        x: (t.px.x as int / grid_size) as u32,
        y: (layer_height - t.px.y as int / grid_size - 1) as u32,
    }
}

/// A raw tile record is well-formed for a layer and tileset when its
/// pixel position lies inside the layer and its source offset addresses
/// a tile of the tileset.
pub open spec fn spec_tile_instance_wf(
    t: TileInstance,
    layer_height: int,
    grid_size: int,
    tile_grid_size: int,
    tileset_width: int,
) -> bool {
    &&& 0 <= t.px.x
    &&& 0 <= t.px.y
    &&& t.px.y as int / grid_size < layer_height
    &&& 0 <= t.src.x
    &&& 0 <= t.src.y
    &&& 0 <= (t.src.y as int / tile_grid_size) * tileset_width + t.src.x as int / tile_grid_size <= u16::MAX
}

/// The cell-to-descriptor table a list of raw tile records builds: each
/// record stores its descriptor at its target cell, and when several
/// records land in one cell the record latest in input order wins.
pub open spec fn spec_tile_map(
    tiles: Seq<TileInstance>,
    layer_height: int,
    grid_size: int,
    tile_grid_size: int,
    tileset_width: int,
) -> Map<TilePos, Tile>
    decreases tiles.len(),
{
    if tiles.len() == 0 {
        Map::<TilePos, Tile>::empty()
    } else {
        spec_tile_map(tiles.drop_last(), layer_height, grid_size, tile_grid_size, tileset_width)
            .insert(
            spec_target_cell(tiles.last(), layer_height, grid_size),
            spec_tile_of(tiles.last(), tile_grid_size, tileset_width),
        )
    }
}

/// The table key a cell is filed under: its coordinates packed into one
/// word.
pub open spec fn spec_pos_key(pos: TilePos) -> u64 {
    (pos.x as int * 0x100000000 + pos.y as int) as u64
}

fn pos_key(pos: TilePos) -> (k: u64)
    ensures
        k == spec_pos_key(pos),
{
    (pos.x as u64) * 0x100000000 + (pos.y as u64)
}

proof fn lemma_pos_key_injective(p1: TilePos, p2: TilePos)
    requires
        spec_pos_key(p1) == spec_pos_key(p2),
    ensures
        p1 == p2,
{
    assert(p1.x as int * 0x100000000 + p1.y as int == p2.x as int * 0x100000000 + p2.y as int);
}

/// The cell-indexed table a word-keyed table stands for.
pub open spec fn spec_cell_view<V>(m: Map<u64, V>) -> Map<TilePos, V> {
    Map::new(|p: TilePos| m.contains_key(spec_pos_key(p)), |p: TilePos| m[spec_pos_key(p)])
}

proof fn lemma_cell_view_insert<V>(m: Map<u64, V>, cell: TilePos, v: V)
    ensures
        spec_cell_view(m.insert(spec_pos_key(cell), v)) =~= spec_cell_view(m).insert(cell, v),
{
    let lhs = spec_cell_view(m.insert(spec_pos_key(cell), v));
    let rhs = spec_cell_view(m).insert(cell, v);
    assert forall|p: TilePos| lhs.contains_key(p) implies rhs.contains_key(p) by {
        if p != cell && spec_pos_key(p) == spec_pos_key(cell) {
            lemma_pos_key_injective(p, cell);
        }
    }
    assert forall|p: TilePos| rhs.contains_key(p) implies lhs.contains_key(p) by {
        if p != cell && spec_pos_key(p) == spec_pos_key(cell) {
            lemma_pos_key_injective(p, cell);
        }
    }
    assert forall|p: TilePos| lhs.contains_key(p) implies lhs[p] == rhs[p] by {
        if p != cell && spec_pos_key(p) == spec_pos_key(cell) {
            lemma_pos_key_injective(p, cell);
        }
    }
}

/// A per-cell tile strategy: one query operation over an immutable
/// table constructed once.
pub trait TileQuery: Sized {
    /// What the strategy answers at each cell.
    spec fn spec_tile_at(&self, tile_pos: TilePos) -> Option<Tile>;

    /// Queries the strategy at one cell.
    fn tile_at(&self, tile_pos: TilePos) -> (r: Option<Tile>)
        ensures
            r == self.spec_tile_at(tile_pos),
    ;
}

/// The autotile/visual strategy: a cell-to-descriptor table matching the
/// tileset visuals of a layer.
pub struct TileMaker {
    pub map: HashMap<u64, Tile>,
}

impl View for TileMaker {
    type V = Map<TilePos, Tile>;

    open spec fn view(&self) -> Map<TilePos, Tile> {
        spec_cell_view(self.map@)
    }
}

impl TileQuery for TileMaker {
    open spec fn spec_tile_at(&self, tile_pos: TilePos) -> Option<Tile> {
        if self@.contains_key(tile_pos) {
            Some(self@[tile_pos])
        } else {
            None
        }
    }

    fn tile_at(&self, tile_pos: TilePos) -> (r: Option<Tile>) {
        let key = pos_key(tile_pos);
        match self.map.get(&key) {
            Some(tile) => Some(*tile),
            None => None,
        }
    }
}

/// Builds the tile strategy matching the tileset visuals of a layer:
/// each raw record's descriptor is stored at its flipped target cell,
/// later records overwriting earlier ones that land in the same cell.
pub fn tile_pos_to_tile_maker(
    layer_height_in_tiles: i32,
    layer_grid_size: i32,
    tileset_definition: &TilesetDefinition,
    grid_tiles: Vec<TileInstance>,
) -> (r: TileMaker)
    requires
        0 <= layer_height_in_tiles,
        1 <= layer_grid_size,
        1 <= tileset_definition.tile_grid_size,
        0 <= tileset_definition.c_wid,
        forall|i: int|
            0 <= i < grid_tiles@.len() ==> #[trigger] spec_tile_instance_wf(
                grid_tiles@[i],
                layer_height_in_tiles as int,
                layer_grid_size as int,
                tileset_definition.tile_grid_size as int,
                tileset_definition.c_wid as int,
            ),
    ensures
        r@ == spec_tile_map(
            grid_tiles@,
            layer_height_in_tiles as int,
            layer_grid_size as int,
            tileset_definition.tile_grid_size as int,
            tileset_definition.c_wid as int,
        ),
{
    let ghost lh = layer_height_in_tiles as int;
    let ghost lg = layer_grid_size as int;
    let ghost tg = tileset_definition.tile_grid_size as int;
    let ghost tw = tileset_definition.c_wid as int;

    let tile_grid_size = tileset_definition.tile_grid_size;
    let tileset_width_in_tiles = tileset_definition.c_wid;

    let mut map: HashMap<u64, Tile> = HashMap::new();
    proof {
        assert(spec_cell_view(map@) =~= spec_tile_map(grid_tiles@.subrange(0, 0), lh, lg, tg, tw));
    }

    let mut i: usize = 0;
    while i < grid_tiles.len()
        invariant
            i <= grid_tiles@.len(),
            1 <= layer_grid_size,
            0 <= layer_height_in_tiles,
            1 <= tile_grid_size,
            0 <= tileset_width_in_tiles,
            lh == layer_height_in_tiles as int,
            lg == layer_grid_size as int,
            tg == tile_grid_size as int,
            tw == tileset_width_in_tiles as int,
            tile_grid_size == tileset_definition.tile_grid_size,
            tileset_width_in_tiles == tileset_definition.c_wid,
            forall|j: int|
                0 <= j < grid_tiles@.len() ==> #[trigger] spec_tile_instance_wf(
                    grid_tiles@[j],
                    lh,
                    lg,
                    tg,
                    tw,
                ),
            spec_cell_view(map@) == spec_tile_map(grid_tiles@.subrange(0, i as int), lh, lg, tg, tw),
        decreases grid_tiles@.len() - i,
    {
        let t = grid_tiles[i];
        proof {
            assert(spec_tile_instance_wf(grid_tiles@[i as int], lh, lg, tg, tw));
            lemma_div_nonincreasing(t.px.x as int, lg);
            lemma_div_pos_is_pos(t.px.x as int, lg);
            lemma_div_nonincreasing(t.px.y as int, lg);
            lemma_div_pos_is_pos(t.px.y as int, lg);
            lemma_div_nonincreasing(t.src.x as int, tg);
            lemma_div_pos_is_pos(t.src.x as int, tg);
            lemma_div_nonincreasing(t.src.y as int, tg);
            lemma_div_pos_is_pos(t.src.y as int, tg);
        }
        let cell_x: u64 = t.px.x as u64 / layer_grid_size as u64;
        let inverted_y: u64 = t.px.y as u64 / layer_grid_size as u64;
        let cell = TilePos {
            x: cell_x as u32,
            y: layer_height_in_tiles as u32 - inverted_y as u32 - 1,
        };

        let tileset_x: u64 = t.src.x as u64 / tile_grid_size as u64;
        let tileset_y: u64 = t.src.y as u64 / tile_grid_size as u64;
        let index: u64 = tileset_y * (tileset_width_in_tiles as u64) + tileset_x;

        let (flip_x, flip_y): (bool, bool) = if t.f == 1 {
            (true, false)
        } else if t.f == 2 {
            (false, true)
        } else if t.f == 3 {
            (true, true)
        } else {
            (false, false)
        };

        let tile = Tile { texture_index: index as u16, flip_x, flip_y, visible: true };

        proof {
            assert(cell == spec_target_cell(grid_tiles@[i as int], lh, lg));
            assert(tile == spec_tile_of(grid_tiles@[i as int], tg, tw));
        }

        let ghost map_before = map@;
        let key = pos_key(cell);
        map.insert(key, tile);
        proof {
            lemma_cell_view_insert(map_before, cell, tile);
            assert(grid_tiles@.subrange(0, i + 1 as int).drop_last() =~= grid_tiles@.subrange(
                0,
                i as int,
            ));
            assert(grid_tiles@.subrange(0, i + 1 as int).last() == grid_tiles@[i as int]);
        }
        i = i + 1;
    }
    proof {
        assert(grid_tiles@.subrange(0, grid_tiles@.len() as int) =~= grid_tiles@);
    }
    TileMaker { map }
}

/// The invisible tile descriptor int-grid layers without autotile
/// visuals are populated with.
pub open spec fn spec_invisible_tile() -> Tile {
    Tile { texture_index: 0, flip_x: false, flip_y: false, visible: false }
}

/// A tile strategy that answers an invisible tile at every cell.
///
/// Used for int-grid layers that carry no autotile visuals.
pub fn tile_pos_to_invisible_tile(_tile_pos: TilePos) -> (r: Option<Tile>)
    ensures
        r == Some(spec_invisible_tile()),
{
    Some(Tile { texture_index: 0, flip_x: false, flip_y: false, visible: false })
}

/// The strategy form of [`tile_pos_to_invisible_tile`]: answers an
/// invisible tile at every cell.
pub struct InvisibleTileMaker {}

impl TileQuery for InvisibleTileMaker {
    open spec fn spec_tile_at(&self, tile_pos: TilePos) -> Option<Tile> {
        Some(spec_invisible_tile())
    }

    fn tile_at(&self, tile_pos: TilePos) -> (r: Option<Tile>) {
        tile_pos_to_invisible_tile(tile_pos)
    }
}

/// A per-cell placement-bundle strategy: one query operation answering
/// the bundle a cell receives, or absence.
pub trait TileBundleQuery: Sized {
    /// What the strategy answers at each cell.
    spec fn spec_bundle_at(&self, tile_pos: TilePos) -> Option<TileBundle>;

    /// Queries the strategy at one cell.
    fn bundle_at(&self, tile_pos: TilePos) -> (r: Option<TileBundle>)
        ensures
            r == self.spec_bundle_at(tile_pos),
    ;
}

/// Lifts a tile strategy to a bundle strategy: every answered tile is
/// wrapped, nothing else changes.
pub struct TileBundleMaker<M: TileQuery> {
    pub maker: M,
}

impl<M: TileQuery> TileBundleQuery for TileBundleMaker<M> {
    open spec fn spec_bundle_at(&self, tile_pos: TilePos) -> Option<TileBundle> {
        match self.maker.spec_tile_at(tile_pos) {
            Some(tile) => Some(TileBundle { tile }),
            None => None,
        }
    }

    fn bundle_at(&self, tile_pos: TilePos) -> (r: Option<TileBundle>) {
        match self.maker.tile_at(tile_pos) {
            Some(tile) => Some(TileBundle { tile }),
            None => None,
        }
    }
}

/// Wraps a tile strategy so each answered tile comes back bundled.
///
/// Used for tile, autotile, and int-grid layers with autotile
/// functionality.
pub fn tile_pos_to_tile_bundle_maker<M: TileQuery>(tile_maker: M) -> (r: TileBundleMaker<M>)
    ensures
        r.maker == tile_maker,
{
    TileBundleMaker { maker: tile_maker }
}

/// The cell mask a flat int-grid value array builds: each flat index is
/// converted to its target-orientation cell and records whether the
/// value there is non-zero.
pub open spec fn spec_nonzero_mask(csv: Seq<i32>, width: int, height: int) -> Map<TilePos, bool>
    decreases csv.len(),
{
    if csv.len() == 0 {
        Map::<TilePos, bool>::empty()
    } else {
        spec_nonzero_mask(csv.drop_last(), width, height).insert(
            spec_int_grid_index_to_tile_pos(csv.len() - 1, width, height)->Some_0,
            csv.last() != 0,
        )
    }
}

/// Gates a tile strategy by an int-grid mask: a cell yields a bundle
/// only where the mask holds a true entry and the underlying strategy
/// answers a tile.
pub struct IntGridNonzeroMaker<M: TileQuery> {
    pub maker: M,
    pub mask: HashMap<u64, bool>,
}

impl<M: TileQuery> IntGridNonzeroMaker<M> {
    /// The cell mask this strategy gates by.
    pub open spec fn mask_view(&self) -> Map<TilePos, bool> {
        spec_cell_view(self.mask@)
    }
}

impl<M: TileQuery> TileBundleQuery for IntGridNonzeroMaker<M> {
    open spec fn spec_bundle_at(&self, tile_pos: TilePos) -> Option<TileBundle> {
        if self.mask_view().contains_key(tile_pos) && self.mask_view()[tile_pos] {
            match self.maker.spec_tile_at(tile_pos) {
                Some(tile) => Some(TileBundle { tile }),
                None => None,
            }
        } else {
            None
        }
    }

    fn bundle_at(&self, tile_pos: TilePos) -> (r: Option<TileBundle>) {
        let key = pos_key(tile_pos);
        match self.mask.get(&key) {
            Some(nonzero) if *nonzero => match self.maker.tile_at(tile_pos) {
                Some(tile) => Some(TileBundle { tile }),
                None => None,
            },
            _ => None,
        }
    }
}

/// Builds the strategy that answers the given tile strategy's bundled
/// result exactly at the cells whose int-grid value is non-zero.
///
/// The value array must hold exactly one value per cell of the
/// `width * height` grid; any other length is a data-integrity
/// violation.
pub fn tile_pos_to_tile_bundle_if_int_grid_nonzero_maker<M: TileQuery>(
    tile_maker: M,
    int_grid_csv: &Vec<i32>,
    layer_width_in_tiles: i32,
    layer_height_in_tiles: i32,
) -> (r: IntGridNonzeroMaker<M>)
    requires
        0 <= layer_width_in_tiles,
        0 <= layer_height_in_tiles,
        int_grid_csv@.len() == layer_width_in_tiles as int * layer_height_in_tiles as int,
    ensures
        r.maker == tile_maker,
        r.mask_view() == spec_nonzero_mask(
            int_grid_csv@,
            layer_width_in_tiles as int,
            layer_height_in_tiles as int,
        ),
{
    let ghost w = layer_width_in_tiles as int;
    let ghost h = layer_height_in_tiles as int;

    let mut mask: HashMap<u64, bool> = HashMap::new();
    proof {
        assert(spec_cell_view(mask@) =~= spec_nonzero_mask(int_grid_csv@.subrange(0, 0), w, h));
    }

    let mut i: usize = 0;
    while i < int_grid_csv.len()
        invariant
            i <= int_grid_csv@.len(),
            0 <= layer_width_in_tiles,
            0 <= layer_height_in_tiles,
            int_grid_csv@.len() == w * h,
            w == layer_width_in_tiles as int,
            h == layer_height_in_tiles as int,
            spec_cell_view(mask@) == spec_nonzero_mask(int_grid_csv@.subrange(0, i as int), w, h),
        decreases int_grid_csv@.len() - i,
    {
        let value = int_grid_csv[i];
        let cell_opt = int_grid_index_to_tile_pos(
            i,
            layer_width_in_tiles as u32,
            layer_height_in_tiles as u32,
        );
        let cell = match cell_opt {
            Some(cell) => cell,
            None => {
                proof {
                    assert(0 < w && 0 < h && i < w * h);
                }
                unreached()
            },
        };

        let ghost mask_before = mask@;
        let key = pos_key(cell);
        mask.insert(key, value != 0);
        proof {
            lemma_cell_view_insert(mask_before, cell, value != 0);
            assert(int_grid_csv@.subrange(0, i + 1 as int).drop_last() =~= int_grid_csv@.subrange(
                0,
                i as int,
            ));
            assert(int_grid_csv@.subrange(0, i + 1 as int).last() == int_grid_csv@[i as int]);
        }
        i = i + 1;
    }
    proof {
        assert(int_grid_csv@.subrange(0, int_grid_csv@.len() as int) =~= int_grid_csv@);
    }
    IntGridNonzeroMaker { maker: tile_maker, mask }
}

/// A dense per-layer tile store being filled during materialization:
/// one optional bundle per cell of a `width * height` grid, indexed
/// row-major in target orientation.
pub struct TileLayerBuilder {
    pub width: u32,
    pub height: u32,
    pub tiles: Vec<Option<TileBundle>>,
}

impl TileLayerBuilder {
    /// The stored cells, row-major in target orientation.
    pub open spec fn tiles_view(&self) -> Seq<Option<TileBundle>> {
        self.tiles@
    }

    /// The store holds exactly one slot per cell.
    pub open spec fn wf(&self) -> bool {
        self.tiles_view().len() == self.width as int * self.height as int
    }

    pub open spec fn spec_in_bounds(&self, tile_pos: TilePos) -> bool {
        tile_pos.x < self.width && tile_pos.y < self.height
    }

    /// The bundle stored at a cell; a cell outside the grid holds
    /// nothing.
    pub open spec fn spec_tile_at(&self, tile_pos: TilePos) -> Option<TileBundle> {
        if self.spec_in_bounds(tile_pos) {
            self.tiles_view()[tile_pos.y as int * self.width as int + tile_pos.x as int]
        } else {
            None
        }
    }

    /// An empty store for a `width * height` layer.
    pub fn new(width: u32, height: u32) -> (r: TileLayerBuilder)
        requires
            width as int * height as int <= usize::MAX,
        ensures
            r.wf(),
            r.width == width,
            r.height == height,
            forall|p: TilePos| #[trigger] r.spec_tile_at(p) is None,
    {
        proof {
            lemma_mul_nonneg(width as int, height as int);
        }
        let total: u64 = width as u64 * height as u64;
        let mut tiles: Vec<Option<TileBundle>> = Vec::new();
        let mut i: u64 = 0;
        while i < total
            invariant
                i <= total,
                tiles@.len() == i,
                forall|k: int| 0 <= k < i ==> (#[trigger] tiles@[k]) is None,
            decreases total - i,
        {
            tiles.push(None);
            i = i + 1;
        }
        let r = TileLayerBuilder { width, height, tiles };
        proof {
            assert forall|p: TilePos| #[trigger] r.spec_tile_at(p) is None by {
                if r.spec_in_bounds(p) {
                    lemma_dense_index(p.x as int, p.y as int, width as int, height as int);
                }
            }
        }
        r
    }

    /// Stores a bundle at a cell of the grid.
    pub fn set_tile(&mut self, tile_pos: TilePos, bundle: TileBundle)
        requires
            old(self).wf(),
            old(self).spec_in_bounds(tile_pos),
        ensures
            final(self).wf(),
            final(self).width == old(self).width,
            final(self).height == old(self).height,
            forall|p: TilePos| #[trigger]
                final(self).spec_tile_at(p) == if p == tile_pos {
                    Some(bundle)
                } else {
                    old(self).spec_tile_at(p)
                },
    {
        let total = self.tiles.len();
        proof {
            lemma_dense_index(tile_pos.x as int, tile_pos.y as int, self.width as int, self.height as int);
            assert((tile_pos.y as int) * (self.width as int) + (tile_pos.x as int) < total as int);
        }
        let index: usize = (tile_pos.y as u64 * self.width as u64 + tile_pos.x as u64) as usize;
        self.tiles[index] = Some(bundle);
        proof {
            assert forall|p: TilePos| #[trigger]
                self.spec_tile_at(p) == if p == tile_pos {
                    Some(bundle)
                } else {
                    old(self).spec_tile_at(p)
                } by {
                if p != tile_pos && self.spec_in_bounds(p) {
                    lemma_dense_index(p.x as int, p.y as int, self.width as int, self.height as int);
                    lemma_dense_index_injective(
                        p.x as int,
                        p.y as int,
                        tile_pos.x as int,
                        tile_pos.y as int,
                        self.width as int,
                        self.height as int,
                    );
                }
            }
        }
    }

    /// The bundle stored at a cell, or nothing outside the grid.
    pub fn tile_at(&self, tile_pos: TilePos) -> (r: Option<TileBundle>)
        requires
            self.wf(),
        ensures
            r == self.spec_tile_at(tile_pos),
    {
        if tile_pos.x < self.width && tile_pos.y < self.height {
            let total = self.tiles.len();
            proof {
                lemma_dense_index(tile_pos.x as int, tile_pos.y as int, self.width as int, self.height as int);
                assert((tile_pos.y as int) * (self.width as int) + (tile_pos.x as int) < total as int);
            }
            let index: usize = (tile_pos.y as u64 * self.width as u64 + tile_pos.x as u64) as usize;
            self.tiles[index]
        } else {
            None
        }
    }
}

/// A product of non-negative factors is non-negative.
proof fn lemma_mul_nonneg(a: int, b: int)
    requires
        0 <= a,
        0 <= b,
    ensures
        0 <= a * b,
{
    assert(0 <= a * b) by (nonlinear_arith)
        requires 0 <= a && 0 <= b,
    ;
}

/// A row-major cell index lies inside the dense store.
proof fn lemma_dense_index(x: int, y: int, width: int, height: int)
    requires
        0 <= x < width,
        0 <= y < height,
    ensures
        0 <= y * width + x < width * height,
{
    assert(0 <= y * width + x < width * height) by (nonlinear_arith)
        requires 0 <= x < width && 0 <= y < height,
    ;
}

/// Distinct in-bounds cells occupy distinct slots of the dense store.
proof fn lemma_dense_index_injective(x1: int, y1: int, x2: int, y2: int, width: int, height: int)
    requires
        0 <= x1 < width,
        0 <= y1 < height,
        0 <= x2 < width,
        0 <= y2 < height,
        !(x1 == x2 && y1 == y2),
    ensures
        y1 * width + x1 != y2 * width + x2,
{
    assert(y1 * width + x1 != y2 * width + x2) by (nonlinear_arith)
        requires
            0 <= x1 < width && 0 <= y1 < height && 0 <= x2 < width && 0 <= y2 < height && !(x1
                == x2 && y1 == y2),
    ;
}

} // verus!
