//! The coordinate transform engine: pure conversions between source
//! (Y-down) pixel/grid coordinates, target (Y-up) cell coordinates, and
//! world-space translations, plus entity placement.

use vstd::prelude::*;
use vstd::arithmetic::div_mod::{lemma_fundamental_div_mod, lemma_mod_bound, lemma_div_is_ordered};

use crate::frac::{Frac, Transform, Vec2F, spec_trunc};
use crate::ldtk::{EntityDefinition, EntityInstance, IVec2, TilePos};
use crate::tile_makers::{TileBundleQuery, TileLayerBuilder};

use std::collections::HashMap;

verus! {

broadcast use vstd::std_specs::hash::group_hash_axioms;

/// Bounds the magnitude of a product by the product of the factors'
/// magnitude bounds.
proof fn lemma_abs_mul_le(a: int, b: int, bound_a: int, bound_b: int)
    requires
        -bound_a <= a <= bound_a,
        -bound_b <= b <= bound_b,
        0 <= bound_a,
        0 <= bound_b,
    ensures
        -(bound_a * bound_b) <= a * b <= bound_a * bound_b,
{
    assert(-(bound_a * bound_b) <= a * b <= bound_a * bound_b) by (nonlinear_arith)
        requires
            -bound_a <= a <= bound_a && -bound_b <= b <= bound_b && 0 <= bound_a && 0 <= bound_b,
    ;
}

/// A product of non-negative factors is non-negative.
proof fn lemma_mul_nonneg(a: int, b: int)
    requires
        0 <= a,
        0 <= b,
    ensures
        0 <= a * b,
{
    assert(0 <= a * b) by (nonlinear_arith)
        requires 0 <= a && 0 <= b,
    ;
}

/// The Y-axis inversion at the heart of every source-to-target
/// conversion: row `y` of a span of `extent` rows, counted downward,
/// is row `extent - y - 1` counted upward.
pub open spec fn spec_flip(y: int, extent: int) -> int {
    extent - y - 1
}

/// The single Y-axis inversion primitive: every conversion from source
/// orientation to target orientation passes through exactly one
/// application of this flip, at the appropriate granularity.
pub(crate) fn ldtk_coord_conversion(coords: IVec2, height: i32) -> (r: IVec2)
    requires
        i32::MIN <= spec_flip(coords.y as int, height as int) <= i32::MAX,
    ensures
        r.x == coords.x,
        r.y == spec_flip(coords.y as int, height as int),
{
    let flipped: i64 = height as i64 - coords.y as i64 - 1;
    IVec2 { x: coords.x, y: flipped as i32 }
}

/// The cell position that a flat index into a row-major (source
/// orientation) value array denotes after the flip to target orientation,
/// or `None` when the grid is empty or the index falls outside it.
pub open spec fn spec_int_grid_index_to_tile_pos(index: int, width: int, height: int) -> Option<TilePos> {
    if 0 < width && 0 < height && index < width * height {
        Some(TilePos { x: (index % width) as u32, y: (height - 1 - index / width) as u32 })
    } else {
        None
    }
}

/// Maps an index of a flat row-major int-grid value array to the cell it
/// describes, in target (Y-up) orientation.
///
/// Returns `None` when the grid has zero area or the index lies outside
/// the `width * height` cells of the grid.
pub fn int_grid_index_to_tile_pos(
    index: usize,
    layer_width_in_tiles: u32,
    layer_height_in_tiles: u32,
) -> (r: Option<TilePos>)
    ensures
        r == spec_int_grid_index_to_tile_pos(
            index as int,
            layer_width_in_tiles as int,
            layer_height_in_tiles as int,
        ),
{
    if layer_width_in_tiles == 0 || layer_height_in_tiles == 0 {
        return None;
    }

    let width: u64 = layer_width_in_tiles as u64;
    let height: u64 = layer_height_in_tiles as u64;
    let idx: u64 = index as u64;

    proof {
        assert(width * height <= u32::MAX * u32::MAX) by (nonlinear_arith)
            requires 0 < width <= u32::MAX && 0 < height <= u32::MAX,
        ;
    }

    if idx >= width * height {
        return None;
    }

    proof {
        lemma_mod_bound(idx as int, width as int);
        lemma_fundamental_div_mod(idx as int, width as int);
        assert(idx / width < height) by {
            lemma_div_is_ordered(idx as int, (width * height - 1) as int, width as int);
            lemma_fundamental_div_mod((width * height - 1) as int, width as int);
            lemma_mod_bound((width * height - 1) as int, width as int);
            assert((width * height - 1) as int / width as int <= height - 1) by (nonlinear_arith)
                requires 0 < width && 0 < height,
            ;
        }
    }

    let tile_x: u32 = (idx % width) as u32;
    let inverted_y: u32 = (idx / width) as u32;

    Some(TilePos { x: tile_x, y: layer_height_in_tiles - 1 - inverted_y })
}

/// Converts source-orientation grid-cell coordinates to a target
/// orientation cell position: the flip applied at cell granularity.
///
/// The inputs must land in the unsigned target range; upstream callers
/// guarantee this by only passing coordinates inside the grid.
pub fn ldtk_grid_coords_to_tile_pos(ldtk_coords: IVec2, ldtk_grid_height: i32) -> (r: TilePos)
    requires
        0 <= ldtk_coords.x,
        0 <= spec_flip(ldtk_coords.y as int, ldtk_grid_height as int) <= i32::MAX,
    ensures
        r.x == ldtk_coords.x,
        r.y == spec_flip(ldtk_coords.y as int, ldtk_grid_height as int),
{
    let converted = ldtk_coord_conversion(ldtk_coords, ldtk_grid_height);
    TilePos { x: converted.x as u32, y: converted.y as u32 }
}

/// Exact inverse of [`ldtk_grid_coords_to_tile_pos`]: converts a target
/// orientation cell position back to source-orientation grid coordinates.
pub fn tile_pos_to_ldtk_grid_coords(tile_pos: TilePos, ldtk_grid_height: i32) -> (r: IVec2)
    requires
        tile_pos.x <= i32::MAX,
        tile_pos.y <= i32::MAX,
        i32::MIN <= spec_flip(tile_pos.y as int, ldtk_grid_height as int) <= i32::MAX,
    ensures
        r.x == tile_pos.x,
        r.y == spec_flip(tile_pos.y as int, ldtk_grid_height as int),
{
    ldtk_coord_conversion(
        IVec2 { x: tile_pos.x as i32, y: tile_pos.y as i32 },
        ldtk_grid_height,
    )
}

/// Converting a flat int-grid index to a cell and back reproduces the
/// index: the cell returned by [`int_grid_index_to_tile_pos`] recomposes,
/// through the inverse flip, to the original flat index.
pub proof fn lemma_int_grid_index_round_trip(index: int, width: int, height: int)
    requires
        0 < width <= u32::MAX,
        0 < height <= u32::MAX,
        0 <= index < width * height,
    ensures
        ({
            let pos = spec_int_grid_index_to_tile_pos(index, width, height)->Some_0;
            &&& spec_int_grid_index_to_tile_pos(index, width, height) is Some
            &&& spec_flip(pos.y as int, height) * width + pos.x == index
        }),
{
    lemma_mod_bound(index, width);
    lemma_fundamental_div_mod(index, width);
    assert(index / width < height) by {
        lemma_div_is_ordered(index, width * height - 1, width);
        lemma_fundamental_div_mod(width * height - 1, width);
        lemma_mod_bound(width * height - 1, width);
        assert((width * height - 1) / width <= height - 1) by (nonlinear_arith)
            requires 0 < width && 0 < height,
        ;
    }
    assert(0 <= index / width) by (nonlinear_arith)
        requires 0 <= index && 0 < width && index == width * (index / width) + index % width && 0 <= index % width < width,
    ;
    let pos = spec_int_grid_index_to_tile_pos(index, width, height)->Some_0;
    assert(pos.x == index % width);
    assert(pos.y == height - 1 - index / width);
    assert((height - 1 - pos.y) * width + pos.x == index) by (nonlinear_arith)
        requires
            height - 1 - pos.y == index / width,
            pos.x == index % width,
            index == width * (index / width) + index % width,
    ;
}

/// The Y flip is an involution within a fixed extent, so
/// [`tile_pos_to_ldtk_grid_coords`] is the exact inverse of
/// [`ldtk_grid_coords_to_tile_pos`]: converting grid coordinates to a
/// cell and back — or a cell to grid coordinates and back — reproduces
/// the starting value, for every coordinate both conversions accept.
pub proof fn lemma_flip_involution(y: int, extent: int)
    ensures
        spec_flip(spec_flip(y, extent), extent) == y,
{
}

/// Converts source-orientation pixel coordinates to a world-space
/// translation: the flip applied at pixel granularity.
pub fn ldtk_pixel_coords_to_translation(ldtk_coords: IVec2, ldtk_pixel_height: i32) -> (r: Vec2F)
    ensures
        r.x.is_rat(ldtk_coords.x as int, 1),
        r.y.is_rat(spec_flip(ldtk_coords.y as int, ldtk_pixel_height as int), 1),
{
    let flipped: i64 = ldtk_pixel_height as i64 - ldtk_coords.y as i64 - 1;
    Vec2F {
        x: Frac { num: ldtk_coords.x as i64, den: 1 },
        y: Frac { num: flipped, den: 1 },
    }
}

/// Exact inverse of [`ldtk_pixel_coords_to_translation`] up to
/// truncation: converts a world-space translation back to
/// source-orientation pixel coordinates, truncating fractional
/// components toward zero first.
pub fn translation_to_ldtk_pixel_coords(translation: Vec2F, ldtk_pixel_height: i32) -> (r: IVec2)
    requires
        translation.wf(),
        i32::MIN <= spec_trunc(translation.x.num as int, translation.x.den as int) <= i32::MAX,
        i32::MIN <= spec_flip(
            spec_trunc(translation.y.num as int, translation.y.den as int),
            ldtk_pixel_height as int,
        ) <= i32::MAX,
    ensures
        r.x == spec_trunc(translation.x.num as int, translation.x.den as int),
        r.y == spec_flip(
            spec_trunc(translation.y.num as int, translation.y.den as int),
            ldtk_pixel_height as int,
        ),
{
    let tx: i64 = translation.x.trunc();
    let ty: i64 = translation.y.trunc();
    let flipped: i64 = ldtk_pixel_height as i64 - ty - 1;
    IVec2 { x: tx as i32, y: flipped as i32 }
}

/// Converts source-orientation grid-cell coordinates to the world-space
/// translation of the cell's corner: the cell coordinate scaled to
/// pixels, then flipped within the layer's pixel height.
pub fn ldtk_grid_coords_to_translation(
    ldtk_coords: IVec2,
    ldtk_grid_height: i32,
    grid_size: IVec2,
) -> (r: Vec2F)
    requires
        i64::MIN < (ldtk_grid_height - ldtk_coords.y) * grid_size.y as int - 1 <= i64::MAX,
    ensures
        r.x.is_rat(ldtk_coords.x as int * grid_size.x as int, 1),
        r.y.is_rat(
            spec_flip(ldtk_coords.y as int * grid_size.y as int, ldtk_grid_height as int * grid_size.y as int),
            1,
        ),
{
    proof {
        lemma_abs_mul_le(ldtk_coords.x as int, grid_size.x as int, 0x80000000, 0x80000000);
        lemma_abs_mul_le(
            ldtk_grid_height as int - ldtk_coords.y as int,
            grid_size.y as int,
            0x100000000,
            0x80000000,
        );
        assert((ldtk_grid_height as int - ldtk_coords.y as int) * (grid_size.y as int)
            == ldtk_grid_height as int * grid_size.y as int
                - ldtk_coords.y as int * grid_size.y as int) by (nonlinear_arith);
    }
    let px: i128 = ldtk_coords.x as i128 * grid_size.x as i128;
    let py: i128 = (ldtk_grid_height as i128 - ldtk_coords.y as i128) * grid_size.y as i128 - 1;
    Vec2F {
        x: Frac { num: px as i64, den: 1 },
        y: Frac { num: py as i64, den: 1 },
    }
}

/// Like [`ldtk_grid_coords_to_translation`], but anchored at the cell's
/// center: the corner translation offset by half a cell toward the cell's
/// interior (positive X, negative Y in source orientation).
pub fn ldtk_grid_coords_to_translation_centered(
    ldtk_coords: IVec2,
    ldtk_grid_height: i32,
    grid_size: IVec2,
) -> (r: Vec2F)
    requires
        i64::MIN < 2 * (ldtk_coords.x as int) * (grid_size.x as int) + grid_size.x as int <= i64::MAX,
        i64::MIN < 2 * ((ldtk_grid_height - ldtk_coords.y) * grid_size.y as int - 1) - grid_size.y as int <= i64::MAX,
    ensures
        r.x.is_rat(2 * (ldtk_coords.x as int) * (grid_size.x as int) + grid_size.x as int, 2),
        r.y.is_rat(
            2 * spec_flip(ldtk_coords.y as int * grid_size.y as int, ldtk_grid_height as int * grid_size.y as int)
                - grid_size.y as int,
            2,
        ),
{
    proof {
        lemma_abs_mul_le(2 * (ldtk_coords.x as int), grid_size.x as int, 0x100000000, 0x80000000);
        lemma_abs_mul_le(
            ldtk_grid_height as int - ldtk_coords.y as int,
            grid_size.y as int,
            0x100000000,
            0x80000000,
        );
        assert((ldtk_grid_height as int - ldtk_coords.y as int) * (grid_size.y as int)
            == ldtk_grid_height as int * grid_size.y as int
                - ldtk_coords.y as int * grid_size.y as int) by (nonlinear_arith);
        lemma_abs_mul_le(ldtk_coords.x as int, grid_size.x as int, 0x80000000, 0x80000000);
        assert(2 * (ldtk_coords.x as int) * (grid_size.x as int)
            == 2 * ((ldtk_coords.x as int) * (grid_size.x as int))) by (nonlinear_arith);
    }
    let nx: i128 = 2 * (ldtk_coords.x as i128) * (grid_size.x as i128) + grid_size.x as i128;
    let ny: i128 = 2 * ((ldtk_grid_height as i128 - ldtk_coords.y as i128) * grid_size.y as i128 - 1)
        - grid_size.y as i128;
    Vec2F {
        x: Frac { num: nx as i64, den: 2 },
        y: Frac { num: ny as i64, den: 2 },
    }
}

/// The world-space translation of a target-orientation cell's center:
/// `tile_size * (cell + 1/2)` in each axis.
pub fn tile_pos_to_translation_centered(tile_pos: TilePos, tile_size: IVec2) -> (r: Vec2F)
    requires
        i64::MIN < 2 * (tile_pos.x as int) * (tile_size.x as int) + tile_size.x as int <= i64::MAX,
        i64::MIN < 2 * (tile_pos.y as int) * (tile_size.y as int) + tile_size.y as int <= i64::MAX,
    ensures
        r.x.is_rat(2 * (tile_pos.x as int) * (tile_size.x as int) + tile_size.x as int, 2),
        r.y.is_rat(2 * (tile_pos.y as int) * (tile_size.y as int) + tile_size.y as int, 2),
{
    proof {
        lemma_abs_mul_le(2 * (tile_pos.x as int), tile_size.x as int, 0x200000000, 0x80000000);
        lemma_abs_mul_le(2 * (tile_pos.y as int), tile_size.y as int, 0x200000000, 0x80000000);
    }
    let nx: i128 = 2 * (tile_pos.x as i128) * (tile_size.x as i128) + tile_size.x as i128;
    let ny: i128 = 2 * (tile_pos.y as i128) * (tile_size.y as i128) + tile_size.y as i128;
    Vec2F {
        x: Frac { num: nx as i64, den: 2 },
        y: Frac { num: ny as i64, den: 2 },
    }
}

/// Places a target-orientation cell at its center: the resulting
/// transform puts cell `(0, 0)` at `(tile_size / 2, tile_size / 2)`, at
/// the given layering depth, with unit scale.
pub fn calculate_transform_from_tile_pos(
    tile_pos: TilePos,
    tile_size: u32,
    z_value: i64,
) -> (r: Transform)
    requires
        tile_size as int * (2 * tile_pos.x as int + 1) <= i64::MAX,
        tile_size as int * (2 * tile_pos.y as int + 1) <= i64::MAX,
    ensures
        r.translation.x.is_rat(tile_size as int * (2 * tile_pos.x as int + 1), 2),
        r.translation.y.is_rat(tile_size as int * (2 * tile_pos.y as int + 1), 2),
        r.z == z_value,
        r.scale.x.is_rat(1, 1),
        r.scale.y.is_rat(1, 1),
{
    proof {
        lemma_abs_mul_le(tile_size as int, 2 * tile_pos.x as int + 1, 0x100000000, 0x200000001);
        lemma_abs_mul_le(tile_size as int, 2 * tile_pos.y as int + 1, 0x100000000, 0x200000001);
        lemma_mul_nonneg(tile_size as int, 2 * tile_pos.x as int + 1);
        lemma_mul_nonneg(tile_size as int, 2 * tile_pos.y as int + 1);
    }
    let nx: i128 = tile_size as i128 * (2 * tile_pos.x as i128 + 1);
    let ny: i128 = tile_size as i128 * (2 * tile_pos.y as i128 + 1);
    Transform::from_xyz(
        Frac { num: nx as i64, den: 2 },
        Frac { num: ny as i64, den: 2 },
        z_value,
    )
}

/// A pivot is well-formed when both components are exact fractions in
/// `[0, 1]` with denominators small enough for exact placement
/// arithmetic.
pub open spec fn pivot_wf(pivot: Vec2F) -> bool {
    &&& 0 <= pivot.x.num
    &&& 0 <= pivot.y.num
    &&& pivot.x.num <= pivot.x.den
    &&& pivot.y.num <= pivot.y.den
    &&& 1 <= pivot.x.den <= 0x20000000
    &&& 1 <= pivot.y.den <= 0x20000000
}

/// Numerator of the pivot-adjusted X translation over denominator
/// `2 * pd`: the flipped pixel position plus `size * (1/2 - pivot)`.
pub open spec fn spec_pivoted_num_x(px: int, size_x: int, pn: int, pd: int) -> int {
    2 * pd * px + size_x * (pd - 2 * pn)
}

/// Numerator of the pivot-adjusted Y translation over denominator
/// `2 * pd`: the flipped pixel position plus `size * (pivot - 1/2)`.
pub open spec fn spec_pivoted_num_y(py: int, pixel_height: int, size_y: int, pn: int, pd: int) -> int {
    2 * pd * spec_flip(py, pixel_height) + size_y * (2 * pn - pd)
}

/// Converts a source-orientation pixel position to a world-space
/// translation anchored by a pivot: the flipped position offset by
/// `size * (1/2 - pivot.x, pivot.y - 1/2)`, so that a pivot of
/// `(1/2, 1/2)` anchors dead center and a pivot of `(0, 0)` anchors at
/// the source convention's top-left.
pub fn ldtk_pixel_coords_to_translation_pivoted(
    ldtk_coords: IVec2,
    ldtk_pixel_height: i32,
    grid_size: IVec2,
    pivot: Vec2F,
) -> (r: Vec2F)
    requires
        pivot_wf(pivot),
    ensures
        r.x.is_rat(
            spec_pivoted_num_x(ldtk_coords.x as int, grid_size.x as int, pivot.x.num as int, pivot.x.den as int),
            2 * pivot.x.den,
        ),
        r.y.is_rat(
            spec_pivoted_num_y(
                ldtk_coords.y as int,
                ldtk_pixel_height as int,
                grid_size.y as int,
                pivot.y.num as int,
                pivot.y.den as int,
            ),
            2 * pivot.y.den,
        ),
{
    let pdx: i64 = pivot.x.den;
    let pnx: i64 = pivot.x.num;
    let pdy: i64 = pivot.y.den;
    let pny: i64 = pivot.y.num;

    proof {
        lemma_abs_mul_le(2 * pdx as int, ldtk_coords.x as int, 0x40000000, 0x80000000);
        lemma_abs_mul_le(grid_size.x as int, pdx - 2 * pnx, 0x80000000, 0x20000000);
        lemma_abs_mul_le(
            2 * pdy as int,
            ldtk_pixel_height as int - ldtk_coords.y as int - 1,
            0x40000000,
            0x100000000,
        );
        lemma_abs_mul_le(grid_size.y as int, 2 * pny - pdy, 0x80000000, 0x20000000);
    }

    let nx: i64 = 2 * pdx * (ldtk_coords.x as i64) + (grid_size.x as i64) * (pdx - 2 * pnx);
    let flipped: i64 = ldtk_pixel_height as i64 - ldtk_coords.y as i64 - 1;
    let ny: i64 = 2 * pdy * flipped + (grid_size.y as i64) * (2 * pny - pdy);

    proof {
        assert(nx == spec_pivoted_num_x(
            ldtk_coords.x as int,
            grid_size.x as int,
            pivot.x.num as int,
            pivot.x.den as int,
        ));
        assert(ny == spec_pivoted_num_y(
            ldtk_coords.y as int,
            ldtk_pixel_height as int,
            grid_size.y as int,
            pivot.y.num as int,
            pivot.y.den as int,
        ));
    }

    Vec2F {
        x: Frac { num: nx, den: 2 * pdx },
        y: Frac { num: ny, den: 2 * pdy },
    }
}

/// The unscaled "natural" size an entity instance is rendered from: the
/// tile-crop rectangle when the instance carries one, otherwise its
/// definition's size.
pub open spec fn spec_entity_natural_size(instance: EntityInstance, def: EntityDefinition) -> (int, int) {
    match instance.tile {
        Some(tile) => (tile.src_rect.w as int, tile.src_rect.h as int),
        None => (def.width as int, def.height as int),
    }
}

/// Builds the definition table entity placement looks definitions up in,
/// keyed by definition identifier; a repeated identifier keeps the last
/// definition in input order.
pub open spec fn spec_entity_definition_map(defs: Seq<EntityDefinition>) -> Map<i32, EntityDefinition>
    decreases defs.len(),
{
    if defs.len() == 0 {
        Map::empty()
    } else {
        spec_entity_definition_map(defs.drop_last()).insert(defs.last().uid, defs.last())
    }
}

/// Collects entity definitions into a lookup table keyed by their
/// definition identifiers.
pub fn create_entity_definition_map(entity_definitions: &Vec<EntityDefinition>) -> (r: HashMap<i32, EntityDefinition>)
    ensures
        r@ == spec_entity_definition_map(entity_definitions@),
{
    let mut map: HashMap<i32, EntityDefinition> = HashMap::new();
    let mut i: usize = 0;
    while i < entity_definitions.len()
        invariant
            i <= entity_definitions@.len(),
            map@ == spec_entity_definition_map(entity_definitions@.subrange(0, i as int)),
        decreases entity_definitions@.len() - i,
    {
        let def = entity_definitions[i];
        map.insert(def.uid, def);
        proof {
            assert(entity_definitions@.subrange(0, i + 1 as int).drop_last()
                =~= entity_definitions@.subrange(0, i as int));
        }
        i = i + 1;
    }
    proof {
        assert(entity_definitions@.subrange(0, entity_definitions@.len() as int) =~= entity_definitions@);
    }
    map
}

/// Computes the world-space placement of an entity instance: a
/// pivot-anchored translation at the given layering depth, scaled by the
/// ratio of the instance's size to its natural size.
///
/// The instance's definition identifier must resolve in the definition
/// table — instances and definitions come from one manifest, so a missing
/// definition is a data-integrity violation, not a recoverable state.
pub fn calculate_transform_from_entity_instance(
    entity_instance: &EntityInstance,
    entity_definition_map: &HashMap<i32, EntityDefinition>,
    level_height: i32,
    z_value: i64,
) -> (r: Transform)
    requires
        entity_definition_map@.contains_key(entity_instance.def_uid),
        pivot_wf(entity_instance.pivot),
        spec_entity_natural_size(*entity_instance, entity_definition_map@[entity_instance.def_uid]).0 >= 1,
        spec_entity_natural_size(*entity_instance, entity_definition_map@[entity_instance.def_uid]).1 >= 1,
    ensures
        r.translation.x.is_rat(
            spec_pivoted_num_x(
                entity_instance.px.x as int,
                entity_instance.width as int,
                entity_instance.pivot.x.num as int,
                entity_instance.pivot.x.den as int,
            ),
            2 * entity_instance.pivot.x.den,
        ),
        r.translation.y.is_rat(
            spec_pivoted_num_y(
                entity_instance.px.y as int,
                level_height as int,
                entity_instance.height as int,
                entity_instance.pivot.y.num as int,
                entity_instance.pivot.y.den as int,
            ),
            2 * entity_instance.pivot.y.den,
        ),
        r.z == z_value,
        r.scale.x.is_rat(
            entity_instance.width as int,
            spec_entity_natural_size(*entity_instance, entity_definition_map@[entity_instance.def_uid]).0,
        ),
        r.scale.y.is_rat(
            entity_instance.height as int,
            spec_entity_natural_size(*entity_instance, entity_definition_map@[entity_instance.def_uid]).1,
        ),
{
    let entity_definition = entity_definition_map.get(&entity_instance.def_uid).unwrap();

    let (def_width, def_height): (i32, i32) = match &entity_instance.tile {
        Some(tile) => (tile.src_rect.w, tile.src_rect.h),
        None => (entity_definition.width, entity_definition.height),
    };

    let size = IVec2 { x: entity_instance.width, y: entity_instance.height };

    let translation = ldtk_pixel_coords_to_translation_pivoted(
        entity_instance.px,
        level_height,
        size,
        entity_instance.pivot,
    );

    let scale_x = Frac { num: size.x as i64, den: def_width as i64 };
    let scale_y = Frac { num: size.y as i64, den: def_height as i64 };

    Transform::from_xyz(translation.x, translation.y, z_value).with_scale(scale_x, scale_y)
}

/// Queries a bundle strategy once per cell of a layer's grid and stores
/// every answered bundle; cells the strategy declines keep what the
/// store already held.
///
/// Cells are visited column by column, rows within a column in
/// increasing order.
pub fn set_all_tiles_with_func<F: TileBundleQuery>(
    layer_builder: &mut TileLayerBuilder,
    func: &F,
)
    requires
        old(layer_builder).wf(),
    ensures
        final(layer_builder).wf(),
        final(layer_builder).width == old(layer_builder).width,
        final(layer_builder).height == old(layer_builder).height,
        forall|p: TilePos| #[trigger]
            final(layer_builder).spec_tile_at(p) == if old(layer_builder).spec_in_bounds(p)
                && func.spec_bundle_at(p) is Some {
                func.spec_bundle_at(p)
            } else {
                old(layer_builder).spec_tile_at(p)
            },
{
    let width = layer_builder.width;
    let height = layer_builder.height;
    let mut x: u32 = 0;
    while x < width
        invariant
            x <= width,
            layer_builder.wf(),
            layer_builder.width == old(layer_builder).width,
            layer_builder.height == old(layer_builder).height,
            width == old(layer_builder).width,
            height == old(layer_builder).height,
            forall|p: TilePos| #[trigger]
                layer_builder.spec_tile_at(p) == if p.x < x && old(layer_builder).spec_in_bounds(p)
                    && func.spec_bundle_at(p) is Some {
                    func.spec_bundle_at(p)
                } else {
                    old(layer_builder).spec_tile_at(p)
                },
        decreases width - x,
    {
        let mut y: u32 = 0;
        while y < height
            invariant
                x < width,
                y <= height,
                layer_builder.wf(),
                layer_builder.width == old(layer_builder).width,
                layer_builder.height == old(layer_builder).height,
                width == old(layer_builder).width,
                height == old(layer_builder).height,
                forall|p: TilePos| #[trigger]
                    layer_builder.spec_tile_at(p) == if (p.x < x || (p.x == x && p.y < y))
                        && old(layer_builder).spec_in_bounds(p) && func.spec_bundle_at(p) is Some {
                        func.spec_bundle_at(p)
                    } else {
                        old(layer_builder).spec_tile_at(p)
                    },
            decreases height - y,
        {
            let tile_pos = TilePos { x, y };
            match func.bundle_at(tile_pos) {
                Some(bundle) => {
                    layer_builder.set_tile(tile_pos, bundle);
                },
                None => {},
            }
            y = y + 1;
        }
        x = x + 1;
    }
}

/// Whether a registered optional key matches the queried key under the
/// given specificity: a specific slot matches exactly the queried value,
/// a generic slot matches only the registration `None`.
pub open spec fn spec_key_slot_matches<T: PartialEq>(registered: Option<T>, queried: T, specific: bool) -> bool {
    if specific {
        match registered {
            Some(k) => vstd::std_specs::cmp::PartialEqSpec::eq_spec(&k, &queried),
            None => false,
        }
    } else {
        registered is None
    }
}

/// The first registration, in table order, whose key pair matches the
/// queried pair at the given specificity of each slot.
pub open spec fn spec_table_lookup<A: PartialEq, B: PartialEq, L>(
    table: Seq<((Option<A>, Option<B>), L)>,
    a: A,
    b: B,
    specific_a: bool,
    specific_b: bool,
) -> Option<L>
    decreases table.len(),
{
    if table.len() == 0 {
        None
    } else if spec_key_slot_matches(table[0].0.0, a, specific_a) && spec_key_slot_matches(
        table[0].0.1,
        b,
        specific_b,
    ) {
        Some(table[0].1)
    } else {
        spec_table_lookup(table.skip(1), a, b, specific_a, specific_b)
    }
}

/// The registration a two-key query resolves to: the four key-pattern
/// permutations are tried from most to least specific —
/// (specific, specific), then (generic, specific), then
/// (specific, generic), then (generic, generic) — and the first
/// permutation with a registered match wins.
pub open spec fn spec_resolve_registration<A: PartialEq, B: PartialEq, L>(
    table: Seq<((Option<A>, Option<B>), L)>,
    a: A,
    b: B,
) -> Option<L> {
    if spec_table_lookup(table, a, b, true, true) is Some {
        spec_table_lookup(table, a, b, true, true)
    } else if spec_table_lookup(table, a, b, false, true) is Some {
        spec_table_lookup(table, a, b, false, true)
    } else if spec_table_lookup(table, a, b, true, false) is Some {
        spec_table_lookup(table, a, b, true, false)
    } else {
        spec_table_lookup(table, a, b, false, false)
    }
}

fn key_slot_matches<T: PartialEq>(registered: &Option<T>, queried: &T, specific: bool) -> (r: bool)
    requires
        <T as vstd::std_specs::cmp::PartialEqSpec>::obeys_eq_spec(),
    ensures
        r == spec_key_slot_matches(*registered, *queried, specific),
{
    if specific {
        match registered {
            Some(k) => k == queried,
            None => false,
        }
    } else {
        registered.is_none()
    }
}

fn table_lookup<'a, A: PartialEq, B: PartialEq, L>(
    table: &'a Vec<((Option<A>, Option<B>), L)>,
    a: &A,
    b: &B,
    specific_a: bool,
    specific_b: bool,
) -> (r: Option<&'a L>)
    requires
        <A as vstd::std_specs::cmp::PartialEqSpec>::obeys_eq_spec(),
        <B as vstd::std_specs::cmp::PartialEqSpec>::obeys_eq_spec(),
    ensures
        match r {
            Some(l) => spec_table_lookup(table@, *a, *b, specific_a, specific_b) == Some(*l),
            None => spec_table_lookup(table@, *a, *b, specific_a, specific_b) is None,
        },
{
    let mut i: usize = 0;
    proof {
        assert(table@.skip(0) =~= table@);
    }
    while i < table.len()
        invariant
            <A as vstd::std_specs::cmp::PartialEqSpec>::obeys_eq_spec(),
            <B as vstd::std_specs::cmp::PartialEqSpec>::obeys_eq_spec(),
            i <= table@.len(),
            spec_table_lookup(table@, *a, *b, specific_a, specific_b) == spec_table_lookup(
                table@.skip(i as int),
                *a,
                *b,
                specific_a,
                specific_b,
            ),
        decreases table@.len() - i,
    {
        let entry = &table[i];
        let matches_a = key_slot_matches(&entry.0.0, a, specific_a);
        let matches_b = key_slot_matches(&entry.0.1, b, specific_b);
        proof {
            assert(table@.skip(i as int)[0] == table@[i as int]);
        }
        if matches_a && matches_b {
            return Some(&table[i].1);
        }
        proof {
            assert(table@.skip(i as int).skip(1) =~= table@.skip(i + 1 as int));
        }
        i = i + 1;
    }
    proof {
        assert(table@.skip(table@.len() as int).len() == 0);
    }
    None
}

/// Tries each `Some`/`None` specificity permutation of the two queried
/// keys against the registration table, in the order
/// (`Some`, `Some`), (`None`, `Some`), (`Some`, `None`), (`None`, `None`),
/// and returns the first registration found.
///
/// This order encodes the defaulting rule: an exact dual-key match beats
/// "any first key with this second key", which beats "this first key
/// regardless of the second", which beats the fully generic
/// registration.
pub fn try_each_optional_permutation<'a, A: PartialEq, B: PartialEq, L>(
    a: &A,
    b: &B,
    table: &'a Vec<((Option<A>, Option<B>), L)>,
) -> (r: Option<&'a L>)
    requires
        <A as vstd::std_specs::cmp::PartialEqSpec>::obeys_eq_spec(),
        <B as vstd::std_specs::cmp::PartialEqSpec>::obeys_eq_spec(),
    ensures
        match r {
            Some(l) => spec_resolve_registration(table@, *a, *b) == Some(*l),
            None => spec_resolve_registration(table@, *a, *b) is None,
        },
{
    let specific_both = table_lookup(table, a, b, true, true);
    if specific_both.is_some() {
        return specific_both;
    }
    let generic_a = table_lookup(table, a, b, false, true);
    if generic_a.is_some() {
        return generic_a;
    }
    let generic_b = table_lookup(table, a, b, true, false);
    if generic_b.is_some() {
        return generic_b;
    }
    table_lookup(table, a, b, false, false)
}

/// Resolves which registration handles a two-key instance, falling back
/// to the given default handler when no permutation of the keys is
/// registered.
pub fn ldtk_map_get_or_default<'a, A: PartialEq, B: PartialEq, L>(
    a: &A,
    b: &B,
    default: &'a L,
    map: &'a Vec<((Option<A>, Option<B>), L)>,
) -> (r: &'a L)
    requires
        <A as vstd::std_specs::cmp::PartialEqSpec>::obeys_eq_spec(),
        <B as vstd::std_specs::cmp::PartialEqSpec>::obeys_eq_spec(),
    ensures
        match spec_resolve_registration(map@, *a, *b) {
            Some(l) => *r == l,
            None => r == default,
        },
{
    match try_each_optional_permutation(a, b, map) {
        Some(l) => l,
        None => default,
    }
}

} // verus!
