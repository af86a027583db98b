//! The level registry: resolves a parsed project manifest into an
//! insertion-ordered index from level identifier to level metadata,
//! resolving background-image, tileset and external-level references
//! into asset paths, and answers level lookups by identifier, by flat
//! position, and by (world, position) pair.

use vstd::prelude::*;
use vstd::string::StringExecFns;

use indexmap::IndexMap;

use std::collections::HashMap;

use crate::ldtk::{LdtkJson, Level, TilesetDefinition};

verus! {

broadcast use vstd::std_specs::hash::group_hash_axioms;

#[verifier::external_type_specification]
#[verifier::external_body]
#[verifier::reject_recursive_types(K)]
#[verifier::reject_recursive_types(V)]
#[verifier::reject_recursive_types(S)]
pub struct ExIndexMap<K, V, S>(IndexMap<K, V, S>);

/// What the insertion-ordered identifier index holds: its entries, in
/// order, each an identifier paired with a level position.
pub uninterp spec fn level_index_entries(m: IndexMap<String, usize>) -> Seq<(Seq<char>, usize)>;

/// Relies on indexmap::IndexMap::new: a newly created map has no
/// entries.
#[verifier::external_body]
fn index_map_new() -> (m: IndexMap<String, usize>)
    ensures
        level_index_entries(m) == Seq::<(Seq<char>, usize)>::empty(),
{
    IndexMap::new()
}

/// Relies on indexmap::IndexMap::insert: an equivalent key keeps its
/// place in the order and gets the new value, the old value coming back;
/// an absent key is appended last, and `None` comes back.
#[verifier::external_body]
fn index_map_insert(m: &mut IndexMap<String, usize>, key: String, value: usize) -> (prev: Option<
    usize,
>)
    ensures
        ({
            let old_entries = level_index_entries(*old(m));
            let new_entries = level_index_entries(*final(m));
            if exists|j: int| 0 <= j < old_entries.len() && old_entries[j].0 == key@ {
                let j = choose|j: int| 0 <= j < old_entries.len() && old_entries[j].0 == key@;
                &&& new_entries == old_entries.update(j, (key@, value))
                &&& prev == Some(old_entries[j].1)
            } else {
                &&& new_entries == old_entries.push((key@, value))
                &&& prev is None
            }
        }),
{
    m.insert(key, value)
}

/// Relies on indexmap::IndexMap::get: the value of the entry with an
/// equivalent key, or `None` when no entry has one.
#[verifier::external_body]
fn index_map_get(m: &IndexMap<String, usize>, key: &String) -> (r: Option<usize>)
    ensures
        ({
            let entries = level_index_entries(*m);
            match r {
                Some(v) => exists|j: int|
                    0 <= j < entries.len() && entries[j].0 == key@ && entries[j].1 == v,
                None => forall|j: int| 0 <= j < entries.len() ==> entries[j].0 != key@,
            }
        }),
{
    m.get(key).copied()
}

/// Relies on indexmap::IndexMap::get_index: the entry at a position in
/// insertion order, or `None` past the end.
#[verifier::external_body]
fn index_map_get_index(m: &IndexMap<String, usize>, index: usize) -> (r: Option<usize>)
    ensures
        ({
            let entries = level_index_entries(*m);
            if index < entries.len() {
                r == Some(entries[index as int].1)
            } else {
                r is None
            }
        }),
{
    m.get_index(index).map(|(_, v)| *v)
}

/// The position a level occupies: its world, when the project uses the
/// multi-world layout, and its position within that world's or the flat
/// level list.
#[derive(Clone, Copy, Debug, PartialEq, Eq)]
pub struct LevelIndices {
    pub world_index: Option<usize>,
    pub level_index: usize,
}

impl LevelIndices {
    pub fn new(world_index: Option<usize>, level_index: usize) -> (r: LevelIndices)
        ensures
            r.world_index == world_index,
            r.level_index == level_index,
    {
        LevelIndices { world_index, level_index }
    }
}

/// Per-level resolution results: where the level sits, its resolved
/// background-image path if it has one, and — when levels are stored
/// externally — the resolved path of its external payload.
///
/// Created once per level during project resolution and immutable
/// afterward.
#[derive(Clone, Debug)]
pub struct LevelMetadata {
    pub bg_image: Option<String>,
    pub indices: LevelIndices,
    pub external_handle: Option<String>,
}

/// The abstract value of a [`LevelMetadata`]: its paths as character
/// sequences.
pub ghost struct LevelMetadataView {
    pub bg_image: Option<Seq<char>>,
    pub indices: LevelIndices,
    pub external_handle: Option<Seq<char>>,
}

impl View for LevelMetadata {
    type V = LevelMetadataView;

    open spec fn view(&self) -> LevelMetadataView {
        LevelMetadataView {
            bg_image: match self.bg_image {
                Some(p) => Some(p@),
                None => None,
            },
            indices: self.indices,
            external_handle: match self.external_handle {
                Some(p) => Some(p@),
                None => None,
            },
        }
    }
}

impl LevelMetadata {
    pub fn new(
        bg_image: Option<String>,
        indices: LevelIndices,
        external_handle: Option<String>,
    ) -> (r: LevelMetadata)
        ensures
            r.bg_image == bg_image,
            r.indices == indices,
            r.external_handle == external_handle,
    {
        LevelMetadata { bg_image, indices, external_handle }
    }
}

/// A caller-supplied policy selecting one level of a project.
#[derive(Clone, Debug)]
pub enum LevelSelection {
    /// Select by the level's human-readable identifier.
    Identifier(String),
    /// Select by flat position in the identifier index.
    Index(usize),
    /// Select by the level's unique instance identifier.
    Iid(String),
    /// Select by the level's numeric unique identifier.
    Uid(i32),
}

/// Whether a selection policy matches the level at a given iteration
/// position.
pub open spec fn spec_is_match(sel: LevelSelection, index: int, level: Level) -> bool {
    match sel {
        LevelSelection::Identifier(s) => s@ == level.identifier@,
        LevelSelection::Index(i) => i == index,
        LevelSelection::Iid(s) => s@ == level.iid@,
        LevelSelection::Uid(u) => u == level.uid,
    }
}

impl LevelSelection {
    /// Tests this policy against the level at iteration position
    /// `index`.
    pub fn is_match(&self, index: usize, level: &Level) -> (r: bool)
        ensures
            r == spec_is_match(*self, index as int, *level),
    {
        match self {
            LevelSelection::Identifier(s) => s.eq(&level.identifier),
            LevelSelection::Index(i) => *i == index,
            LevelSelection::Iid(s) => s.eq(&level.iid),
            LevelSelection::Uid(u) => *u == level.uid,
        }
    }
}

/// A reference relative to the project file resolved to an asset path:
/// the project's directory joined with the relative path.
pub open spec fn spec_join(base: Seq<char>, rel: Seq<char>) -> Seq<char> {
    if base.len() == 0 {
        rel
    } else {
        base + seq!['/'] + rel
    }
}

fn ldtk_path_to_asset_path(base_dir: &str, rel_path: &str) -> (r: String)
    ensures
        r@ == spec_join(base_dir@, rel_path@),
{
    proof {
        reveal_strlit("/");
    }
    if base_dir.is_empty() {
        rel_path.to_owned()
    } else {
        let mut joined = base_dir.to_owned();
        joined.append("/");
        joined.append(rel_path);
        proof {
            assert(joined@ =~= base_dir@ + seq!['/'] + rel_path@);
        }
        joined
    }
}

/// The identifier index a level list resolves to: one entry per level in
/// order, keyed by instance identifier; a level whose identifier was
/// already registered replaces that entry's value in place.
pub open spec fn spec_level_entries(levels: Seq<Level>) -> Seq<(Seq<char>, usize)>
    decreases levels.len(),
{
    if levels.len() == 0 {
        Seq::empty()
    } else {
        let prev = spec_level_entries(levels.drop_last());
        let key = levels.last().iid@;
        let value = (levels.len() - 1) as usize;
        if exists|j: int| 0 <= j < prev.len() && prev[j].0 == key {
            prev.update(choose|j: int| 0 <= j < prev.len() && prev[j].0 == key, (key, value))
        } else {
            prev.push((key, value))
        }
    }
}

/// The metadata a level resolves to at position `i` of the flat list.
pub open spec fn spec_metadata_view(
    level: Level,
    i: int,
    base: Seq<char>,
    external: bool,
) -> LevelMetadataView {
    LevelMetadataView {
        bg_image: match level.bg_rel_path {
            Some(p) => Some(spec_join(base, p@)),
            None => None,
        },
        indices: LevelIndices { world_index: None, level_index: i as usize },
        external_handle: if external {
            Some(spec_join(base, level.external_rel_path->Some_0@))
        } else {
            None
        },
    }
}

/// The background-image asset paths a level list contributes, in level
/// order.
pub open spec fn spec_background_paths(levels: Seq<Level>, base: Seq<char>) -> Seq<Seq<char>>
    decreases levels.len(),
{
    if levels.len() == 0 {
        Seq::empty()
    } else {
        let prev = spec_background_paths(levels.drop_last(), base);
        match levels.last().bg_rel_path {
            Some(p) => prev.push(spec_join(base, p@)),
            None => prev,
        }
    }
}

/// The external-payload asset paths a level list contributes, in level
/// order.
pub open spec fn spec_external_paths(levels: Seq<Level>, base: Seq<char>) -> Seq<Seq<char>>
    decreases levels.len(),
{
    if levels.len() == 0 {
        Seq::empty()
    } else {
        spec_external_paths(levels.drop_last(), base).push(
            spec_join(base, levels.last().external_rel_path->Some_0@),
        )
    }
}

/// The tileset image asset paths a tileset table contributes, in table
/// order; a tileset without a relative path contributes nothing.
pub open spec fn spec_tileset_rel_paths(
    tilesets: Seq<TilesetDefinition>,
    base: Seq<char>,
) -> Seq<Seq<char>>
    decreases tilesets.len(),
{
    if tilesets.len() == 0 {
        Seq::empty()
    } else {
        let prev = spec_tileset_rel_paths(tilesets.drop_last(), base);
        match tilesets.last().rel_path {
            Some(p) => prev.push(spec_join(base, p@)),
            None => prev,
        }
    }
}

/// The tileset-identifier-to-image-path table a tileset table resolves
/// to: only tilesets with a relative path are resolvable; one with an
/// embedded-icon marker or with neither is skipped, not an error.
pub open spec fn spec_tileset_path_map(
    tilesets: Seq<TilesetDefinition>,
    base: Seq<char>,
) -> Map<i32, Seq<char>>
    decreases tilesets.len(),
{
    if tilesets.len() == 0 {
        Map::empty()
    } else {
        let prev = spec_tileset_path_map(tilesets.drop_last(), base);
        match tilesets.last().rel_path {
            Some(p) => prev.insert(tilesets.last().uid, spec_join(base, p@)),
            None => prev,
        }
    }
}

/// The abstract value of a tileset-identifier-to-image-path table.
pub open spec fn spec_string_map_view(m: Map<i32, String>) -> Map<i32, Seq<char>> {
    Map::new(|k: i32| m.contains_key(k), |k: i32| m[k]@)
}

/// The resolved project: the raw manifest, the tileset image index, and
/// the insertion-ordered level index. Built once at load time and
/// read-only afterward.
pub struct LdtkProject {
    /// Raw manifest data.
    pub data: LdtkJson,
    /// Map from tileset identifiers to resolved image asset paths.
    pub tileset_map: HashMap<i32, String>,
    /// Insertion-ordered map from level instance identifier to position
    /// in the flat level list.
    pub level_map: IndexMap<String, usize>,
    /// Per-level resolution results, one per level of the flat list.
    pub level_metadata: Vec<LevelMetadata>,
}

/// The registry invariant loading establishes: the identifier index has
/// distinct keys, each entry points at the level carrying its key, and
/// each level of the flat list has its metadata recorded at its own
/// position.
pub open spec fn spec_project_wf(p: LdtkProject) -> bool {
    let entries = level_index_entries(p.level_map);
    &&& forall|j: int|
        0 <= j < entries.len() ==> (#[trigger] entries[j]).1 < p.data.levels@.len()
            && p.data.levels@[entries[j].1 as int].iid@ == entries[j].0
    &&& forall|j: int, k: int|
        0 <= j < k < entries.len() ==> (#[trigger] entries[j]).0 != (#[trigger] entries[k]).0
    &&& p.level_metadata@.len() == p.data.levels@.len()
    &&& forall|i: int|
        0 <= i < p.level_metadata@.len() ==> (#[trigger] p.level_metadata@[i]).indices
            == (LevelIndices { world_index: None, level_index: i as usize })
}

/// The level a (world, position) pair denotes: a position within the
/// named world's level list, or within the flat list when no world is
/// given.
pub open spec fn spec_level_at(data: LdtkJson, indices: LevelIndices) -> Option<Level> {
    match indices.world_index {
        Some(wi) => if wi < data.worlds@.len() && indices.level_index
            < data.worlds@[wi as int].levels@.len() {
            Some(data.worlds@[wi as int].levels@[indices.level_index as int])
        } else {
            None
        },
        None => if indices.level_index < data.levels@.len() {
            Some(data.levels@[indices.level_index as int])
        } else {
            None
        },
    }
}

/// All levels of the project in iteration order: the flat list, then
/// each world's levels in world order.
pub open spec fn spec_world_levels(worlds: Seq<crate::ldtk::World>) -> Seq<Level>
    decreases worlds.len(),
{
    if worlds.len() == 0 {
        Seq::empty()
    } else {
        spec_world_levels(worlds.drop_last()) + worlds.last().levels@
    }
}

/// All levels of the project in iteration order.
pub open spec fn spec_all_levels(data: LdtkJson) -> Seq<Level> {
    data.levels@ + spec_world_levels(data.worlds@)
}

/// The iteration position of the first level a selection policy
/// matches, scanning from `offset`.
pub open spec fn spec_find_match_from(
    levels: Seq<Level>,
    sel: LevelSelection,
    offset: int,
) -> Option<int>
    decreases levels.len(),
{
    if levels.len() == 0 {
        None
    } else if spec_is_match(sel, offset, levels[0]) {
        Some(offset)
    } else {
        spec_find_match_from(levels.skip(1), sel, offset + 1)
    }
}

impl LdtkProject {
    /// All levels existent in the project, in iteration order: the flat
    /// level list, then each world's levels.
    ///
    /// With external level storage these levels carry incomplete data:
    /// their layer instances live in the external payloads.
    pub fn iter_raw_levels(&self) -> (r: Vec<&Level>)
        ensures
            r@.len() == spec_all_levels(self.data).len(),
            forall|k: int| 0 <= k < r@.len() ==> *(#[trigger] r@[k]) == spec_all_levels(self.data)[k],
    {
        let ghost all = spec_all_levels(self.data);
        let mut out: Vec<&Level> = Vec::new();
        let mut i: usize = 0;
        while i < self.data.levels.len()
            invariant
                i <= self.data.levels@.len(),
                out@.len() == i,
                all == spec_all_levels(self.data),
                forall|k: int| 0 <= k < i ==> *(#[trigger] out@[k]) == self.data.levels@[k],
            decreases self.data.levels@.len() - i,
        {
            out.push(&self.data.levels[i]);
            i = i + 1;
        }
        let mut w: usize = 0;
        while w < self.data.worlds.len()
            invariant
                w <= self.data.worlds@.len(),
                all == spec_all_levels(self.data),
                out@.len() == self.data.levels@.len() + spec_world_levels(
                    self.data.worlds@.subrange(0, w as int),
                ).len(),
                forall|k: int|
                    0 <= k < out@.len() ==> *(#[trigger] out@[k]) == (self.data.levels@
                        + spec_world_levels(self.data.worlds@.subrange(0, w as int)))[k],
            decreases self.data.worlds@.len() - w,
        {
            let world = &self.data.worlds[w];
            let ghost base = self.data.levels@ + spec_world_levels(
                self.data.worlds@.subrange(0, w as int),
            );
            let ghost base_len = out@.len() as int;
            let mut j: usize = 0;
            while j < world.levels.len()
                invariant
                    j <= world.levels@.len(),
                    world == &self.data.worlds@[w as int],
                    w < self.data.worlds@.len(),
                    out@.len() == base_len + j,
                    base_len == base.len(),
                    base == self.data.levels@ + spec_world_levels(
                        self.data.worlds@.subrange(0, w as int),
                    ),
                    forall|k: int| 0 <= k < base_len ==> *(#[trigger] out@[k]) == base[k],
                    forall|k: int|
                        base_len <= k < out@.len() ==> *(#[trigger] out@[k]) == world.levels@[k
                            - base_len],
                decreases world.levels@.len() - j,
            {
                out.push(&world.levels[j]);
                j = j + 1;
            }
            proof {
                assert(self.data.worlds@.subrange(0, w + 1 as int).drop_last()
                    =~= self.data.worlds@.subrange(0, w as int));
                assert(spec_world_levels(self.data.worlds@.subrange(0, w + 1 as int))
                    == spec_world_levels(self.data.worlds@.subrange(0, w as int))
                    + world.levels@);
                assert forall|k: int| 0 <= k < out@.len() implies *(#[trigger] out@[k]) == (
                self.data.levels@ + spec_world_levels(
                    self.data.worlds@.subrange(0, w + 1 as int),
                ))[k] by {
                    if k < base_len {
                        assert(*out@[k] == base[k]);
                    }
                }
            }
            w = w + 1;
        }
        proof {
            assert(self.data.worlds@.subrange(0, self.data.worlds@.len() as int)
                =~= self.data.worlds@);
        }
        out
    }

    /// Looks a level up by its (world, position) pair.
    pub fn get_raw_level_by_indices(&self, indices: &LevelIndices) -> (r: Option<&Level>)
        ensures
            match r {
                Some(l) => spec_level_at(self.data, *indices) == Some(*l),
                None => spec_level_at(self.data, *indices) is None,
            },
    {
        match indices.world_index {
            Some(world_index) => {
                if world_index < self.data.worlds.len() {
                    let world = &self.data.worlds[world_index];
                    if indices.level_index < world.levels.len() {
                        Some(&world.levels[indices.level_index])
                    } else {
                        None
                    }
                } else {
                    None
                }
            },
            None => {
                if indices.level_index < self.data.levels.len() {
                    Some(&self.data.levels[indices.level_index])
                } else {
                    None
                }
            },
        }
    }

    /// Looks a level up by its instance identifier.
    pub fn get_raw_level_by_iid(&self, iid: &String) -> (r: Option<&Level>)
        requires
            spec_project_wf(*self),
        ensures
            ({
                let entries = level_index_entries(self.level_map);
                match r {
                    Some(l) => exists|j: int|
                        0 <= j < entries.len() && (#[trigger] entries[j]).0 == iid@ && *l
                            == self.data.levels@[entries[j].1 as int],
                    None => forall|j: int|
                        0 <= j < entries.len() ==> (#[trigger] entries[j]).0 != iid@,
                }
            }),
    {
        match index_map_get(&self.level_map, iid) {
            Some(level_index) => {
                let metadata = &self.level_metadata[level_index];
                self.get_raw_level_by_indices(&metadata.indices)
            },
            None => None,
        }
    }

    /// Looks a level up by its flat position in the identifier index.
    pub fn get_raw_level_by_index(&self, index: usize) -> (r: Option<&Level>)
        requires
            spec_project_wf(*self),
        ensures
            ({
                let entries = level_index_entries(self.level_map);
                match r {
                    Some(l) => index < entries.len() && *l
                        == self.data.levels@[entries[index as int].1 as int],
                    None => index >= entries.len(),
                }
            }),
    {
        match index_map_get_index(&self.level_map, index) {
            Some(level_index) => {
                let metadata = &self.level_metadata[level_index];
                self.get_raw_level_by_indices(&metadata.indices)
            },
            None => None,
        }
    }

    /// Finds the level a selection policy denotes: identifier-index
    /// lookups for instance-identifier and positional policies, and a
    /// first-match scan in iteration order for the rest.
    pub fn find_raw_level_by_level_selection(&self, level_selection: &LevelSelection) -> (r: Option<
        &Level,
    >)
        requires
            spec_project_wf(*self),
        ensures
            ({
                let entries = level_index_entries(self.level_map);
                match *level_selection {
                    LevelSelection::Iid(iid) => match r {
                        Some(l) => exists|j: int|
                            0 <= j < entries.len() && (#[trigger] entries[j]).0 == iid@ && *l
                                == self.data.levels@[entries[j].1 as int],
                        None => forall|j: int|
                            0 <= j < entries.len() ==> (#[trigger] entries[j]).0 != iid@,
                    },
                    LevelSelection::Index(index) => match r {
                        Some(l) => index < entries.len() && *l
                            == self.data.levels@[entries[index as int].1 as int],
                        None => index >= entries.len(),
                    },
                    _ => match r {
                        Some(l) => ({
                            let found = spec_find_match_from(
                                spec_all_levels(self.data),
                                *level_selection,
                                0,
                            );
                            &&& found is Some
                            &&& 0 <= found->Some_0 < spec_all_levels(self.data).len()
                            &&& *l == spec_all_levels(self.data)[found->Some_0]
                        }),
                        None => spec_find_match_from(
                            spec_all_levels(self.data),
                            *level_selection,
                            0,
                        ) is None,
                    },
                }
            }),
    {
        match level_selection {
            LevelSelection::Iid(iid) => self.get_raw_level_by_iid(iid),
            LevelSelection::Index(index) => self.get_raw_level_by_index(*index),
            _ => {
                proof {
                    assert(!(*level_selection is Iid) && !(*level_selection is Index));
                }
                let all = self.iter_raw_levels();
                let ghost all_levels = spec_all_levels(self.data);
                let mut i: usize = 0;
                proof {
                    assert(all_levels.skip(0) =~= all_levels);
                }
                while i < all.len()
                    invariant
                        !(*level_selection is Iid),
                        !(*level_selection is Index),
                        i <= all@.len(),
                        all@.len() == all_levels.len(),
                        all_levels == spec_all_levels(self.data),
                        forall|k: int| 0 <= k < all@.len() ==> *(#[trigger] all@[k]) == all_levels[k],
                        spec_find_match_from(all_levels, *level_selection, 0)
                            == spec_find_match_from(all_levels.skip(i as int), *level_selection, i as int),
                    decreases all@.len() - i,
                {
                    let level = all[i];
                    proof {
                        assert(all_levels.skip(i as int)[0] == all_levels[i as int]);
                        assert(*all@[i as int] == all_levels[i as int]);
                    }
                    if level_selection.is_match(i, level) {
                        proof {
                            assert(spec_find_match_from(
                                all_levels.skip(i as int),
                                *level_selection,
                                i as int,
                            ) == Some(i as int));
                            assert(spec_find_match_from(
                                spec_all_levels(self.data),
                                *level_selection,
                                0,
                            ) == Some(i as int));
                            assert(*level == spec_all_levels(self.data)[i as int]);
                        }
                        return Some(level);
                    }
                    proof {
                        assert(all_levels.skip(i as int).skip(1) =~= all_levels.skip(i + 1 as int));
                    }
                    i = i + 1;
                }
                proof {
                    assert(all_levels.skip(all_levels.len() as int).len() == 0);
                }
                None
            },
        }
    }
}

/// The resolution errors that abort a project load.
#[derive(Clone, Copy, Debug, PartialEq, Eq, Structural)]
pub enum LdtkProjectLoaderError {
    /// Loading is configured for external levels, but the manifest
    /// declares inline levels.
    InternalLevelProject,
    /// The manifest declares external levels, but loading is configured
    /// for inline levels.
    ExternalLevelProject,
    /// The manifest declares inline levels, but a level's layer
    /// instances are null.
    InternalLevelWithNullLayers,
}

/// Everything a resolved project load produces: the registry itself and
/// the asset paths it depends on, for the surrounding asset machinery to
/// fetch.
pub struct LoadedProject {
    pub project: LdtkProject,
    pub tileset_rel_paths: Vec<String>,
    pub external_level_paths: Vec<String>,
    pub background_images: Vec<String>,
}

/// Resolves project manifests into level registries under one of two
/// mutually exclusive storage modes: inline level payloads, or payloads
/// stored in external files. The configured mode is validated against
/// the manifest's own declared mode.
pub struct LdtkProjectLoader {
    /// Whether level payloads are expected to live in external files.
    pub external_levels: bool,
}

impl Default for LdtkProjectLoader {
    fn default() -> (r: LdtkProjectLoader)
        ensures
            r.external_levels == false,
    {
        LdtkProjectLoader { external_levels: false }
    }
}

/// What resolving one level produces: the level's metadata, plus the
/// asset paths the level depends on, for the caller to collect.
struct LoadLevelMetadataResult {
    bg_image_path: Option<String>,
    external_level_path: Option<String>,
    level_metadata: LevelMetadata,
}

impl LdtkProjectLoader {
    /// Resolves one level's references into its metadata: its
    /// background image if it names one, and — in external-levels mode —
    /// its external payload. In inline mode a level without inline layer
    /// data is a fatal malformed payload.
    fn load_level_metadata(&self, base_dir: &str, level_index: usize, level: &Level) -> (r: Result<
        LoadLevelMetadataResult,
        LdtkProjectLoaderError,
    >)
        requires
            self.external_levels ==> level.external_rel_path is Some,
        ensures
            r is Ok <==> (self.external_levels || level.layer_instances is Some),
            r is Err ==> r == Err::<LoadLevelMetadataResult, _>(
                LdtkProjectLoaderError::InternalLevelWithNullLayers,
            ),
            r matches Ok(result) ==> ({
                &&& result.level_metadata@ == spec_metadata_view(
                    *level,
                    level_index as int,
                    base_dir@,
                    self.external_levels,
                )
                &&& result.level_metadata.indices == (LevelIndices {
                    world_index: None,
                    level_index,
                })
                &&& spec_opt_str_view(result.bg_image_path) == (match level.bg_rel_path {
                    Some(p) => Some(spec_join(base_dir@, p@)),
                    None => None,
                })
                &&& self.external_levels ==> (result.external_level_path is Some
                    && result.external_level_path->Some_0@ == spec_join(
                    base_dir@,
                    level.external_rel_path->Some_0@,
                ))
                &&& !self.external_levels ==> result.external_level_path is None
            }),
    {
        let bg_image_path: Option<String> = match &level.bg_rel_path {
            Some(rel) => Some(ldtk_path_to_asset_path(base_dir, rel.as_str())),
            None => None,
        };
        let bg_image = match &bg_image_path {
            Some(path) => Some(path.clone()),
            None => None,
        };

        let (external_level_path, external_handle): (Option<String>, Option<String>) = if self
            .external_levels {
            let rel = match &level.external_rel_path {
                Some(rel) => rel,
                None => unreached(),
            };
            let path = ldtk_path_to_asset_path(base_dir, rel.as_str());
            (Some(path.clone()), Some(path))
        } else {
            if level.layer_instances.is_none() {
                return Err(LdtkProjectLoaderError::InternalLevelWithNullLayers);
            }
            (None, None)
        };

        let level_metadata = LevelMetadata::new(
            bg_image,
            LevelIndices::new(None, level_index),
            external_handle,
        );

        Ok(LoadLevelMetadataResult { bg_image_path, external_level_path, level_metadata })
    }

    /// The file extension of primary project manifests.
    pub fn extensions(&self) -> (r: Vec<String>)
        ensures
            r@.len() == 1,
            r@[0]@ == "ldtk"@,
    {
        let mut out: Vec<String> = Vec::new();
        out.push("ldtk".to_owned());
        out
    }

    /// Resolves a parsed manifest into a level registry.
    ///
    /// The declared storage mode must agree with the configured one, and
    /// with inline storage every level must carry inline layer data;
    /// either violation aborts the whole load. `base_dir` is the
    /// directory of the project file, against which relative references
    /// resolve.
    pub fn load(&self, data: LdtkJson, base_dir: &str) -> (r: Result<
        LoadedProject,
        LdtkProjectLoaderError,
    >)
        requires
            (self.external_levels && data.external_levels) ==> forall|i: int|
                0 <= i < data.levels@.len() ==> (#[trigger] data.levels@[i]).external_rel_path
                    is Some,
        ensures
            (r == Err::<LoadedProject, _>(LdtkProjectLoaderError::ExternalLevelProject)) <==> (
            data.external_levels && !self.external_levels),
            (r == Err::<LoadedProject, _>(LdtkProjectLoaderError::InternalLevelProject)) <==> (
            !data.external_levels && self.external_levels),
            (r == Err::<LoadedProject, _>(LdtkProjectLoaderError::InternalLevelWithNullLayers))
                <==> (data.external_levels == self.external_levels && !self.external_levels
                && exists|i: int|
                0 <= i < data.levels@.len() && (#[trigger] data.levels@[i]).layer_instances
                    is None),
            r is Ok <==> (data.external_levels == self.external_levels && (self.external_levels
                || forall|i: int|
                0 <= i < data.levels@.len() ==> (#[trigger] data.levels@[i]).layer_instances
                    is Some)),
            r matches Ok(loaded) ==> ({
                &&& loaded.project.data == data
                &&& level_index_entries(loaded.project.level_map) == spec_level_entries(
                    data.levels@,
                )
                &&& loaded.project.level_metadata@.len() == data.levels@.len()
                &&& forall|i: int|
                    0 <= i < data.levels@.len()
                        ==> (#[trigger] loaded.project.level_metadata@[i])@ == spec_metadata_view(
                        data.levels@[i],
                        i,
                        base_dir@,
                        self.external_levels,
                    )
                &&& spec_string_map_view(loaded.project.tileset_map@) == spec_tileset_path_map(
                    data.defs.tilesets@,
                    base_dir@,
                )
                &&& loaded.tileset_rel_paths@.len() == spec_tileset_rel_paths(
                    data.defs.tilesets@,
                    base_dir@,
                ).len()
                &&& forall|i: int|
                    0 <= i < loaded.tileset_rel_paths@.len()
                        ==> (#[trigger] loaded.tileset_rel_paths@[i])@ == spec_tileset_rel_paths(
                        data.defs.tilesets@,
                        base_dir@,
                    )[i]
                &&& loaded.background_images@.len() == spec_background_paths(
                    data.levels@,
                    base_dir@,
                ).len()
                &&& forall|i: int|
                    0 <= i < loaded.background_images@.len()
                        ==> (#[trigger] loaded.background_images@[i])@ == spec_background_paths(
                        data.levels@,
                        base_dir@,
                    )[i]
                &&& self.external_levels ==> (loaded.external_level_paths@.len()
                    == spec_external_paths(data.levels@, base_dir@).len() && forall|i: int|
                    0 <= i < loaded.external_level_paths@.len()
                        ==> (#[trigger] loaded.external_level_paths@[i])@ == spec_external_paths(
                        data.levels@,
                        base_dir@,
                    )[i])
                &&& !self.external_levels ==> loaded.external_level_paths@.len() == 0
                &&& spec_project_wf(loaded.project)
            }),
    {
        if data.external_levels && !self.external_levels {
            return Err(LdtkProjectLoaderError::ExternalLevelProject);
        }
        if !data.external_levels && self.external_levels {
            return Err(LdtkProjectLoaderError::InternalLevelProject);
        }

        let ghost base = base_dir@;
        let ghost ext = self.external_levels;

        let mut level_map = index_map_new();
        let mut level_metadata: Vec<LevelMetadata> = Vec::new();
        let mut background_images: Vec<String> = Vec::new();
        let mut external_level_paths: Vec<String> = Vec::new();

        let mut i: usize = 0;
        proof {
            assert(data.levels@.subrange(0, 0) =~= Seq::<Level>::empty());
        }
        while i < data.levels.len()
            invariant
                i <= data.levels@.len(),
                ext == self.external_levels,
                data.external_levels == self.external_levels,
                base == base_dir@,
                ext ==> forall|j: int|
                    0 <= j < data.levels@.len() ==> (#[trigger] data.levels@[j]).external_rel_path
                        is Some,
                !ext ==> forall|j: int|
                    0 <= j < i ==> (#[trigger] data.levels@[j]).layer_instances is Some,
                level_index_entries(level_map) == spec_level_entries(
                    data.levels@.subrange(0, i as int),
                ),
                level_metadata@.len() == i,
                forall|j: int|
                    0 <= j < i ==> (#[trigger] level_metadata@[j])@ == spec_metadata_view(
                        data.levels@[j],
                        j,
                        base,
                        ext,
                    ),
                forall|j: int|
                    0 <= j < i ==> (#[trigger] level_metadata@[j]).indices == (LevelIndices {
                        world_index: None,
                        level_index: j as usize,
                    }),
                background_images@.len() == spec_background_paths(
                    data.levels@.subrange(0, i as int),
                    base,
                ).len(),
                forall|j: int|
                    0 <= j < background_images@.len()
                        ==> (#[trigger] background_images@[j])@ == spec_background_paths(
                        data.levels@.subrange(0, i as int),
                        base,
                    )[j],
                ext ==> (external_level_paths@.len() == spec_external_paths(
                    data.levels@.subrange(0, i as int),
                    base,
                ).len() && forall|j: int|
                    0 <= j < external_level_paths@.len()
                        ==> (#[trigger] external_level_paths@[j])@ == spec_external_paths(
                        data.levels@.subrange(0, i as int),
                        base,
                    )[j]),
                !ext ==> external_level_paths@.len() == 0,
                ({
                    let entries = level_index_entries(level_map);
                    &&& forall|j: int|
                        0 <= j < entries.len() ==> (#[trigger] entries[j]).1 < i
                            && data.levels@[entries[j].1 as int].iid@ == entries[j].0
                    &&& forall|j: int, k: int|
                        0 <= j < k < entries.len() ==> (#[trigger] entries[j]).0 != (
                        #[trigger] entries[k]).0
                }),
            decreases data.levels@.len() - i,
        {
            let level = &data.levels[i];
            let ghost prefix = data.levels@.subrange(0, i as int);
            let ghost prefix1 = data.levels@.subrange(0, i + 1 as int);
            proof {
                assert(prefix1.drop_last() =~= prefix);
                assert(prefix1.last() == data.levels@[i as int]);
            }

            let result = match self.load_level_metadata(base_dir, i, level) {
                Ok(result) => result,
                Err(err) => {
                    return Err(err);
                },
            };

            match result.bg_image_path {
                Some(path) => {
                    background_images.push(path);
                },
                None => {},
            }
            match result.external_level_path {
                Some(path) => {
                    external_level_paths.push(path);
                },
                None => {},
            }
            level_metadata.push(result.level_metadata);

            index_map_insert(&mut level_map, level.iid.clone(), i);
            proof {
                assert(level_index_entries(level_map) == spec_level_entries(prefix1));
            }
            i = i + 1;
        }
        proof {
            assert(data.levels@.subrange(0, data.levels@.len() as int) =~= data.levels@);
        }

        let mut tileset_rel_paths: Vec<String> = Vec::new();
        let mut tileset_map: HashMap<i32, String> = HashMap::new();
        let mut t: usize = 0;
        proof {
            assert(spec_string_map_view(tileset_map@) =~= spec_tileset_path_map(
                data.defs.tilesets@.subrange(0, 0),
                base,
            ));
        }
        while t < data.defs.tilesets.len()
            invariant
                t <= data.defs.tilesets@.len(),
                base == base_dir@,
                spec_string_map_view(tileset_map@) == spec_tileset_path_map(
                    data.defs.tilesets@.subrange(0, t as int),
                    base,
                ),
                tileset_rel_paths@.len() == spec_tileset_rel_paths(
                    data.defs.tilesets@.subrange(0, t as int),
                    base,
                ).len(),
                forall|j: int|
                    0 <= j < tileset_rel_paths@.len()
                        ==> (#[trigger] tileset_rel_paths@[j])@ == spec_tileset_rel_paths(
                        data.defs.tilesets@.subrange(0, t as int),
                        base,
                    )[j],
            decreases data.defs.tilesets@.len() - t,
        {
            let tileset = &data.defs.tilesets[t];
            let ghost tprefix = data.defs.tilesets@.subrange(0, t as int);
            let ghost tprefix1 = data.defs.tilesets@.subrange(0, t + 1 as int);
            proof {
                assert(tprefix1.drop_last() =~= tprefix);
                assert(tprefix1.last() == data.defs.tilesets@[t as int]);
            }
            match &tileset.rel_path {
                Some(rel) => {
                    let ghost map_before = tileset_map@;
                    let path = ldtk_path_to_asset_path(base_dir, rel.as_str());
                    tileset_rel_paths.push(path.clone());
                    tileset_map.insert(tileset.uid, path);
                    proof {
                        assert(spec_string_map_view(tileset_map@) =~= spec_string_map_view(
                            map_before,
                        ).insert(tileset.uid, spec_join(base, rel@)));
                    }
                },
                None => {
                    // A tileset with an embedded-icon marker, or with
                    // neither marker nor path, resolves no image; it is
                    // skipped, not an error.
                },
            }
            t = t + 1;
        }
        proof {
            assert(data.defs.tilesets@.subrange(0, data.defs.tilesets@.len() as int)
                =~= data.defs.tilesets@);
        }

        Ok(
            LoadedProject {
                project: LdtkProject { data, tileset_map, level_map, level_metadata },
                tileset_rel_paths,
                external_level_paths,
                background_images,
            },
        )
    }
}

/// The abstract value of an optional path.
pub open spec fn spec_opt_str_view(o: Option<String>) -> Option<Seq<char>> {
    match o {
        Some(s) => Some(s@),
        None => None,
    }
}

/// What project resolution reads from a level record: its instance
/// identifier, its optional background and external-payload references,
/// and whether it carries inline layer data.
pub open spec fn spec_level_res_view(l: Level) -> (Seq<char>, Option<Seq<char>>, Option<
    Seq<char>,
>, bool) {
    (
        l.iid@,
        spec_opt_str_view(l.bg_rel_path),
        spec_opt_str_view(l.external_rel_path),
        l.layer_instances is Some,
    )
}

/// What project resolution reads from a tileset definition: its
/// identifier and its optional image reference.
pub open spec fn spec_tileset_res_view(t: TilesetDefinition) -> (i32, Option<Seq<char>>) {
    (t.uid, spec_opt_str_view(t.rel_path))
}

proof fn lemma_level_entries_determined(l1: Seq<Level>, l2: Seq<Level>)
    requires
        l1.len() == l2.len(),
        forall|i: int|
            0 <= i < l1.len() ==> spec_level_res_view(#[trigger] l1[i]) == spec_level_res_view(
                l2[i],
            ),
    ensures
        spec_level_entries(l1) == spec_level_entries(l2),
    decreases l1.len(),
{
    if l1.len() > 0 {
        lemma_level_entries_determined(l1.drop_last(), l2.drop_last());
        assert(spec_level_res_view(l1[l1.len() - 1]) == spec_level_res_view(l2[l2.len() - 1]));
        assert(l1.last().iid@ == l2.last().iid@);
    }
}

proof fn lemma_background_paths_determined(l1: Seq<Level>, l2: Seq<Level>, base: Seq<char>)
    requires
        l1.len() == l2.len(),
        forall|i: int|
            0 <= i < l1.len() ==> spec_level_res_view(#[trigger] l1[i]) == spec_level_res_view(
                l2[i],
            ),
    ensures
        spec_background_paths(l1, base) == spec_background_paths(l2, base),
    decreases l1.len(),
{
    if l1.len() > 0 {
        lemma_background_paths_determined(l1.drop_last(), l2.drop_last(), base);
        assert(spec_level_res_view(l1[l1.len() - 1]) == spec_level_res_view(l2[l2.len() - 1]));
        assert(spec_opt_str_view(l1.last().bg_rel_path) == spec_opt_str_view(
            l2.last().bg_rel_path,
        ));
    }
}

proof fn lemma_external_paths_determined(l1: Seq<Level>, l2: Seq<Level>, base: Seq<char>)
    requires
        l1.len() == l2.len(),
        forall|i: int|
            0 <= i < l1.len() ==> spec_level_res_view(#[trigger] l1[i]) == spec_level_res_view(
                l2[i],
            ),
        forall|i: int| 0 <= i < l1.len() ==> (#[trigger] l1[i]).external_rel_path is Some,
    ensures
        spec_external_paths(l1, base) == spec_external_paths(l2, base),
    decreases l1.len(),
{
    if l1.len() > 0 {
        lemma_external_paths_determined(l1.drop_last(), l2.drop_last(), base);
        assert(spec_level_res_view(l1[l1.len() - 1]) == spec_level_res_view(l2[l2.len() - 1]));
        assert(l1[l1.len() - 1].external_rel_path is Some);
        assert(spec_opt_str_view(l1.last().external_rel_path) == spec_opt_str_view(
            l2.last().external_rel_path,
        ));
        assert(l1.last().external_rel_path->Some_0@ == l2.last().external_rel_path->Some_0@);
    }
}

proof fn lemma_tileset_resolution_determined(
    t1: Seq<TilesetDefinition>,
    t2: Seq<TilesetDefinition>,
    base: Seq<char>,
)
    requires
        t1.len() == t2.len(),
        forall|i: int|
            0 <= i < t1.len() ==> spec_tileset_res_view(#[trigger] t1[i]) == spec_tileset_res_view(
                t2[i],
            ),
    ensures
        spec_tileset_path_map(t1, base) == spec_tileset_path_map(t2, base),
        spec_tileset_rel_paths(t1, base) == spec_tileset_rel_paths(t2, base),
    decreases t1.len(),
{
    if t1.len() > 0 {
        lemma_tileset_resolution_determined(t1.drop_last(), t2.drop_last(), base);
        assert(spec_tileset_res_view(t1[t1.len() - 1]) == spec_tileset_res_view(t2[t2.len() - 1]));
        assert(t1.last().uid == t2.last().uid);
        assert(spec_opt_str_view(t1.last().rel_path) == spec_opt_str_view(t2.last().rel_path));
    }
}

/// Resolving a manifest is deterministic: every component of the
/// resolved registry — the identifier index's entries and their order,
/// each level's metadata, the tileset image table and the dependency
/// path lists — is a function of the manifest content resolution reads,
/// the project directory, and the configured storage mode. Two loads of
/// manifests with equal content therefore produce registries that are
/// equal component by component, identifier ordering included.
pub proof fn lemma_project_resolution_deterministic(
    d1: LdtkJson,
    d2: LdtkJson,
    base: Seq<char>,
    external: bool,
)
    requires
        d1.levels@.len() == d2.levels@.len(),
        forall|i: int|
            0 <= i < d1.levels@.len() ==> spec_level_res_view(#[trigger] d1.levels@[i])
                == spec_level_res_view(d2.levels@[i]),
        external ==> forall|i: int|
            0 <= i < d1.levels@.len() ==> (#[trigger] d1.levels@[i]).external_rel_path is Some,
        d1.defs.tilesets@.len() == d2.defs.tilesets@.len(),
        forall|i: int|
            0 <= i < d1.defs.tilesets@.len() ==> spec_tileset_res_view(
                #[trigger] d1.defs.tilesets@[i],
            ) == spec_tileset_res_view(d2.defs.tilesets@[i]),
    ensures
        spec_level_entries(d1.levels@) == spec_level_entries(d2.levels@),
        forall|i: int|
            0 <= i < d1.levels@.len() ==> spec_metadata_view(
                #[trigger] d1.levels@[i],
                i,
                base,
                external,
            ) == spec_metadata_view(d2.levels@[i], i, base, external),
        spec_background_paths(d1.levels@, base) == spec_background_paths(d2.levels@, base),
        external ==> spec_external_paths(d1.levels@, base) == spec_external_paths(
            d2.levels@,
            base,
        ),
        spec_tileset_path_map(d1.defs.tilesets@, base) == spec_tileset_path_map(
            d2.defs.tilesets@,
            base,
        ),
        spec_tileset_rel_paths(d1.defs.tilesets@, base) == spec_tileset_rel_paths(
            d2.defs.tilesets@,
            base,
        ),
{
    lemma_level_entries_determined(d1.levels@, d2.levels@);
    lemma_background_paths_determined(d1.levels@, d2.levels@, base);
    if external {
        lemma_external_paths_determined(d1.levels@, d2.levels@, base);
    }
    lemma_tileset_resolution_determined(d1.defs.tilesets@, d2.defs.tilesets@, base);
    assert forall|i: int| 0 <= i < d1.levels@.len() implies spec_metadata_view(
        #[trigger] d1.levels@[i],
        i,
        base,
        external,
    ) == spec_metadata_view(d2.levels@[i], i, base, external) by {
        assert(spec_level_res_view(d1.levels@[i]) == spec_level_res_view(d2.levels@[i]));
        if external {
            assert(d1.levels@[i].external_rel_path is Some);
            assert(d1.levels@[i].external_rel_path->Some_0@
                == d2.levels@[i].external_rel_path->Some_0@);
        }
    }
}

} // verus!
