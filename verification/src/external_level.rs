//! Externally stored level payloads: a secondary resource loaded per
//! level when the project stores level data in separate files. A payload
//! must always carry its layer data; absence is a format violation.

use vstd::prelude::*;
use crate::ldtk::Level;

verus! {

/// A fully loaded external level payload: level data guaranteed to carry
/// layer instances.
pub struct LdtkExternalLevel {
    data: Level,
}

impl View for LdtkExternalLevel {
    type V = Level;

    closed spec fn view(&self) -> Level {
        self.data
    }
}

impl LdtkExternalLevel {
    /// The payload invariant: an external level always carries its layer
    /// data inline.
    pub open spec fn wf(&self) -> bool {
        self@.layer_instances is Some
    }

    /// Wraps level data known to carry layer instances.
    pub fn new(data: Level) -> (r: LdtkExternalLevel)
        requires
            data.layer_instances is Some,
        ensures
            r@ == data,
            r.wf(),
    {
        LdtkExternalLevel { data }
    }

    /// The level data of this payload.
    pub fn data(&self) -> (r: &Level)
        ensures
            *r == self@,
    {
        &self.data
    }

    /// An external payload never resolves a background image of its
    /// own; the owning project's metadata carries that reference.
    pub fn background_image(&self) -> (r: Option<String>)
        ensures
            r is None,
    {
        None
    }
}

/// The format error that rejects an external level payload.
#[derive(Clone, Copy, Debug, PartialEq, Eq, Structural)]
pub enum LdtkExternalLevelLoaderError {
    /// The payload's layer instances are null: an external level must
    /// carry all level data.
    NullLayers,
}

/// Accepts external level payloads, rejecting any without inline layer
/// data.
pub struct LdtkExternalLevelLoader {}

impl Default for LdtkExternalLevelLoader {
    fn default() -> (r: LdtkExternalLevelLoader)
        ensures
            true,
    {
        LdtkExternalLevelLoader {  }
    }
}

impl LdtkExternalLevelLoader {
    /// The file extension of external level payloads, distinct from the
    /// primary manifest extension; such files are only consumed when
    /// external-level mode is active.
    pub fn extensions(&self) -> (r: Vec<String>)
        ensures
            r@.len() == 1,
            r@[0]@ == "ldtkl"@,
    {
        let mut out: Vec<String> = Vec::new();
        out.push("ldtkl".to_owned());
        out
    }

    /// Validates a parsed external level payload: the payload is
    /// accepted exactly when its layer instances are present.
    pub fn load(&self, data: Level) -> (r: Result<LdtkExternalLevel, LdtkExternalLevelLoaderError>)
        ensures
            r is Ok <==> data.layer_instances is Some,
            r matches Ok(level) ==> level@ == data && level.wf(),
            r is Err ==> r == Err::<LdtkExternalLevel, _>(LdtkExternalLevelLoaderError::NullLayers),
    {
        if data.layer_instances.is_none() {
            return Err(LdtkExternalLevelLoaderError::NullLayers);
        }
        Ok(LdtkExternalLevel::new(data))
    }
}

} // verus!
