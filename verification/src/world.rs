use vstd::prelude::*;

verus! {

/// The weather over the city.
#[derive(Clone, Copy, Debug, PartialEq, Eq, Structural)]
pub enum Weather {
    Clear,
    Rainy,
    Foggy,
    Stormy,
}

/// The only version of the map, location and object files that the loader reads.
pub const SUPPORTED_FILE_VERSION: u32 = 1;

/// Whether a map, location or object file of this version can be read.
pub fn is_supported_version(version: u32) -> (ok: bool)
    ensures
        ok == (version == SUPPORTED_FILE_VERSION),
{
    version == SUPPORTED_FILE_VERSION
}

} // verus!
