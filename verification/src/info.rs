//! What the engine tells about itself.

use vstd::prelude::*;

verus! {

/// Information about the current PROJ context: the version of the engine and
/// where it looks for its resource files.
#[derive(Clone, Debug)]
pub struct Projinfo {
    pub major: i32,
    pub minor: i32,
    pub patch: i32,
    pub release: String,
    pub version: String,
    pub searchpath: String,
}

} // verus!
