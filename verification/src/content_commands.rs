//! Content-intelligence transfer objects.

use vstd::prelude::*;

verus! {

#[derive(Clone, Debug)]
pub struct RebuildContentIndexResult {
    pub packs_updated: i64,
    pub families_recomputed: i64,
}

} // verus!
