//! The world (shard) that requests are addressed to.
//!
//! The API exposes several independent game-server instances under one root;
//! a request selects one by a path segment.

use vstd::prelude::*;

verus! {

/// One of the game worlds exposed by the API root. `Aurora` is the default
/// shard; `Other` addresses an alternate shard by name.
#[derive(Debug, Clone)]
pub enum World {
    Aurora,
    Other(String),
}

impl World {
    /// The path segment that selects this world in a request URL.
    pub open spec fn spec_string(&self) -> Seq<char> {
        match self {
            World::Aurora => "aurora"@,
            World::Other(name) => name@,
        }
    }

    /// Returns the path segment for this world as an owned string.
    pub fn as_string(&self) -> (r: String)
        ensures
            r@ == self.spec_string(),
    {
        match self {
            World::Aurora => "aurora".to_owned(),
            World::Other(name) => name.clone(),
        }
    }
}

} // verus!
