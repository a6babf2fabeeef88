//! Bookkeeping for the filesystem paths that a daemon binds and must remove.
use vstd::prelude::*;

use std::path::PathBuf;

verus! {

#[verifier::external_type_specification]
#[verifier::external_body]
pub struct ExPathBuf(PathBuf);

/// A path that must be unlinked when its owner is done with it.
pub struct UnlinkOnDrop(PathBuf);

impl UnlinkOnDrop {
    pub closed spec fn spec_path(&self) -> PathBuf {
        self.0
    }

    pub fn new(p: PathBuf) -> (r: UnlinkOnDrop)
        ensures
            r.spec_path() == p,
    {
        UnlinkOnDrop(p)
    }

    /// The path to unlink.
    pub fn path(&self) -> (r: &PathBuf)
        ensures
            *r == self.spec_path(),
    {
        &self.0
    }
}

} // verus!
