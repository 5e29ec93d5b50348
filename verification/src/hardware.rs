//! Hardware revisions that change what the machine does.

use vstd::prelude::*;

verus! {

/// DMG CPU/board revision.
#[derive(Clone, Copy, Debug, PartialEq, Eq, Structural)]
pub enum DmgRevision {
    Rev0,
    RevA,
    RevB,
    RevC,
}

/// CGB CPU revision.
#[derive(Clone, Copy, Debug, PartialEq, Eq, Structural)]
pub enum CgbRevision {
    Rev0,
    RevA,
    RevB,
    RevC,
    RevD,
    RevE,
}

impl Default for DmgRevision {
    fn default() -> (r: Self)
        ensures
            r == DmgRevision::RevC,
    {
        DmgRevision::RevC
    }
}

impl Default for CgbRevision {
    fn default() -> (r: Self)
        ensures
            r == CgbRevision::RevE,
    {
        CgbRevision::RevE
    }
}

} // verus!
