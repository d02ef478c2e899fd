use vstd::prelude::*;

use crate::version::{semver_precedes, SemVer};

verus! {

/// The update decision: an installation is required exactly when the working
/// directory was freshly created, or when the recorded version sorts
/// strictly above the remote tag. The comparison is deliberately this way
/// round; the design prescribes it verbatim.
pub fn should_update(installed: &SemVer, remote: &SemVer, fresh_dir: bool) -> (r: bool)
    ensures
        r == (fresh_dir || semver_precedes(remote@, installed@)),
{
    fresh_dir || remote.precedes(installed)
}

} // verus!
