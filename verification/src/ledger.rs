use vstd::prelude::*;

use crate::errors::InstallError;
use crate::version::{semver_ok, SemVer};

verus! {

/// What one reading of the version ledger found.
pub struct LedgerRead {
    /// The version recorded as installed; the baseline when nothing was
    /// recorded.
    pub installed: SemVer,
    /// Whether the working directory did not exist and must be created.
    pub fresh_dir: bool,
}

/// Read the version ledger. `dir_exists` says whether the working directory
/// was found, `marker` holds the text of the marker file if the file was
/// found. A missing directory or a missing marker yields the baseline
/// version; marker text that is not a semantic version is a fatal parse
/// error.
pub fn read_ledger(dir_exists: bool, marker: Option<&str>) -> (r: Result<LedgerRead, InstallError>)
    ensures
        !dir_exists ==> (r matches Ok(l) && l.installed@ == "0.0.0"@ && l.fresh_dir),
        dir_exists ==> match marker {
            None => r matches Ok(l) && l.installed@ == "0.0.0"@ && !l.fresh_dir,
            Some(s) => {
                if semver_ok(s@) {
                    r matches Ok(l) && l.installed@ == s@ && !l.fresh_dir
                } else {
                    r == Err::<LedgerRead, InstallError>(InstallError::LedgerParseFailed)
                }
            },
        },
{
    if !dir_exists {
        Ok(LedgerRead { installed: SemVer::baseline(), fresh_dir: true })
    } else {
        match marker {
            None => Ok(LedgerRead { installed: SemVer::baseline(), fresh_dir: false }),
            Some(s) => match SemVer::parse(s) {
                Some(v) => Ok(LedgerRead { installed: v, fresh_dir: false }),
                None => Err(InstallError::LedgerParseFailed),
            },
        }
    }
}

} // verus!
