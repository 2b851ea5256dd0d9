//! Derivation of the vault's salt-file location.

use vstd::prelude::*;
use vstd::string::StringExecFns;

verus! {

/// The path suffix appended to the application-local data directory to
/// name the salt file that seeds the vault's key derivation.
pub open spec fn salt_suffix() -> Seq<char> {
    "/salt.dat"@
}

/// Derives the vault's salt-file location from the resolved
/// application-local data directory: `<dir>/salt.dat`.
pub fn salt_file_path(dir: &str) -> (path: String)
    ensures
        path@ == dir@ + salt_suffix(),
{
    let base = dir.to_owned();
    base.concat("/salt.dat")
}

} // verus!
