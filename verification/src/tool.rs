//! Looking for programs on the search path.
use vstd::prelude::*;

verus! {

/// `which::which`: searches the directories of the search path for an
/// executable file called `name`. Gives its path as text, or the words in
/// which the search says why it failed. What is found depends on the machine,
/// so nothing is claimed of the result.
#[verifier::external_body]
pub(crate) fn search_path(name: &str) -> (r: Result<String, String>) {
    which::which(name).map(|p| p.to_string_lossy().into_owned()).map_err(|e| e.to_string())
}

} // verus!
