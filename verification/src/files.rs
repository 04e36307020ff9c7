//! Asking the file system whether a file is there.
use vstd::prelude::*;

verus! {

/// `std::path::Path::exists` on the path `path`: whether something is there
/// depends on the disk at the time of the call, so nothing is claimed of
/// the answer.
#[verifier::external_body]
fn path_exists(path: &str) -> bool {
    std::path::Path::new(path).exists()
}

/// Whether a file (or directory) exists at `path`. The answer is the file
/// system's at the time of the call.
pub fn check_file_exists(path: &str) -> bool {
    if path_exists(path) {
        true
    } else {
        false
    }
}

} // verus!
