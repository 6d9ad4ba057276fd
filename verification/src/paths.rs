//! What the file system says of a path at the moment it is asked.

use vstd::prelude::*;

verus! {

/// `std::path::Path::exists`: whether the path names something that is
/// there at the moment of the call.
#[verifier::external_body]
pub(crate) fn path_exists(path: &str) -> (exists: bool) {
    std::path::Path::new(path).exists()
}

/// `std::path::Path::is_dir`: whether the path names an existing directory
/// at the moment of the call.
#[verifier::external_body]
pub(crate) fn path_is_dir(path: &str) -> (is_dir: bool) {
    std::path::Path::new(path).is_dir()
}

/// `std::path::Path::is_file`: whether the path names an existing regular
/// file at the moment of the call.
#[verifier::external_body]
pub(crate) fn path_is_file(path: &str) -> (is_file: bool) {
    std::path::Path::new(path).is_file()
}

} // verus!
