//! What the library takes from the standard library without a proof: how a
//! path is joined, and how bytes are read as UTF-8.

use vstd::prelude::*;
use vstd::string::StringSliceAdditionalSpecFns;
use vstd::utf8::valid_utf8;

verus! {

/// `std::io::Error`: why the build tool did not run. It is handed on as it
/// is.
#[verifier::external_type_specification]
#[verifier::external_body]
pub struct ExIoError(std::io::Error);

/// `Path::join`, on a directory and a file name that are both text. How the
/// two are joined is the platform's matter, so nothing is claimed of the
/// path that comes back.
#[verifier::external_body]
pub(crate) fn join_path(directory: &str, file: &str) -> String {
    std::path::Path::new(directory).join(file).to_string_lossy().into_owned()
}

/// `std::str::from_utf8`: the same bytes as text where they are valid UTF-8,
/// and `None` where they are not.
#[verifier::external_body]
pub(crate) fn utf8_text(bytes: &[u8]) -> (r: Option<&str>)
    ensures
        match r {
            Some(text) => valid_utf8(bytes@) && text.spec_bytes() == bytes@,
            None => !valid_utf8(bytes@),
        },
{
    std::str::from_utf8(bytes).ok()
}

} // verus!
