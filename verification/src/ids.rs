//! Build identifiers and archive staging paths. A build id is generated
//! locally before any runtime call, so it is known even when the build later
//! fails, and the staged archive's filename is keyed off it.

use vstd::prelude::*;
use vstd::string::*;

verus! {

/// Relies on uuid::Uuid::new_v4 and its hyphenated rendering: a fresh random
/// identifier whose textual form is exactly 36 characters. Nothing more is
/// promised of a random value. A failing system randomness source aborts the
/// call, as resource exhaustion would.
#[verifier::external_body]
fn random_token() -> (r: String)
    ensures
        r@.len() == 36,
{
    uuid::Uuid::new_v4().hyphenated().to_string()
}

/// One build request: the source directory to package and the locally
/// generated identifier the build is tagged with.
#[derive(Debug)]
pub struct BuildRequest {
    pub source_path: String,
    pub build_id: String,
}

impl BuildRequest {
    /// Opens a build of a source directory under a freshly generated
    /// identifier.
    pub fn new(source_path: String) -> (r: BuildRequest)
        ensures
            r.source_path == source_path,
            r.build_id@.len() == 36,
    {
        BuildRequest { source_path, build_id: random_token() }
    }
}

/// The directory where staged archives are written.
pub fn staging_dir() -> (r: String)
    ensures
        r@ == "./tmp/containers"@,
{
    String::from_str("./tmp/containers")
}

/// The filename of the staged archive for a build id.
pub fn archive_file_name(build_id: &str) -> (r: String)
    ensures
        r@ == build_id@ + ".tar.gz"@,
{
    String::from_str(build_id).concat(".tar.gz")
}

/// The full staging path of the archive for a build id, under the staging
/// directory.
pub fn staged_archive_path(build_id: &str) -> (r: String)
    ensures
        r@ == "./tmp/containers/"@ + build_id@ + ".tar.gz"@,
{
    String::from_str("./tmp/containers/").concat(archive_file_name(build_id).as_str())
}

} // verus!
