//! The content-addressed dependency cache: where an artifact and its
//! extraction live is a pure function of the content checksum, never of a
//! dependency's declared name. No other module derives these locations.

use vstd::prelude::*;

use crate::context::AbsoltuePaths;

verus! {

/// Where the downloaded artifact for `checksum` is stored.
pub open spec fn artifact_path_of(dependencies_dir: Seq<char>, checksum: Seq<char>) -> Seq<char> {
    dependencies_dir + "/"@ + checksum + ".jar"@
}

/// Where the extraction of the artifact for `checksum` lives.
pub open spec fn extraction_path_of(
    dependencies_extracted_dir: Seq<char>,
    checksum: Seq<char>,
) -> Seq<char> {
    dependencies_extracted_dir + "/"@ + checksum
}

/// The artifact location for a checksum.
pub fn artifact_path(ap: &AbsoltuePaths, checksum: &str) -> (r: String)
    ensures
        r@ == artifact_path_of(ap.dependencies@, checksum@),
{
    ap.dependencies.clone().concat("/").concat(checksum).concat(".jar")
}

/// The extraction location for a checksum.
pub fn extraction_path(ap: &AbsoltuePaths, checksum: &str) -> (r: String)
    ensures
        r@ == extraction_path_of(ap.dependencies_extracted@, checksum@),
{
    ap.dependencies_extracted.clone().concat("/").concat(checksum)
}

/// Cache identity is content, not name: dependencies that resolve to the
/// same checksum share one artifact location and one extraction location,
/// whatever they are called.
pub proof fn lemma_cache_shared_by_checksum(
    ap: AbsoltuePaths,
    checksum_a: Seq<char>,
    checksum_b: Seq<char>,
)
    requires
        checksum_a == checksum_b,
    ensures
        artifact_path_of(ap.dependencies@, checksum_a) == artifact_path_of(
            ap.dependencies@,
            checksum_b,
        ),
        extraction_path_of(ap.dependencies_extracted@, checksum_a) == extraction_path_of(
            ap.dependencies_extracted@,
            checksum_b,
        ),
{
}

} // verus!
