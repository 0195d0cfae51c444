//! Registry query results and the selection of one package out of them.
//! The network request and the JSON decoding happen outside; this module
//! owns the schema types and every decision made on them.

use vstd::prelude::*;

use crate::error::BuildError;

verus! {

/// The body of a registry search response.
#[derive(Debug, Clone)]
pub struct QueryPackagesResponse {
    pub packages: Vec<Package>,
}

/// Represents a resolved package offered by the registry.
#[derive(Debug, Clone)]
pub struct Package {
    pub metadata: PackageMetadata,
    pub group_id: String,
    pub artifact_id: String,
    pub ref_: String,
}

/// Represents a package's metadata.
#[derive(Debug, Clone)]
pub struct PackageMetadata {
    pub source_repository: String,
    /// The package's releases, newest first: that order is a documented
    /// contract of the registry response, and selection relies on it.
    pub versions: Vec<PackageVersion>,
}

/// Represents a specific release of a package.
#[derive(Debug, Clone)]
pub struct PackageVersion {
    pub version: String,
    pub flags: Vec<Flags>,
    pub vulnerabilities: Vec<Vulnerability>,
    pub artifact_url: String,
    pub sha512sum: String,
}

/// A known vulnerability note attached to a release.
#[derive(Debug, Clone)]
pub struct Vulnerability {
    pub id: String,
    pub detail: String,
}

/// Represents the supported package capability flags.
#[derive(Debug, Clone, PartialEq, Eq, Structural)]
pub enum Flags {
    AnnotationProcessor,
}

/// Turns a decoded registry response into the package list, or, where the
/// body did not match the schema, into an error carrying the raw body: a
/// malformed response is never coerced into an empty list, while an empty
/// list inside a well-formed response is a valid, non-error outcome.
pub fn interpret_query_response(parsed: Option<QueryPackagesResponse>, raw_body: String) -> (r:
    Result<Vec<Package>, BuildError>)
    ensures
        parsed matches Some(q) ==> (r matches Ok(packages) && packages == q.packages),
        parsed is None ==> (r matches Err(e) && e matches BuildError::Deserialization {
            raw_body: b,
        } && b@ == raw_body@),
{
    match parsed {
        Some(q) => Ok(q.packages),
        None => Err(BuildError::Deserialization { raw_body }),
    }
}

/// Selects one package from a query result: a single candidate is selected
/// automatically; several candidates need an injected one-based choice; no
/// candidate at all is an error.
pub fn select_package(packages: &Vec<Package>, selection: &Option<u64>) -> (r: Result<
    usize,
    BuildError,
>)
    ensures
        packages@.len() == 0 ==> (r matches Err(e) && e == BuildError::NoPackagesFound),
        packages@.len() == 1 ==> (r matches Ok(i) && i == 0),
        packages@.len() > 1 ==> match *selection {
            Some(k) => {
                if 1 <= k && k <= packages@.len() {
                    r matches Ok(i) && i == k - 1
                } else {
                    r matches Err(e) && e == BuildError::SelectionOutOfRange
                }
            },
            None => (r matches Err(e) && e == BuildError::SelectionOutOfRange),
        },
        r matches Ok(i) ==> i < packages@.len(),
{
    let n = packages.len();
    if n == 0 {
        Err(BuildError::NoPackagesFound)
    } else if n == 1 {
        Ok(0)
    } else {
        match selection {
            Some(k) => {
                if 1 <= *k && *k <= n as u64 {
                    Ok((*k - 1) as usize)
                } else {
                    Err(BuildError::SelectionOutOfRange)
                }
            },
            None => Err(BuildError::SelectionOutOfRange),
        }
    }
}

/// The release to acquire: the first of the package's version list, which
/// the registry orders newest first; a package without versions is an
/// error.
pub fn latest_version(package: &Package) -> (r: Result<&PackageVersion, BuildError>)
    ensures
        r is Ok <==> package.metadata.versions@.len() > 0,
        r matches Ok(v) ==> *v == package.metadata.versions@[0],
        r matches Err(e) ==> e == BuildError::NoVersions,
{
    if package.metadata.versions.len() > 0 {
        Ok(&package.metadata.versions[0])
    } else {
        Err(BuildError::NoVersions)
    }
}

} // verus!
