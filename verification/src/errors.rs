//! Error taxonomy of the library, and the verified classification of kernel
//! driver errors into it.
//!
//! The driver reports one error shape for every operation; what it means
//! depends on the operation that produced it. A failed walk of a release tree
//! is a missing release, while the same failure on a direct path lookup is a
//! missing module. The mapping functions below perform that classification
//! and are verified against the spec functions that define it.

use vstd::prelude::*;

verus! {

/// The shape of an error reported by the kernel module driver, reduced to
/// plain values: the I/O errors split by kind, the other variants with their
/// message text.
#[derive(Debug, Clone, PartialEq, Eq)]
pub enum RawModuleError {
    /// An I/O error of kind "not found".
    IoNotFound(String),
    /// An I/O error of kind "permission denied".
    IoPermission(String),
    /// Any other I/O error.
    IoOther(String),
    /// A load failure: the module name and the reported detail.
    Load(String, String),
    /// An unload failure: the module name and the reported detail.
    Unload(String, String),
    /// A malformed module image.
    Invalid(String),
}

/// Why a module specifier could not be resolved to an artifact.
#[derive(Debug, Clone, PartialEq, Eq)]
pub enum ResolutionError {
    /// No module artifact matches the specifier.
    ModuleNotFound,
    /// The requested kernel release has no module tree.
    InvalidRelease,
    /// The caller lacks the rights to read the artifact.
    PermissionDenied(String),
    /// Any other filesystem error, propagated unchanged.
    Io(String),
    /// The artifact exists but its metadata cannot be extracted.
    MetadataUnavailable(String),
}

/// Why a load operation failed.
#[derive(Debug, Clone, PartialEq, Eq)]
pub enum InsertError {
    /// The specifier did not resolve to an artifact; no privileged call was
    /// made.
    Resolution(ResolutionError),
    /// The kernel refused the load: the module name and the kernel-reported
    /// detail, which is not interpreted further.
    Load(String, String),
}

/// Why an unload operation failed.
#[derive(Debug, Clone, PartialEq, Eq)]
pub enum UnloadError {
    /// No loaded module was found under the given name or any of its
    /// dash/underscore spellings.
    NotLoaded(String),
    /// The kernel refused the unload of the named module: busy, in use, or a
    /// missing capability, as the kernel-reported detail says.
    Failure(String, String),
}

/// A hard configuration error: the explicit terminal-width override could
/// not be parsed as a width.
#[derive(Debug, Clone, PartialEq, Eq)]
pub enum ConfigurationError {
    /// The text given as the width override.
    InvalidWidth(String),
}

/// Why live kernel state could not be enumerated.
#[derive(Debug, Clone, PartialEq, Eq)]
pub enum QueryError {
    /// The caller lacks the rights to read kernel state.
    PermissionDenied(String),
    /// A module record was malformed.
    MetadataUnavailable(String),
    /// Any other filesystem error.
    Io(String),
}

/// The classification of a driver error from a direct path lookup: "not
/// found" means the module artifact itself is missing.
pub open spec fn path_resolution_error_spec(e: RawModuleError) -> ResolutionError {
    match e {
        RawModuleError::IoNotFound(_) => ResolutionError::ModuleNotFound,
        RawModuleError::IoPermission(m) => ResolutionError::PermissionDenied(m),
        RawModuleError::IoOther(m) => ResolutionError::Io(m),
        RawModuleError::Load(_, _) => ResolutionError::ModuleNotFound,
        RawModuleError::Unload(_, m) => ResolutionError::Io(m),
        RawModuleError::Invalid(m) => ResolutionError::MetadataUnavailable(m),
    }
}

/// Classifies a driver error from a direct path lookup.
pub fn path_resolution_error(e: RawModuleError) -> (r: ResolutionError)
    ensures
        r == path_resolution_error_spec(e),
{
    match e {
        RawModuleError::IoNotFound(_) => ResolutionError::ModuleNotFound,
        RawModuleError::IoPermission(m) => ResolutionError::PermissionDenied(m),
        RawModuleError::IoOther(m) => ResolutionError::Io(m),
        RawModuleError::Load(_, _) => ResolutionError::ModuleNotFound,
        RawModuleError::Unload(_, m) => ResolutionError::Io(m),
        RawModuleError::Invalid(m) => ResolutionError::MetadataUnavailable(m),
    }
}

/// The classification of a driver error from a name search under a release
/// tree. A search that walked the tree and found no match reports a load
/// error, which is a missing module; an I/O "not found" means the walk could
/// not start, so the release tree itself is absent.
pub open spec fn name_resolution_error_spec(e: RawModuleError) -> ResolutionError {
    match e {
        RawModuleError::IoNotFound(_) => ResolutionError::InvalidRelease,
        RawModuleError::IoPermission(m) => ResolutionError::PermissionDenied(m),
        RawModuleError::IoOther(m) => ResolutionError::Io(m),
        RawModuleError::Load(_, _) => ResolutionError::ModuleNotFound,
        RawModuleError::Unload(_, m) => ResolutionError::Io(m),
        RawModuleError::Invalid(m) => ResolutionError::MetadataUnavailable(m),
    }
}

/// Classifies a driver error from a name search. A fruitless search maps to
/// `ModuleNotFound`; `InvalidRelease` is produced exactly when the release
/// tree itself could not be read.
pub fn name_resolution_error(e: RawModuleError) -> (r: ResolutionError)
    ensures
        r == name_resolution_error_spec(e),
        e matches RawModuleError::Load(_, _) ==> r == ResolutionError::ModuleNotFound,
        r == ResolutionError::InvalidRelease <==> e matches RawModuleError::IoNotFound(_),
{
    match e {
        RawModuleError::IoNotFound(_) => ResolutionError::InvalidRelease,
        RawModuleError::IoPermission(m) => ResolutionError::PermissionDenied(m),
        RawModuleError::IoOther(m) => ResolutionError::Io(m),
        RawModuleError::Load(_, _) => ResolutionError::ModuleNotFound,
        RawModuleError::Unload(_, m) => ResolutionError::Io(m),
        RawModuleError::Invalid(m) => ResolutionError::MetadataUnavailable(m),
    }
}

/// The classification of a driver error from a live-state query.
pub open spec fn query_error_spec(e: RawModuleError) -> QueryError {
    match e {
        RawModuleError::IoNotFound(m) => QueryError::Io(m),
        RawModuleError::IoPermission(m) => QueryError::PermissionDenied(m),
        RawModuleError::IoOther(m) => QueryError::Io(m),
        RawModuleError::Load(_, m) => QueryError::Io(m),
        RawModuleError::Unload(_, m) => QueryError::Io(m),
        RawModuleError::Invalid(m) => QueryError::MetadataUnavailable(m),
    }
}

/// Classifies a driver error from a live-state query.
pub fn query_error(e: RawModuleError) -> (r: QueryError)
    ensures
        r == query_error_spec(e),
{
    match e {
        RawModuleError::IoNotFound(m) => QueryError::Io(m),
        RawModuleError::IoPermission(m) => QueryError::PermissionDenied(m),
        RawModuleError::IoOther(m) => QueryError::Io(m),
        RawModuleError::Load(_, m) => QueryError::Io(m),
        RawModuleError::Unload(_, m) => QueryError::Io(m),
        RawModuleError::Invalid(m) => QueryError::MetadataUnavailable(m),
    }
}

/// The classification of a driver error from an unload call on a module that
/// was found loaded under `candidate`. The kernel's refusal keeps the name it
/// reported; any other failure is attributed to the candidate spelling.
pub open spec fn unload_error_spec(e: RawModuleError, candidate: String) -> UnloadError {
    match e {
        RawModuleError::Unload(n, m) => UnloadError::Failure(n, m),
        RawModuleError::IoNotFound(m) => UnloadError::Failure(candidate, m),
        RawModuleError::IoPermission(m) => UnloadError::Failure(candidate, m),
        RawModuleError::IoOther(m) => UnloadError::Failure(candidate, m),
        RawModuleError::Load(_, m) => UnloadError::Failure(candidate, m),
        RawModuleError::Invalid(m) => UnloadError::Failure(candidate, m),
    }
}

/// Classifies a driver error from an unload call.
pub fn unload_failure(e: RawModuleError, candidate: &String) -> (r: UnloadError)
    ensures
        r == unload_error_spec(e, *candidate),
{
    match e {
        RawModuleError::Unload(n, m) => UnloadError::Failure(n, m),
        RawModuleError::IoNotFound(m) => UnloadError::Failure(candidate.clone(), m),
        RawModuleError::IoPermission(m) => UnloadError::Failure(candidate.clone(), m),
        RawModuleError::IoOther(m) => UnloadError::Failure(candidate.clone(), m),
        RawModuleError::Load(_, m) => UnloadError::Failure(candidate.clone(), m),
        RawModuleError::Invalid(m) => UnloadError::Failure(candidate.clone(), m),
    }
}

/// The classification of a driver error from a load call on a resolved
/// artifact.
pub open spec fn load_error_spec(e: RawModuleError) -> InsertError {
    match e {
        RawModuleError::Load(n, m) => InsertError::Load(n, m),
        RawModuleError::IoNotFound(_) => InsertError::Resolution(
            ResolutionError::ModuleNotFound,
        ),
        RawModuleError::IoPermission(m) => InsertError::Resolution(
            ResolutionError::PermissionDenied(m),
        ),
        RawModuleError::IoOther(m) => InsertError::Resolution(ResolutionError::Io(m)),
        RawModuleError::Unload(_, m) => InsertError::Resolution(ResolutionError::Io(m)),
        RawModuleError::Invalid(m) => InsertError::Resolution(
            ResolutionError::MetadataUnavailable(m),
        ),
    }
}

/// Classifies a driver error from a load call. A kernel refusal keeps its
/// name and detail; an artifact that vanished or turned unreadable between
/// resolution and load surfaces as the corresponding resolution error.
pub fn load_error(e: RawModuleError) -> (r: InsertError)
    ensures
        r == load_error_spec(e),
{
    match e {
        RawModuleError::Load(n, m) => InsertError::Load(n, m),
        RawModuleError::IoNotFound(_) => InsertError::Resolution(
            ResolutionError::ModuleNotFound,
        ),
        RawModuleError::IoPermission(m) => InsertError::Resolution(
            ResolutionError::PermissionDenied(m),
        ),
        RawModuleError::IoOther(m) => InsertError::Resolution(ResolutionError::Io(m)),
        RawModuleError::Unload(_, m) => InsertError::Resolution(ResolutionError::Io(m)),
        RawModuleError::Invalid(m) => InsertError::Resolution(
            ResolutionError::MetadataUnavailable(m),
        ),
    }
}

} // verus!
