//! The trusted boundary to the kernel module driver (the `linapi` crate).
//!
//! Everything the library learns about on-disk module files and live kernel
//! state comes through the wrappers in this module. Their results depend on
//! the filesystem and on the running kernel, both mutable by other processes,
//! so the wrappers promise nothing about the values they return; the verified
//! code takes those values as arguments and is proved for every value.

use vstd::prelude::*;
use linapi::error::ModuleError;
use linapi::system::modules::{LoadedModule, ModuleFile};
use crate::errors::RawModuleError;

verus! {

#[verifier::external_type_specification]
#[verifier::external_body]
pub struct ExModuleFile(ModuleFile);

#[verifier::external_type_specification]
#[verifier::external_body]
pub struct ExLoadedModule(LoadedModule);

#[verifier::external_type_specification]
#[verifier::external_body]
pub struct ExModuleError(ModuleError);

/// Relies on linapi's `ModuleError`: its four variants, with I/O errors
/// carrying a `std::io::Error` whose kind distinguishes "not found" and
/// "permission denied". Each variant is told apart and its text moved over.
#[verifier::external_body]
pub(crate) fn error_shape(e: ModuleError) -> RawModuleError {
    match e {
        ModuleError::Io(io) => match io.kind() {
            std::io::ErrorKind::NotFound => RawModuleError::IoNotFound(io.to_string()),
            std::io::ErrorKind::PermissionDenied => RawModuleError::IoPermission(io.to_string()),
            _ => RawModuleError::IoOther(io.to_string()),
        },
        ModuleError::LoadError(n, d) => RawModuleError::Load(n, d),
        ModuleError::UnloadError(n, d) => RawModuleError::Unload(n, d),
        ModuleError::InvalidModule(d) => RawModuleError::Invalid(d),
    }
}

/// Relies on `ModuleFile::from_path`: uses the file at the path as a module,
/// reading its metadata; fails with an I/O error of kind "not found" when no
/// file exists at the path.
///
/// Known limit: the driver's metadata parser aborts the process on a
/// `.modinfo` entry whose value is empty (it pops from an empty list
/// instead of reporting the invalid-module error), so on such a corrupt or
/// crafted file this call panics rather than returning an error. The input
/// is disk content, which no precondition can reach, and the abort cannot
/// be intercepted here; callers' no-panic guarantees do not cover it.
#[verifier::external_body]
pub(crate) fn file_from_path(path: &String) -> Result<ModuleFile, ModuleError> {
    ModuleFile::from_path(std::path::Path::new(path.as_str()))
}

/// Relies on `ModuleFile::from_name`: searches the module tree of the
/// running kernel's release for the name; a fruitless search fails with a
/// load error, a tree that cannot be walked with an I/O error. The known
/// limit of `file_from_path` on a malformed `.modinfo` section applies to
/// the file the search finds.
#[verifier::external_body]
pub(crate) fn file_from_name(name: &String) -> Result<ModuleFile, ModuleError> {
    ModuleFile::from_name(name.as_str())
}

/// Relies on `ModuleFile::from_name_with_uname`: as `from_name`, but under
/// the module tree of the given kernel release. The known limit of
/// `file_from_path` on a malformed `.modinfo` section applies here too.
#[verifier::external_body]
pub(crate) fn file_from_name_with_uname(
    name: &String,
    uname: &String,
) -> Result<ModuleFile, ModuleError> {
    ModuleFile::from_name_with_uname(name.as_str(), uname.as_str())
}

/// Relies on `ModuleFile::path`: the path the file was opened from.
#[verifier::external_body]
pub(crate) fn file_path(f: &ModuleFile) -> String {
    f.path().display().to_string()
}

/// Relies on `ModuleFile::has_signature`: whether a signature block is
/// appended to the module image. Its validity is not checked.
#[verifier::external_body]
pub(crate) fn file_has_signature(f: &ModuleFile) -> bool {
    f.has_signature()
}

/// Relies on `ModuleFile::load`: asks the kernel to load the module image
/// with the given parameter string, under the kernel's compatibility checks.
/// `load` panics on a parameter string with an interior NUL byte, so that
/// input is excluded here.
#[verifier::external_body]
pub(crate) fn file_load(f: &ModuleFile, param: &str) -> Result<(), ModuleError>
    requires
        forall|i: int| 0 <= i < param@.len() ==> param@[i] != '\0',
{
    match f.load(param) {
        Ok(_) => Ok(()),
        Err(e) => Err(e),
    }
}

/// Relies on `ModuleFile::info`, fields `license`, `description`, `version`,
/// `version_magic`, `source_checksum`: the single-valued texts of the
/// module's embedded metadata record, in that order.
#[verifier::external_body]
pub(crate) fn info_text(f: &ModuleFile) -> (String, String, String, String, String) {
    let i = f.info();
    (
        i.license.clone(),
        i.description.clone(),
        i.version.clone(),
        i.version_magic.clone(),
        i.source_checksum.clone(),
    )
}

/// Relies on `ModuleFile::info`, fields `authors`, `firmware`, `alias`,
/// `dependencies`, `soft_dependencies`: the multi-valued lists of the
/// module's embedded metadata record, in that order, each in the order the
/// metadata source reports.
#[verifier::external_body]
pub(crate) fn info_lists(
    f: &ModuleFile,
) -> (Vec<String>, Vec<String>, Vec<String>, Vec<String>, Vec<String>) {
    let i = f.info();
    (
        i.authors.clone(),
        i.firmware.clone(),
        i.alias.clone(),
        i.dependencies.clone(),
        i.soft_dependencies.clone(),
    )
}

/// Relies on `ModuleFile::info`, fields `in_tree`, `retpoline`, `staging`:
/// the provenance flags of the module, in that order.
#[verifier::external_body]
pub(crate) fn info_flags(f: &ModuleFile) -> (bool, bool, bool) {
    let i = f.info();
    (i.in_tree, i.retpoline, i.staging)
}

/// Relies on `ModuleFile::info`, field `parameters`: each parameter handed
/// out as its name, optional description, and type tag.
#[verifier::external_body]
pub(crate) fn info_params(f: &ModuleFile) -> Vec<(String, Option<String>, String)> {
    f.info()
        .parameters
        .iter()
        .map(|p| (p.name.clone(), p.description.clone(), p.type_.clone()))
        .collect()
}

/// Relies on `LoadedModule::get_loaded`: enumerates the dynamically loaded
/// modules of the running kernel at call time.
///
/// Known limit: the driver aborts the process on a module directory name
/// under sysfs that is not UTF-8. That depends on kernel state alone — the
/// kernel's module names are ASCII — so no precondition over the arguments
/// can reach it; callers' no-panic guarantees do not cover it.
#[verifier::external_body]
pub(crate) fn loaded_all() -> Result<Vec<LoadedModule>, ModuleError> {
    LoadedModule::get_loaded()
}

/// Whether a name can stand as the final component of a sysfs module path:
/// it holds no path separator and is not the parent-directory component.
pub open spec fn sysfs_name_ok(s: Seq<char>) -> bool {
    &&& !(s.len() == 2 && s[0] == '.' && s[1] == '.')
    &&& forall|i: int| 0 <= i < s.len() ==> s[i] != '/'
}

/// Relies on `LoadedModule::from_name`: the loaded module of that name, or
/// an error when none is resident under it. The driver takes the name's
/// final path component and aborts when there is none — the name `..`, or
/// one whose last segment is `..` — so such names are excluded here.
#[verifier::external_body]
pub(crate) fn loaded_from_name(name: &String) -> Result<LoadedModule, ModuleError>
    requires
        sysfs_name_ok(name@),
{
    LoadedModule::from_name(name.as_str())
}

/// Relies on `LoadedModule::name`: the module's name.
#[verifier::external_body]
pub(crate) fn loaded_name(m: &LoadedModule) -> String {
    m.name().to_string()
}

/// Relies on `LoadedModule::size`: the module's resident size in bytes.
#[verifier::external_body]
pub(crate) fn loaded_size(m: &LoadedModule) -> u64 {
    m.size()
}

/// Relies on `LoadedModule::ref_count`: the module's reference count, absent
/// for built-in modules or kernels without unload support.
#[verifier::external_body]
pub(crate) fn loaded_ref_count(m: &LoadedModule) -> Option<u32> {
    m.ref_count()
}

/// Relies on `LoadedModule::holders`: the loaded modules that hold a
/// reference to this one.
#[verifier::external_body]
pub(crate) fn loaded_holders(m: &LoadedModule) -> &Vec<LoadedModule> {
    m.holders()
}

/// Relies on `LoadedModule::unload`: asks the kernel to unload the module,
/// without bypassing its busy/in-use protections.
#[verifier::external_body]
pub(crate) fn loaded_unload(m: LoadedModule) -> Result<(), ModuleError> {
    match m.unload() {
        Ok(()) => Ok(()),
        Err(e) => Err(e),
    }
}

} // verus!
