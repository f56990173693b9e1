//! The identifier resolver: maps a user-given module specifier to a concrete
//! on-disk module artifact.
//!
//! A specifier is one of three identifier spaces: an absolute path (looked up
//! directly, no kernel-release logic applies), a bare name (searched under
//! the running kernel's release tree), or a name qualified by an explicit
//! kernel release. Resolution either yields exactly one artifact or fails;
//! it has no side effects.

use vstd::prelude::*;
use linapi::system::modules::ModuleFile;
use crate::errors::{name_resolution_error, path_resolution_error, ResolutionError};
use crate::kernel;

verus! {

/// A user-supplied module identifier, fixed once per invocation.
pub enum ModuleSpecifier {
    /// An absolute filesystem path to a module file.
    AbsolutePath(String),
    /// A bare module name, to be searched under the running kernel's release
    /// tree.
    BareName(String),
    /// A module name together with the kernel release whose tree is to be
    /// searched.
    QualifiedName(String, String),
}

/// Whether the text is an absolute filesystem path.
pub open spec fn is_absolute_path(s: Seq<char>) -> bool {
    s.len() > 0 && s[0] == '/'
}

/// Classifies the module argument and the optional kernel-release override
/// into a specifier. An absolute path is always taken as such: the override
/// plays no part for it.
pub fn classify(module: &String, uname: &Option<String>) -> (s: ModuleSpecifier)
    ensures
        is_absolute_path(module@) ==> (s matches ModuleSpecifier::AbsolutePath(p) && p@
            == module@),
        !is_absolute_path(module@) && uname is Some ==> (s
            matches ModuleSpecifier::QualifiedName(n, u) && n@ == module@ && u@ == uname->0@),
        !is_absolute_path(module@) && uname is None ==> (s matches ModuleSpecifier::BareName(n)
            && n@ == module@),
{
    let st: &str = module.as_str();
    let absolute = st.unicode_len() > 0 && st.get_char(0) == '/';
    if absolute {
        ModuleSpecifier::AbsolutePath(module.clone())
    } else {
        match uname {
            Some(u) => ModuleSpecifier::QualifiedName(module.clone(), u.clone()),
            None => ModuleSpecifier::BareName(module.clone()),
        }
    }
}

/// A resolved, not-yet-loaded module artifact: the driver's handle to the
/// file, together with the path it was found at.
pub struct ModuleArtifact {
    /// The driver's handle to the module file.
    pub file: ModuleFile,
    /// The path of the file the artifact was resolved to.
    pub path: String,
}

/// Resolves a specifier to exactly one module artifact, or fails.
///
/// An absolute path resolves to an artifact referencing exactly that path,
/// and never fails with `InvalidRelease`: no release logic applies to it. For
/// a name search, a fruitless search yields `ModuleNotFound`, and
/// `InvalidRelease` arises only when the release tree itself cannot be read.
pub fn resolve(specifier: &ModuleSpecifier) -> (r: Result<ModuleArtifact, ResolutionError>)
    ensures
        specifier matches ModuleSpecifier::AbsolutePath(p) ==> {
            &&& (r matches Ok(a) ==> a.path@ == p@)
            &&& !(r matches Err(e) && e is InvalidRelease)
        },
{
    match specifier {
        ModuleSpecifier::AbsolutePath(p) => match kernel::file_from_path(p) {
            Ok(f) => Ok(ModuleArtifact { file: f, path: p.clone() }),
            Err(e) => {
                let raw = kernel::error_shape(e);
                Err(path_resolution_error(raw))
            },
        },
        ModuleSpecifier::BareName(n) => match kernel::file_from_name(n) {
            Ok(f) => {
                let path = kernel::file_path(&f);
                Ok(ModuleArtifact { file: f, path })
            },
            Err(e) => Err(name_resolution_error(kernel::error_shape(e))),
        },
        ModuleSpecifier::QualifiedName(n, u) => match kernel::file_from_name_with_uname(n, u) {
            Ok(f) => {
                let path = kernel::file_path(&f);
                Ok(ModuleArtifact { file: f, path })
            },
            Err(e) => Err(name_resolution_error(kernel::error_shape(e))),
        },
    }
}

/// Classifies and resolves in one step: the lookup every operation starts
/// from. For an absolute path the release override is ignored and the
/// resulting artifact references exactly that path.
pub fn lookup(module: &String, uname: &Option<String>) -> (r: Result<
    ModuleArtifact,
    ResolutionError,
>)
    ensures
        is_absolute_path(module@) ==> {
            &&& (r matches Ok(a) ==> a.path@ == module@)
            &&& !(r matches Err(e) && e is InvalidRelease)
        },
{
    let specifier = classify(module, uname);
    resolve(&specifier)
}

} // verus!
