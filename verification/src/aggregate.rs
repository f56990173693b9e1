//! The metadata aggregator: the full descriptive record of an on-disk
//! module artifact, and the live record of the modules resident in the
//! running kernel.
//!
//! Both records hold plain values only, so everything downstream — sorting,
//! joining, layout — is verified over them. The descriptive record is a pure
//! read of the artifact's embedded metadata and never requires the module to
//! be loaded; the live records reflect kernel state at call time and are
//! enumerated fresh on every request.

use vstd::prelude::*;
use crate::errors::{query_error, QueryError};
use crate::kernel;
use crate::resolve::ModuleArtifact;

verus! {

/// One parameter of a module: its name (unique within the module's
/// parameter set), an optional human-readable description, and the tag
/// naming its primitive kind.
pub struct Parameter {
    /// The parameter's name.
    pub name: String,
    /// The parameter's description, when the module provides one.
    pub description: Option<String>,
    /// The tag naming the parameter's primitive kind.
    pub type_tag: String,
}

/// The descriptive record extracted from a module artifact: a read-only
/// snapshot, never mutated after extraction. The ordered lists preserve the
/// order reported by the metadata source.
pub struct ModuleInfo {
    /// The module's authors, in reported order.
    pub authors: Vec<String>,
    /// The module's license.
    pub license: String,
    /// What the module does.
    pub description: String,
    /// The module's version.
    pub version: String,
    /// Firmware files the module needs, in reported order.
    pub firmware: Vec<String>,
    /// Alternative names of the module, in reported order.
    pub alias: Vec<String>,
    /// Modules this one depends on, in reported order.
    pub dependencies: Vec<String>,
    /// Recommended but not required dependencies, in reported order.
    pub soft_dependencies: Vec<String>,
    /// Whether the module comes from the kernel source tree.
    pub in_tree: bool,
    /// Whether the module was built with the retpoline mitigation.
    pub retpoline: bool,
    /// Whether the module is a staging module.
    pub staging: bool,
    /// The compatibility string checked by the kernel on a non-forced load.
    pub version_magic: String,
    /// The module's source checksum.
    pub source_checksum: String,
    /// The module's parameters, as reported by the metadata source.
    pub parameters: Vec<Parameter>,
    /// Whether a signature block is present (its validity is not checked).
    pub has_signature: bool,
}

/// The live record of one module resident in the kernel.
pub struct LoadedRecord {
    /// The module's name.
    pub name: String,
    /// The module's resident size in bytes.
    pub size: u64,
    /// The module's reference count, when the kernel reports one.
    pub ref_count: Option<u32>,
    /// The names of the loaded modules that hold a reference to this one.
    pub holders: Vec<String>,
}

/// Converts parameters as the driver hands them out — name, optional
/// description, type tag — into the library's parameter records, element
/// by element, changing nothing.
pub fn parameters_from_raw(raw: &Vec<(String, Option<String>, String)>) -> (r: Vec<Parameter>)
    ensures
        r@.len() == raw@.len(),
        forall|i: int|
            0 <= i < raw@.len() ==> (#[trigger] r@[i]).name == raw@[i].0 && r@[i].description
                == raw@[i].1 && r@[i].type_tag == raw@[i].2,
{
    let mut r: Vec<Parameter> = Vec::new();
    let mut i: usize = 0;
    while i < raw.len()
        invariant
            i <= raw.len(),
            r@.len() == i,
            forall|k: int|
                0 <= k < i ==> (#[trigger] r@[k]).name == raw@[k].0 && r@[k].description
                    == raw@[k].1 && r@[k].type_tag == raw@[k].2,
        decreases raw.len() - i,
    {
        let name = raw[i].0.clone();
        let description = match &raw[i].1 {
            Some(d) => Some(d.clone()),
            None => None,
        };
        let type_tag = raw[i].2.clone();
        r.push(Parameter { name, description, type_tag });
        i = i + 1;
    }
    r
}

/// Reads the descriptive record of a resolved artifact. A pure read of the
/// artifact's embedded metadata: no kernel state is touched and the module
/// need not be loaded.
pub fn describe(artifact: &ModuleArtifact) -> ModuleInfo {
    let (license, description, version, version_magic, source_checksum) = kernel::info_text(
        &artifact.file,
    );
    let (authors, firmware, alias, dependencies, soft_dependencies) = kernel::info_lists(
        &artifact.file,
    );
    let (in_tree, retpoline, staging) = kernel::info_flags(&artifact.file);
    let raw_params = kernel::info_params(&artifact.file);
    let parameters = parameters_from_raw(&raw_params);
    let has_signature = kernel::file_has_signature(&artifact.file);
    ModuleInfo {
        authors,
        license,
        description,
        version,
        firmware,
        alias,
        dependencies,
        soft_dependencies,
        in_tree,
        retpoline,
        staging,
        version_magic,
        source_checksum,
        parameters,
        has_signature,
    }
}

/// Enumerates the modules resident in the kernel at call time, as plain
/// records. One-shot: a later call queries the kernel afresh, which may have
/// changed meanwhile.
pub fn enumerate_loaded() -> Result<Vec<LoadedRecord>, QueryError> {
    let mods = match kernel::loaded_all() {
        Ok(v) => v,
        Err(e) => {
            return Err(query_error(kernel::error_shape(e)));
        },
    };
    let mut records: Vec<LoadedRecord> = Vec::new();
    let mut i: usize = 0;
    while i < mods.len()
        invariant
            i <= mods.len(),
            records@.len() == i,
        decreases mods.len() - i,
    {
        let m = &mods[i];
        let holders_raw = kernel::loaded_holders(m);
        let mut holders: Vec<String> = Vec::new();
        let mut j: usize = 0;
        while j < holders_raw.len()
            invariant
                j <= holders_raw.len(),
            decreases holders_raw.len() - j,
        {
            holders.push(kernel::loaded_name(&holders_raw[j]));
            j = j + 1;
        }
        records.push(
            LoadedRecord {
                name: kernel::loaded_name(m),
                size: kernel::loaded_size(m),
                ref_count: kernel::loaded_ref_count(m),
                holders,
            },
        );
        i = i + 1;
    }
    Ok(records)
}

} // verus!
