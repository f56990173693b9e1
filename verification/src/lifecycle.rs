//! The lifecycle controller: loads a resolved artifact into the kernel and
//! unloads loaded modules, with the dash/underscore spelling fallback for
//! removal.
//!
//! Module naming conventions are inconsistent: a module may be addressed
//! with `-` or `_` as the word separator. Removal therefore tries up to
//! three candidate spellings in a fixed order — the name as given, then with
//! every `-` replaced by `_`, then with every `_` replaced by `-` — skipping
//! spellings equal to an earlier one, stopping at the first candidate found
//! loaded, and treating "not loaded under this spelling" as a soft miss.
//!
//! Only the checked operations live here: the forced variants bypass the
//! kernel's compatibility and busy protections through calls the verifier
//! rejects, and stand outside the library, reusing the same candidate order
//! and resolution.

use vstd::prelude::*;
use crate::errors::{
    load_error, unload_failure, InsertError, ResolutionError, UnloadError,
};
use crate::kernel;
use crate::resolve::{is_absolute_path, lookup};
use crate::text::{replace_char, replaced};

verus! {

/// The candidate spellings tried by removal, in order: the name as given,
/// then dash-to-underscore, then underscore-to-dash, each kept only if it
/// differs from every earlier candidate.
pub open spec fn removal_candidates(name: Seq<char>) -> Seq<Seq<char>> {
    let a = name;
    let b = replaced(name, '-', '_');
    let c = replaced(name, '_', '-');
    if b == a {
        if c == a {
            seq![a]
        } else {
            seq![a, c]
        }
    } else {
        if c == a || c == b {
            seq![a, b]
        } else {
            seq![a, b, c]
        }
    }
}

/// No candidate spelling is ever tried twice.
pub proof fn lemma_candidates_distinct(name: Seq<char>)
    ensures
        forall|i: int, j: int|
            0 <= i < j < removal_candidates(name).len() ==> removal_candidates(name)[i]
                != removal_candidates(name)[j],
{
}

/// The first candidate is always the name exactly as given.
pub proof fn lemma_candidates_first(name: Seq<char>)
    ensures
        removal_candidates(name).len() >= 1,
        removal_candidates(name)[0] == name,
{
}

/// Computes the candidate spellings for removal.
pub fn remove_candidates(name: &String) -> (r: Vec<String>)
    ensures
        r.deep_view() == removal_candidates(name@),
{
    let b = replace_char(name, '-', '_');
    let c = replace_char(name, '_', '-');
    let mut r: Vec<String> = Vec::new();
    r.push(name.clone());
    if !(b == *name) {
        r.push(b.clone());
    }
    if !(c == *name) && !(c == b) {
        r.push(c);
    }
    assert(r.deep_view() =~= removal_candidates(name@));
    r
}

/// Decides whether a candidate spelling can stand as a sysfs path
/// component, so that the driver may be asked about it.
fn sysfs_queryable(s: &String) -> (b: bool)
    ensures
        b == crate::kernel::sysfs_name_ok(s@),
{
    let st: &str = s.as_str();
    let n: usize = st.unicode_len();
    if n == 2 && st.get_char(0) == '.' && st.get_char(1) == '.' {
        return false;
    }
    let mut i: usize = 0;
    while i < n
        invariant
            i <= n,
            n == st@.len(),
            st@ == s@,
            forall|j: int| 0 <= j < i ==> s@[j] != '/',
            !(s@.len() == 2 && s@[0] == '.' && s@[1] == '.'),
        decreases n - i,
    {
        if st.get_char(i) == '/' {
            return false;
        }
        i = i + 1;
    }
    true
}

/// Unloads the first loaded module found under the candidate spellings of
/// `name`, under the kernel's busy/in-use protections.
///
/// On success the spelling that was found loaded and unloaded is returned;
/// it is always one of the candidate spellings of `name`. When no candidate
/// is found loaded, the operation fails with `NotLoaded` carrying the name
/// as given. A spelling that cannot stand as a sysfs path component (`..`,
/// or one holding `/`) names no loaded module and is passed over as a miss,
/// not handed to the driver. A found module whose unload the kernel refuses
/// is terminal: no later spelling is tried.
pub fn remove(name: &String) -> (r: Result<String, UnloadError>)
    ensures
        r matches Ok(c) ==> removal_candidates(name@).contains(c@),
        r matches Err(UnloadError::NotLoaded(n)) ==> n@ == name@,
{
    let cands = remove_candidates(name);
    let mut i: usize = 0;
    while i < cands.len()
        invariant
            cands.deep_view() == removal_candidates(name@),
            i <= cands.len(),
        decreases cands.len() - i,
    {
        if sysfs_queryable(&cands[i]) {
            let found = kernel::loaded_from_name(&cands[i]);
            match found {
                Ok(m) => {
                    assert(removal_candidates(name@).contains(cands.deep_view()[i as int]));
                    match kernel::loaded_unload(m) {
                        Ok(()) => {
                            return Ok(cands[i].clone());
                        },
                        Err(e) => {
                            let raw = kernel::error_shape(e);
                            return Err(unload_failure(raw, &cands[i]));
                        },
                    }
                },
                Err(_) => {},
            }
        }
        i = i + 1;
    }
    Err(UnloadError::NotLoaded(name.clone()))
}

/// Resolves `module` (an absolute path or a bare name under the running
/// kernel's release tree) and asks the kernel to load it, under the kernel's
/// compatibility checks.
///
/// A specifier that does not resolve fails with the resolution error and
/// performs no privileged call; an absolute path never fails with
/// `InvalidRelease`.
pub fn insert(module: &String) -> (r: Result<(), InsertError>)
    ensures
        is_absolute_path(module@) ==> (r matches Err(InsertError::Resolution(re)) ==> !(re
            is InvalidRelease)),
{
    match lookup(module, &None) {
        Err(e) => Err(InsertError::Resolution(e)),
        Ok(artifact) => {
            proof {
                reveal_strlit("");
            }
            match kernel::file_load(&artifact.file, "") {
                Ok(()) => Ok(()),
                Err(e) => {
                    let raw = kernel::error_shape(e);
                    let mapped = load_error(raw);
                    Err(mapped)
                },
            }
        },
    }
}

} // verus!
