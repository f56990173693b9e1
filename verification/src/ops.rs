//! The top-level operations: each drives resolver, aggregator, and renderer
//! to the text a caller prints. No state is held across operations.

use vstd::prelude::*;
use comfy_table::Table;
use crate::aggregate::{describe, enumerate_loaded, LoadedRecord, ModuleInfo};
use crate::errors::{QueryError, ResolutionError};
use crate::render::{table_cells, table_drawn, table_header, table_limit};
use crate::resolve::{is_absolute_path, lookup};
use crate::views::{
    info_header_cells, info_rows_match, info_view, list_header_cells, list_table_rows, list_view,
};

verus! {

/// Draws the list view of the modules currently resident in the kernel, at
/// the given total width.
///
/// On success the returned text is the drawn list table of the enumerated
/// records: one row of cells per record, under the list header, laid out
/// against the given width.
pub fn list_report(width: u16) -> (r: Result<String, QueryError>)
    ensures
        r matches Ok(s) ==> (exists|mods: Seq<LoadedRecord>, ft: Table|
            #![trigger table_cells(ft), list_table_rows(mods)]
            table_cells(ft) == list_table_rows(mods) && table_header(ft)
                == list_header_cells() && table_limit(ft) == Some(width) && s@ == table_drawn(
                ft,
            )),
{
    let mods = match enumerate_loaded() {
        Ok(v) => v,
        Err(e) => {
            return Err(e);
        },
    };
    Ok(list_view(&mods, width))
}

/// Resolves a module (an absolute path, a bare name, or a name under the
/// given release override), reads its descriptive record, and draws the
/// info view at the given total width.
///
/// On success the returned text is the drawn info table of the record that
/// was read, as `info_rows_match` says, headed by the artifact's path. For
/// an absolute path the override plays no part, the failure is never
/// `InvalidRelease`, and the header holds exactly the given path.
pub fn info_report(module: &String, uname: &Option<String>, width: u16) -> (r: Result<
    String,
    ResolutionError,
>)
    ensures
        is_absolute_path(module@) ==> !(r matches Err(e) && e is InvalidRelease),
        r matches Ok(s) ==> (exists|info: ModuleInfo, path: Seq<char>, ft: Table|
            #![trigger info_rows_match(table_cells(ft), info, width), info_header_cells(path)]
            info_rows_match(table_cells(ft), info, width) && table_header(ft)
                == info_header_cells(path) && table_limit(ft) == Some(width) && s@ == table_drawn(
                ft,
            )),
        is_absolute_path(module@) ==> (r matches Ok(s) ==> (exists|info: ModuleInfo, ft: Table|
            #![trigger info_rows_match(table_cells(ft), info, width)]
            info_rows_match(table_cells(ft), info, width) && table_header(ft)
                == info_header_cells(module@) && table_limit(ft) == Some(width) && s@
                == table_drawn(ft))),
{
    let artifact = match lookup(module, uname) {
        Ok(a) => a,
        Err(e) => {
            return Err(e);
        },
    };
    let info = describe(&artifact);
    Ok(info_view(&info, &artifact.path, width))
}

} // verus!
