//! The two-tier table views: the list of loaded modules, and the detailed
//! info view with its nested parameter sub-table.
//!
//! Row content is verified cell by cell; the drawing itself is the table
//! crate's concern (see `render`). The info view's nested sub-table is
//! allocated the width left over after the primary table's first column and
//! a fixed border allowance, measured from the rows actually laid out, so
//! that it fits the remaining horizontal space.

use vstd::prelude::*;
use crate::aggregate::{LoadedRecord, ModuleInfo, Parameter};
use crate::layout::{
    first_cell_len, first_column_width, lemma_sub_table_fits, rows_first_col_width,
    sub_table_width, sub_width_spec, BORDER_ALLOWANCE,
};
use crate::params::{info_param_rows, param_rows_match};
use crate::render::{render_table, table_cells, table_drawn, table_header, table_limit};
use comfy_table::Table;
use crate::text::{bool_str, bool_string, dec_str, join_lines, joined_lines, u64_dec};

verus! {

/// Builds a row of two cells.
fn row2(label: &str, value: String) -> (r: Vec<String>)
    ensures
        r.deep_view() =~= seq![label@, value@],
        r@.len() == 2,
{
    let mut r: Vec<String> = Vec::new();
    r.push(String::from_str(label));
    r.push(value);
    r
}

/// The header cells of the list view.
pub open spec fn list_header_cells() -> Seq<Seq<char>> {
    seq!["Module"@, "Size (Bytes)"@, "References"@, "Used By"@]
}

/// Builds the header row of the list view.
pub fn list_header() -> (h: Vec<String>)
    ensures
        h.deep_view() =~= list_header_cells(),
{
    let mut h: Vec<String> = Vec::new();
    h.push(String::from_str("Module"));
    h.push(String::from_str("Size (Bytes)"));
    h.push(String::from_str("References"));
    h.push(String::from_str("Used By"));
    h
}

/// The reference-count cell: the count in decimal, or the placeholder when
/// the kernel reports none.
pub open spec fn ref_count_text(rc: Option<u32>) -> Seq<char> {
    match rc {
        Some(n) => dec_str(n as nat),
        None => "None"@,
    }
}

/// The four cells of one loaded module's row: name, size in decimal,
/// reference count, and the holder names joined by newlines.
pub open spec fn list_row_cells(m: LoadedRecord) -> Seq<Seq<char>> {
    seq![m.name@, dec_str(m.size as nat), ref_count_text(m.ref_count), joined_lines(
        m.holders.deep_view(),
    )]
}

/// Lays the loaded-module records out as rows, one per record, in the given
/// order.
pub fn list_rows(mods: &Vec<LoadedRecord>) -> (rows: Vec<Vec<String>>)
    ensures
        rows.deep_view().len() == mods@.len(),
        forall|i: int| 0 <= i < mods@.len() ==> rows.deep_view()[i] == list_row_cells(mods@[i]),
{
    let mut rows: Vec<Vec<String>> = Vec::new();
    let mut i: usize = 0;
    while i < mods.len()
        invariant
            i <= mods.len(),
            rows@.len() == i,
            forall|k: int| 0 <= k < i ==> (#[trigger] rows@[k]).deep_view() == list_row_cells(
                mods@[k],
            ),
        decreases mods.len() - i,
    {
        let m = &mods[i];
        let ref_cell = match &m.ref_count {
            Some(n) => u64_dec(*n as u64),
            None => String::from_str("None"),
        };
        let mut row: Vec<String> = Vec::new();
        row.push(m.name.clone());
        row.push(u64_dec(m.size));
        row.push(ref_cell);
        row.push(join_lines(&m.holders));
        assert(row.deep_view() =~= list_row_cells(mods@[i as int]));
        rows.push(row);
        i = i + 1;
    }
    assert forall|i: int| 0 <= i < mods@.len() implies #[trigger] rows.deep_view()[i]
        == list_row_cells(mods@[i]) by {
        assert(rows.deep_view()[i] == rows@[i].deep_view());
    }
    rows
}

/// The full row set of the list view: one row of cells per record, in
/// order.
pub open spec fn list_table_rows(mods: Seq<LoadedRecord>) -> Seq<Seq<Seq<char>>> {
    mods.map_values(|m: LoadedRecord| list_row_cells(m))
}

/// Draws the list view of the given records at the given total width: the
/// drawn text of a table holding exactly one row of cells per record,
/// under the list header, laid out against the given width.
pub fn list_view(mods: &Vec<LoadedRecord>, width: u16) -> (out: String)
    ensures
        exists|ft: Table|
            #[trigger] table_cells(ft) == list_table_rows(mods@) && table_header(ft)
                == list_header_cells() && table_limit(ft) == Some(width) && out@ == table_drawn(
                ft,
            ),
{
    let header = list_header();
    let rows = list_rows(mods);
    assert(rows.deep_view() =~= list_table_rows(mods@));
    assert(header.deep_view() =~= list_header_cells());
    render_table(&header, &rows, width)
}

/// The field labels of the info view's primary table, in row order.
pub open spec fn info_labels() -> Seq<Seq<char>> {
    seq!["Authors"@, "License"@, "Description"@, "Version"@, "Firmware"@, "Alias"@,
        "Dependencies"@, "Soft Dependencies"@, "In Tree"@, "Retpoline"@, "Staging"@,
        "Version Magic"@, "Source Checksum"@, "Parameters"@, "Signature"@]
}

/// The header cells of the info view: the fixed label and the artifact's
/// path.
pub open spec fn info_header_cells(path: Seq<char>) -> Seq<Seq<char>> {
    seq!["File"@, path]
}

/// Builds the header row of the info view.
pub fn info_header(path: &String) -> (h: Vec<String>)
    ensures
        h.deep_view() =~= info_header_cells(path@),
        h@.len() == 2,
{
    row2("File", path.clone())
}

/// The value cells of the info view's thirteen metadata rows, in row order:
/// multi-valued fields joined by newlines, flags as boolean text, all other
/// fields unchanged.
pub open spec fn info_value_cells(info: ModuleInfo) -> Seq<Seq<char>> {
    seq![joined_lines(info.authors.deep_view()), info.license@, info.description@, info.version@,
        joined_lines(info.firmware.deep_view()), joined_lines(info.alias.deep_view()),
        joined_lines(info.dependencies.deep_view()), joined_lines(
        info.soft_dependencies.deep_view(),
    ), bool_str(info.in_tree), bool_str(info.retpoline), bool_str(info.staging),
        info.version_magic@, info.source_checksum@]
}

/// A maximum first-cell length bounds the measured first-column width.
proof fn lemma_rows_first_col_width_bound(rows: Seq<Seq<Seq<char>>>, bound: int)
    requires
        0 <= bound,
        forall|i: int| 0 <= i < rows.len() ==> first_cell_len(#[trigger] rows[i]) <= bound,
    ensures
        rows_first_col_width(rows) <= bound,
    decreases rows.len(),
{
    if rows.len() > 0 {
        lemma_rows_first_col_width_bound(rows.drop_last(), bound);
        assert(rows[rows.len() - 1] == rows.last());
    }
}

/// No label of the info view's first column is longer than the longest one.
proof fn lemma_info_labels_bounded()
    ensures
        forall|i: int| 0 <= i < info_labels().len() ==> (#[trigger] info_labels()[i]).len() <= 17,
        "File"@.len() <= 17,
{
    reveal_strlit("Authors");
    reveal_strlit("License");
    reveal_strlit("Description");
    reveal_strlit("Version");
    reveal_strlit("Firmware");
    reveal_strlit("Alias");
    reveal_strlit("Dependencies");
    reveal_strlit("Soft Dependencies");
    reveal_strlit("In Tree");
    reveal_strlit("Retpoline");
    reveal_strlit("Staging");
    reveal_strlit("Version Magic");
    reveal_strlit("Source Checksum");
    reveal_strlit("Parameters");
    reveal_strlit("Signature");
    reveal_strlit("File");
}

/// The info view's nested sub-table fits the primary table: for a total
/// width of at least forty columns, the sub-table's width plus the first
/// column's width plus the fixed border allowance never exceeds the total,
/// the first column holding only the fixed field labels.
pub proof fn lemma_info_sub_table_fits(total: int, first: int)
    requires
        40 <= total,
        0 <= first <= 17,
    ensures
        sub_width_spec(total, first) + first + BORDER_ALLOWANCE <= total,
{
    lemma_sub_table_fits(total, first);
}

/// The header cells of the nested parameter sub-table.
pub open spec fn param_header_cells() -> Seq<Seq<char>> {
    seq!["Name"@, "Description"@, "Type"@]
}

/// What the rows of the primary info table hold for a given record laid
/// out against a total width: the fifteen rows in label order, the
/// thirteen metadata value cells exactly, and the signature flag's text in
/// the Signature row. The Parameters cell holds the literal placeholder
/// when the record has no parameters; otherwise it is the drawn text of a
/// sub-table holding the parameter rows in ascending name order under the
/// Name/Description/Type header, laid out against the width left over
/// beside the primary table's measured first column.
pub open spec fn info_rows_match(rows: Seq<Seq<Seq<char>>>, info: ModuleInfo, width: u16) -> bool {
    let first = if rows_first_col_width(rows.take(13)) >= "File"@.len() {
        rows_first_col_width(rows.take(13))
    } else {
        "File"@.len() as int
    };
    &&& rows.len() == 15
    &&& forall|i: int|
        0 <= i < 15 ==> (#[trigger] rows[i]).len() == 2 && rows[i][0] == info_labels()[i]
    &&& forall|i: int| 0 <= i < 13 ==> rows[i][1] == info_value_cells(info)[i]
    &&& (info.parameters@.len() == 0 ==> rows[13][1] == "None"@)
    &&& (info.parameters@.len() > 0 ==> (exists|pt: Table|
        #![trigger table_cells(pt)]
        param_rows_match(table_cells(pt), info.parameters@) && table_header(pt)
            == param_header_cells() && table_limit(pt) == Some(
            sub_width_spec(width as int, first) as u16,
        ) && rows[13][1] == table_drawn(pt)))
    &&& rows[14][1] == bool_str(info.has_signature)
}

/// Draws the nested parameter sub-table at the given width: the drawn text
/// of a table holding the parameter rows, ascending by name, under the
/// Name/Description/Type header.
fn params_sub_table_cell(params: &Vec<Parameter>, sub_width: u16) -> (c: String)
    ensures
        exists|pt: Table|
            #![trigger table_cells(pt)]
            param_rows_match(table_cells(pt), params@) && table_header(pt) == param_header_cells()
                && table_limit(pt) == Some(sub_width) && c@ == table_drawn(pt),
{
    let mut p_header: Vec<String> = Vec::new();
    p_header.push(String::from_str("Name"));
    p_header.push(String::from_str("Description"));
    p_header.push(String::from_str("Type"));
    assert(p_header.deep_view() =~= param_header_cells());
    let p_rows = info_param_rows(params);
    render_table(&p_header, &p_rows, sub_width)
}

/// Lays an info record out as the rows of the primary info table: the
/// thirteen metadata rows, then the Parameters row, then the Signature row.
///
/// The Parameters cell holds the parameter sub-table, drawn at the width
/// left over next to the primary table's first column; a record with no
/// parameters renders the literal placeholder instead of an empty table.
pub fn info_rows(info: &ModuleInfo, path: &String, width: u16) -> (rows: Vec<Vec<String>>)
    ensures
        info_rows_match(rows.deep_view(), *info, width),
{
    let header = info_header(path);
    let mut rows: Vec<Vec<String>> = Vec::new();
    rows.push(row2("Authors", join_lines(&info.authors)));
    rows.push(row2("License", info.license.clone()));
    rows.push(row2("Description", info.description.clone()));
    rows.push(row2("Version", info.version.clone()));
    rows.push(row2("Firmware", join_lines(&info.firmware)));
    rows.push(row2("Alias", join_lines(&info.alias)));
    rows.push(row2("Dependencies", join_lines(&info.dependencies)));
    rows.push(row2("Soft Dependencies", join_lines(&info.soft_dependencies)));
    rows.push(row2("In Tree", bool_string(info.in_tree)));
    rows.push(row2("Retpoline", bool_string(info.retpoline)));
    rows.push(row2("Staging", bool_string(info.staging)));
    rows.push(row2("Version Magic", info.version_magic.clone()));
    rows.push(row2("Source Checksum", info.source_checksum.clone()));
    proof {
        assert forall|i: int| 0 <= i < 13 implies first_cell_len(
            #[trigger] rows.deep_view()[i],
        ) <= 17 by {
            lemma_info_labels_bounded();
            assert(rows.deep_view()[i] == rows@[i].deep_view());
            assert(rows@[i].deep_view()[0] == info_labels()[i]);
        }
        lemma_rows_first_col_width_bound(rows.deep_view(), 17);
        lemma_info_labels_bounded();
        assert(first_cell_len(header.deep_view()) == "File"@.len());
    }
    let ghost pre_vec = rows@;
    let ghost pre13 = rows.deep_view();
    let first_col = first_column_width(&header, &rows);
    assert(first_col <= 17);
    let sub_width = sub_table_width(width, first_col as u16);
    proof {
        if width >= 40 {
            lemma_info_sub_table_fits(width as int, first_col as int);
            assert(sub_width + first_col + BORDER_ALLOWANCE <= width);
        }
    }
    let params_cell: String = if info.parameters.len() == 0 {
        String::from_str("None")
    } else {
        params_sub_table_cell(&info.parameters, sub_width)
    };
    rows.push(row2("Parameters", params_cell));
    rows.push(row2("Signature", bool_string(info.has_signature)));
    proof {
        assert forall|i: int| 0 <= i < 15 implies (#[trigger] rows.deep_view()[i]).len() == 2
            && rows.deep_view()[i][0] == info_labels()[i] by {
            assert(rows.deep_view()[i] == rows@[i].deep_view());
        }
        assert forall|i: int| 0 <= i < 13 implies #[trigger] rows.deep_view()[i][1]
            == info_value_cells(*info)[i] by {
            assert(rows.deep_view()[i] == rows@[i].deep_view());
        }
        assert(rows.deep_view()[13] == rows@[13].deep_view());
        assert(rows.deep_view()[14] == rows@[14].deep_view());
        // The first column measured before the Parameters and Signature rows
        // is the first column of the finished rows' metadata prefix.
        assert forall|i: int| 0 <= i < 13 implies rows.deep_view().take(13)[i] == pre13[i] by {
            assert(rows.deep_view()[i] == rows@[i].deep_view());
            assert(rows@[i] == pre_vec[i]);
            assert(pre13[i] == pre_vec[i].deep_view());
        }
        assert(rows.deep_view().take(13) =~= pre13);
        assert(first_cell_len(header.deep_view()) == "File"@.len());
        assert(0 <= sub_width_spec(width as int, first_col as int) <= u16::MAX);
    }
    rows
}

/// Draws the info view of a described artifact at the given total width:
/// the drawn text of a table whose rows hold the record as `info_rows_match`
/// says, headed by the artifact's path, laid out against the given width.
pub fn info_view(info: &ModuleInfo, path: &String, width: u16) -> (out: String)
    ensures
        exists|ft: Table|
            info_rows_match(#[trigger] table_cells(ft), *info, width) && table_header(ft)
                == info_header_cells(path@) && table_limit(ft) == Some(width) && out@
                == table_drawn(ft),
{
    let header = info_header(path);
    let rows = info_rows(info, path, width);
    assert(header.deep_view() =~= info_header_cells(path@));
    render_table(&header, &rows, width)
}

} // verus!
