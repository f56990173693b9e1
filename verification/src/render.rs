//! The trusted boundary to the table-drawing crate (`comfy-table`), and the
//! verified driver that fills a table.
//!
//! A table is a collection of rows of cells, with a header row held apart
//! and a width it is laid out against. Its state is modelled by
//! `table_cells`, `table_header` and `table_limit`, and every wrapper
//! states over that model what the crate's source shows: a new table is
//! empty, adding a row appends exactly the given cells, and styling calls
//! touch none of the three. The drawn text is a function of the table value
//! alone and carries the name `table_drawn`, so that a view's contract can
//! tie the string it returns to the table it proved full of the right
//! cells; how that text looks — borders, padding, line wrapping — is the
//! crate's concern and is not stated.

use vstd::prelude::*;
use comfy_table::Table;

verus! {

#[verifier::external_type_specification]
#[verifier::external_body]
pub struct ExTable(Table);

/// The rows a table holds: for each row, the text of each of its cells, in
/// order.
pub uninterp spec fn table_cells(t: Table) -> Seq<Seq<Seq<char>>>;

/// The cells of the table's header row; empty while none is set.
pub uninterp spec fn table_header(t: Table) -> Seq<Seq<char>>;

/// The width the table is laid out against, when one is set.
pub uninterp spec fn table_limit(t: Table) -> Option<u16>;

/// The text a table with a set width draws. Once a width is set the render
/// consults the table value alone, so the text is a function of it; with no
/// width set the render would measure the terminal instead, and this name
/// says nothing about such a table. Nothing is stated of what the text
/// holds.
pub uninterp spec fn table_drawn(t: Table) -> Seq<char>;

/// Relies on `Table::new`: a new table holds no rows, no header, and no
/// width.
#[verifier::external_body]
pub(crate) fn table_new() -> (t: Table)
    ensures
        table_cells(t) == Seq::<Seq<Seq<char>>>::empty(),
        table_header(t) == Seq::<Seq<char>>::empty(),
        table_limit(t) is None,
{
    Table::new()
}

/// Relies on `Table::load_style`: replaces the table's style — here with
/// the full UTF-8 box-drawing style with rounded corners — touching
/// neither rows, header, nor width.
#[verifier::external_body]
pub(crate) fn table_style(t: &mut Table)
    ensures
        table_cells(*final(t)) == table_cells(*old(t)),
        table_header(*final(t)) == table_header(*old(t)),
        table_limit(*final(t)) == table_limit(*old(t)),
{
    t.load_style(comfy_table::presets::UTF8_FULL.with_rounded_corners());
}

/// Relies on `Table::set_content_arrangement`: selects the dynamic
/// arrangement, under which column widths are negotiated against the
/// table's width; rows, header and width are untouched.
#[verifier::external_body]
pub(crate) fn table_dynamic_arrangement(t: &mut Table)
    ensures
        table_cells(*final(t)) == table_cells(*old(t)),
        table_header(*final(t)) == table_header(*old(t)),
        table_limit(*final(t)) == table_limit(*old(t)),
{
    t.set_content_arrangement(comfy_table::ContentArrangement::Dynamic);
}

/// Relies on `Table::set_width`: sets the width the arrangement lays the
/// table out against; rows and header are untouched.
#[verifier::external_body]
pub(crate) fn table_set_width(t: &mut Table, width: u16)
    ensures
        table_cells(*final(t)) == table_cells(*old(t)),
        table_header(*final(t)) == table_header(*old(t)),
        table_limit(*final(t)) == Some(width),
{
    t.set_width(width);
}

/// Relies on `Table::set_header`: sets the header row to exactly the given
/// cells; the content rows and the width are untouched.
#[verifier::external_body]
pub(crate) fn table_set_header(t: &mut Table, cells: &Vec<String>)
    ensures
        table_cells(*final(t)) == table_cells(*old(t)),
        table_header(*final(t)) == cells.deep_view(),
        table_limit(*final(t)) == table_limit(*old(t)),
{
    t.set_header(cells.clone());
}

/// Relies on `Table::add_row`: appends one row holding exactly the given
/// cells, in order; header and width are untouched.
#[verifier::external_body]
pub(crate) fn table_add_row(t: &mut Table, cells: &Vec<String>)
    ensures
        table_cells(*final(t)) == table_cells(*old(t)).push(cells.deep_view()),
        table_header(*final(t)) == table_header(*old(t)),
        table_limit(*final(t)) == table_limit(*old(t)),
{
    t.add_row(cells.clone());
}

/// Relies on `Table`'s `Display` impl: draws the table's lines. When the
/// table has a set width the layout is computed against that width and the
/// result depends on the table value alone, which `table_drawn` names; a
/// table without one would be measured against the terminal, so nothing is
/// stated of its render.
#[verifier::external_body]
pub(crate) fn table_render(t: &Table) -> (r: String)
    ensures
        table_limit(*t) is Some ==> r@ == table_drawn(*t),
{
    format!("{}", t)
}

/// Draws the given header and rows as a table of the given total width, in
/// the full UTF-8 style with dynamic column arrangement.
///
/// The result is the drawn text of a table holding exactly the given rows,
/// under exactly the given header, laid out against exactly the given
/// width.
pub fn render_table(header: &Vec<String>, rows: &Vec<Vec<String>>, width: u16) -> (out: String)
    ensures
        exists|ft: Table|
            #[trigger] table_cells(ft) == rows.deep_view() && table_header(ft)
                == header.deep_view() && table_limit(ft) == Some(width) && out@ == table_drawn(
                ft,
            ),
{
    let mut t = table_new();
    table_style(&mut t);
    table_dynamic_arrangement(&mut t);
    table_set_width(&mut t, width);
    table_set_header(&mut t, header);
    let mut i: usize = 0;
    while i < rows.len()
        invariant
            i <= rows.len(),
            table_cells(t) =~= rows.deep_view().take(i as int),
            table_header(t) == header.deep_view(),
            table_limit(t) == Some(width),
        decreases rows.len() - i,
    {
        table_add_row(&mut t, &rows[i]);
        proof {
            let all = rows.deep_view();
            assert(all.take(i + 1).drop_last() =~= all.take(i as int));
            assert(all.take(i + 1).last() =~= all[i as int]);
            assert(rows[i as int].deep_view() =~= all[i as int]);
        }
        i = i + 1;
    }
    assert(table_cells(t) =~= rows.deep_view());
    table_render(&t)
}

} // verus!
