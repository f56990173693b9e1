//! Sorting and cell layout of module parameters.
//!
//! Parameter rows are always emitted in ascending name order, independent of
//! the order the metadata source reports. A parameter with no description
//! renders a literal placeholder, and embedded tabs are expanded to four
//! spaces so that they cannot break column alignment.

use vstd::prelude::*;
use vstd::seq_lib::to_multiset_insert;
use crate::aggregate::Parameter;
use crate::text::{
    expand_tabs, lemma_lex_le_total, lemma_lex_le_trans, lex_le, str_le, tab_expanded,
};

verus! {

/// Whether the parameters are in ascending name order.
pub open spec fn params_sorted(s: Seq<Parameter>) -> bool {
    forall|i: int, j: int| 0 <= i < j < s.len() ==> lex_le(s[i].name@, s[j].name@)
}

/// Copies one parameter.
fn clone_parameter(p: &Parameter) -> (r: Parameter)
    ensures
        r == *p,
{
    let description = match &p.description {
        Some(d) => Some(d.clone()),
        None => None,
    };
    Parameter { name: p.name.clone(), description, type_tag: p.type_tag.clone() }
}

/// Sorts the parameters by name, ascending. The result holds exactly the
/// given parameters, rearranged.
pub fn sort_parameters(params: &Vec<Parameter>) -> (r: Vec<Parameter>)
    ensures
        params_sorted(r@),
        r@.to_multiset() == params@.to_multiset(),
        r@.len() == params@.len(),
{
    broadcast use vstd::seq_lib::group_to_multiset_ensures;

    let mut r: Vec<Parameter> = Vec::new();
    let mut i: usize = 0;
    assert(params@.take(0int) =~= Seq::<Parameter>::empty());
    while i < params.len()
        invariant
            i <= params.len(),
            r@.len() == i,
            params_sorted(r@),
            r@.to_multiset() == params@.take(i as int).to_multiset(),
        decreases params.len() - i,
    {
        broadcast use vstd::seq_lib::group_to_multiset_ensures;

        let p = clone_parameter(&params[i]);
        let mut j: usize = 0;
        while j < r.len()
            invariant_except_break
                j <= r.len(),
                forall|k: int| 0 <= k < j ==> lex_le(r@[k].name@, p.name@),
            ensures
                j <= r.len(),
                forall|k: int| 0 <= k < j ==> lex_le(r@[k].name@, p.name@),
                j < r.len() ==> !lex_le(r@[j as int].name@, p.name@),
            decreases r.len() - j,
        {
            if !str_le(r[j].name.as_str(), p.name.as_str()) {
                break ;
            }
            j = j + 1;
        }
        proof {
            if j < r@.len() {
                lemma_lex_le_total(r@[j as int].name@, p.name@);
                assert forall|k: int| j <= k < r@.len() implies lex_le(
                    p.name@,
                    r@[k].name@,
                ) by {
                    if k > j {
                        lemma_lex_le_trans(p.name@, r@[j as int].name@, r@[k].name@);
                    }
                }
            }
            r@.insert_ensures(j as int, p);
            to_multiset_insert(r@, j as int, p);
            assert(params@.take(i + 1) =~= params@.take(i as int).push(params@[i as int]));
            assert(params@.take(i as int).push(params@[i as int]).to_multiset()
                == params@.take(i as int).to_multiset().insert(params@[i as int]));
        }
        let ghost old_r = r@;
        r.insert(j, p);
        assert forall|a: int, b: int| 0 <= a < b < r@.len() implies lex_le(
            r@[a].name@,
            r@[b].name@,
        ) by {
            if b < j {
            } else if a < j && b == j {
            } else if a == j {
            } else if a < j {
                assert(r@[b] == old_r[b - 1]);
            } else {
                assert(r@[a] == old_r[a - 1] && r@[b] == old_r[b - 1]);
            }
        }
        i = i + 1;
    }
    assert(params@.take(params@.len() as int) =~= params@);
    r
}

/// The cell text for a parameter description: the description with tabs
/// expanded, or the literal placeholder meaning "none provided".
pub open spec fn desc_cell(d: Option<String>) -> Seq<char> {
    match d {
        Some(s) => tab_expanded(s@),
        None => "None"@,
    }
}

/// The three cells of one parameter row: name, description, type tag.
pub open spec fn param_cells(p: Parameter) -> Seq<Seq<char>> {
    seq![p.name@, desc_cell(p.description), p.type_tag@]
}

/// What a parameter row set holds for a given parameter sequence: one row
/// per parameter, names in ascending order, and some ascending
/// rearrangement of the parameters accounting for every row's cells.
pub open spec fn param_rows_match(rows: Seq<Seq<Seq<char>>>, params: Seq<Parameter>) -> bool {
    &&& rows.len() == params.len()
    &&& forall|i: int, j: int| 0 <= i < j < rows.len() ==> lex_le(rows[i][0], rows[j][0])
    &&& exists|sp: Seq<Parameter>|
        {
            &&& sp.to_multiset() == params.to_multiset()
            &&& params_sorted(sp)
            &&& sp.len() == rows.len()
            &&& forall|i: int| 0 <= i < sp.len() ==> rows[i] == param_cells(sp[i])
        }
}

/// Lays the parameters out as rows of name, description, and type cells,
/// sorted by parameter name, ascending, regardless of input order.
///
/// The rows hold exactly the given parameters: some ascending rearrangement
/// of the input accounts for every row.
pub fn info_param_rows(params: &Vec<Parameter>) -> (rows: Vec<Vec<String>>)
    ensures
        param_rows_match(rows.deep_view(), params@),
{
    let sorted = sort_parameters(params);
    let mut rows: Vec<Vec<String>> = Vec::new();
    let mut i: usize = 0;
    while i < sorted.len()
        invariant
            i <= sorted.len(),
            rows@.len() == i,
            forall|k: int| 0 <= k < i ==> (#[trigger] rows@[k]).deep_view() == param_cells(
                sorted@[k],
            ),
        decreases sorted.len() - i,
    {
        let p = &sorted[i];
        let desc = match &p.description {
            Some(d) => expand_tabs(d),
            None => String::from_str("None"),
        };
        let mut row: Vec<String> = Vec::new();
        row.push(p.name.clone());
        row.push(desc);
        row.push(p.type_tag.clone());
        assert(row.deep_view() =~= param_cells(sorted@[i as int]));
        rows.push(row);
        i = i + 1;
    }
    proof {
        let sp = sorted@;
        assert(rows.deep_view().len() == rows@.len());
        assert forall|k: int| 0 <= k < sp.len() implies #[trigger] rows.deep_view()[k]
            == param_cells(sp[k]) by {
            assert(rows.deep_view()[k] == rows@[k].deep_view());
        }
        assert forall|a: int, b: int| 0 <= a < b < rows.deep_view().len() implies lex_le(
            rows.deep_view()[a][0],
            rows.deep_view()[b][0],
        ) by {
            assert(rows.deep_view()[a] == param_cells(sp[a]));
            assert(rows.deep_view()[b] == param_cells(sp[b]));
            assert(param_cells(sp[a])[0] == sp[a].name@);
            assert(param_cells(sp[b])[0] == sp[b].name@);
        }
        assert(sp.to_multiset() == params@.to_multiset() && params_sorted(sp) && sp.len()
            == rows.deep_view().len() && forall|k: int|
            0 <= k < sp.len() ==> rows.deep_view()[k] == param_cells(sp[k]));
    }
    rows
}

} // verus!
