//! Width negotiation for the tabular renderer: the effective terminal
//! width, and the width handed to a nested sub-table so that it exactly
//! fits the horizontal space the primary table leaves over.

use vstd::prelude::*;
use crate::errors::ConfigurationError;

verus! {

/// The default total width when neither the terminal nor an override
/// determines one.
pub const DEFAULT_WIDTH: u16 = 80;

/// The fixed border and padding allowance between a primary table's first
/// column and a sub-table nested in its second column: two outer borders,
/// one column separator, and four cells of padding.
pub const BORDER_ALLOWANCE: u16 = 7;

/// Whether `c` is a decimal digit.
pub open spec fn is_dec_digit(c: char) -> bool {
    48 <= (c as u32) && (c as u32) <= 57
}

/// The numeric value of a digit string, most significant digit first.
pub open spec fn dec_value(s: Seq<char>) -> nat
    decreases s.len(),
{
    if s.len() == 0 {
        0
    } else {
        dec_value(s.drop_last()) * 10 + (if (s.last() as u32) >= 48 {
            ((s.last() as u32) - 48) as nat
        } else {
            0
        })
    }
}

/// Whether the text is a valid width override: nonempty, all decimal
/// digits, and of a value that fits a width.
pub open spec fn valid_width_text(s: Seq<char>) -> bool {
    &&& s.len() > 0
    &&& forall|i: int| 0 <= i < s.len() ==> is_dec_digit(#[trigger] s[i])
    &&& dec_value(s) <= u16::MAX
}

/// A digit string's value never shrinks as digits are appended.
proof fn lemma_dec_value_prefix(s: Seq<char>, k: int)
    requires
        0 <= k <= s.len(),
    ensures
        dec_value(s.take(k)) <= dec_value(s),
    decreases s.len() - k,
{
    if k < s.len() {
        lemma_dec_value_prefix(s, k + 1);
        assert(s.take(k + 1).drop_last() =~= s.take(k));
        assert(dec_value(s.take(k + 1)) >= dec_value(s.take(k)));
    } else {
        assert(s.take(k) =~= s);
    }
}

/// Parses a width override. Returns the value exactly when the text is
/// nonempty, all decimal digits, and fits a width; any other text is
/// rejected.
pub fn parse_width(s: &String) -> (r: Option<u16>)
    ensures
        valid_width_text(s@) ==> (r matches Some(w) && w == dec_value(s@)),
        !valid_width_text(s@) ==> r is None,
{
    let st: &str = s.as_str();
    let n = st.unicode_len();
    if n == 0 {
        return None;
    }
    let mut acc: u32 = 0;
    let mut i: usize = 0;
    while i < n
        invariant
            0 < n == st@.len(),
            st@ == s@,
            i <= n,
            acc == dec_value(s@.take(i as int)),
            acc <= u16::MAX,
            forall|j: int| 0 <= j < i ==> is_dec_digit(#[trigger] s@[j]),
        decreases n - i,
    {
        let c = st.get_char(i);
        let cv = c as u32;
        if cv < 48 || cv > 57 {
            assert(!valid_width_text(s@));
            return None;
        }
        proof {
            assert(s@.take(i + 1).drop_last() =~= s@.take(i as int));
            assert(s@.take(i + 1).last() == s@[i as int]);
        }
        acc = acc * 10 + (cv - 48);
        if acc > 65535 {
            proof {
                lemma_dec_value_prefix(s@, i + 1);
            }
            assert(!valid_width_text(s@));
            return None;
        }
        i = i + 1;
    }
    assert(s@.take(n as int) =~= s@);
    Some(acc as u16)
}

/// Computes the effective total width for rendering: a hard error when the
/// explicit override is present but invalid; otherwise the terminal's
/// detected width when there is one, the override's value when not, and the
/// default width failing both.
pub fn effective_width(detected: Option<u16>, columns: &Option<String>) -> (r: Result<
    u16,
    ConfigurationError,
>)
    ensures
        columns is Some && !valid_width_text(columns->0@) ==> (r matches Err(
            ConfigurationError::InvalidWidth(t),
        ) && t@ == columns->0@),
        columns is Some && valid_width_text(columns->0@) && detected is None ==> r
            == Ok::<u16, ConfigurationError>(dec_value(columns->0@) as u16),
        (columns is None || valid_width_text(columns->0@)) && detected is Some ==> r
            == Ok::<u16, ConfigurationError>(detected->0),
        columns is None && detected is None ==> r == Ok::<u16, ConfigurationError>(DEFAULT_WIDTH),
{
    let fallback: u16 = match columns {
        Some(s) => match parse_width(s) {
            Some(w) => w,
            None => {
                return Err(ConfigurationError::InvalidWidth(s.clone()));
            },
        },
        None => DEFAULT_WIDTH,
    };
    match detected {
        Some(w) => Ok(w),
        None => Ok(fallback),
    }
}

/// The width allocated to a sub-table nested under a primary table whose
/// first column has content width `first`, out of a total width `total`:
/// what remains after the first column and the fixed border allowance, and
/// nothing when nothing remains.
pub open spec fn sub_width_spec(total: int, first: int) -> int {
    if first + BORDER_ALLOWANCE <= total {
        total - first - BORDER_ALLOWANCE
    } else {
        0
    }
}

/// Computes the width allocated to a nested sub-table.
pub fn sub_table_width(total: u16, first: u16) -> (w: u16)
    ensures
        w == sub_width_spec(total as int, first as int),
{
    if first <= total && BORDER_ALLOWANCE <= total - first {
        total - first - BORDER_ALLOWANCE
    } else {
        0
    }
}

/// The sub-table width never overflows the primary table: the sub-table's
/// width plus the first column's width plus the fixed border allowance
/// stays within the declared total width, whenever the total leaves any
/// room at all.
pub proof fn lemma_sub_table_fits(total: int, first: int)
    requires
        0 <= first,
        first + BORDER_ALLOWANCE <= total,
    ensures
        sub_width_spec(total, first) + first + BORDER_ALLOWANCE <= total,
{
}

/// The length of the first cell of a row, for column-width measurement.
pub open spec fn first_cell_len(row: Seq<Seq<char>>) -> int {
    if row.len() > 0 {
        row[0].len() as int
    } else {
        0
    }
}

/// The maximum content width of the first column over a sequence of rows.
pub open spec fn rows_first_col_width(rows: Seq<Seq<Seq<char>>>) -> int
    decreases rows.len(),
{
    if rows.len() == 0 {
        0
    } else if rows_first_col_width(rows.drop_last()) >= first_cell_len(rows.last()) {
        rows_first_col_width(rows.drop_last())
    } else {
        first_cell_len(rows.last())
    }
}

/// Measures the maximum content width already consumed by the first column
/// of a laid-out table: its header's first cell and every row's first cell.
pub fn first_column_width(header: &Vec<String>, rows: &Vec<Vec<String>>) -> (w: usize)
    ensures
        w == if rows_first_col_width(rows.deep_view()) >= first_cell_len(header.deep_view()) {
            rows_first_col_width(rows.deep_view())
        } else {
            first_cell_len(header.deep_view())
        },
{
    let mut w: usize = if header.len() > 0 {
        header[0].as_str().unicode_len()
    } else {
        0
    };
    assert(w == first_cell_len(header.deep_view()));
    let mut i: usize = 0;
    while i < rows.len()
        invariant
            i <= rows.len(),
            w == if rows_first_col_width(rows.deep_view().take(i as int)) >= first_cell_len(
                header.deep_view(),
            ) {
                rows_first_col_width(rows.deep_view().take(i as int))
            } else {
                first_cell_len(header.deep_view())
            },
        decreases rows.len() - i,
    {
        let row_w: usize = if rows[i].len() > 0 {
            rows[i][0].as_str().unicode_len()
        } else {
            0
        };
        proof {
            let all = rows.deep_view();
            assert(all.take(i + 1).drop_last() =~= all.take(i as int));
            assert(all.take(i + 1).last() =~= all[i as int]);
            assert(rows[i as int].deep_view() =~= all[i as int]);
        }
        if row_w > w {
            w = row_w;
        }
        i = i + 1;
    }
    assert(rows.deep_view().take(rows.len() as int) =~= rows.deep_view());
    w
}

} // verus!
