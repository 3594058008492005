use crate::command::ExContentStyle;
use crate::layout::{HorizontalAlignment, LineNumberMode};
use crate::term::TermUSize;
use crate::text::{decimal, lemma_usize_decimal_len, usize_to_decimal};
use crossterm::style::ContentStyle;
use std::collections::HashMap;
use vstd::prelude::*;
use vstd::utf8::is_ascii_chars_encode_utf8;

verus! {

/// Column Index size.
/// Defined because it is common in multiple places.
pub type ColumnIndex = u8;

/// A Table Row type.
/// Maps columns by its index to the column content of this row.
/// The HashMap allows for columns to be selected dynamically instead of being linked to
/// contiguous array indices, thus the displayed columns can be "cherry-picked".
pub type Row = HashMap<ColumnIndex, String>;

/// A Table is a widget component for displaying data as a spreadsheet.
#[derive(Default, Debug, Clone)]
pub struct Table {
    pub rows: Vec<Row>,
}

/// Columns is a component related to the Table component.
/// Defines which columns are available to be displayed in the Table.
#[derive(Default, Debug, Clone)]
pub struct Columns {
    pub print_header: bool,
    pub visible: Vec<Column>,
    pub hidden: Vec<Column>,
    pub separator: char,
}

/// Column's information.
#[derive(Debug, Clone)]
pub struct Column {
    pub name: String,
    pub width: TermUSize,
    pub style: ContentStyle,
    pub alignment: HorizontalAlignment,
    pub value: ColumnValue,
}

#[derive(Debug, Clone)]
pub enum ColumnValue {
    /// Built-in columns are generated when drawing.
    BuiltIn { builtin: ColumnBuiltIn },
    /// Data columns references the data in the Table's row array.
    Data { index: ColumnIndex },
}

/// List of available built-in columns for tables.
#[derive(Debug, Clone, Copy, Eq, PartialEq)]
pub enum ColumnBuiltIn {
    LineNumber { mode: LineNumberMode, style: ContentStyle },
}

/// VerticalScroll is a component that controls the visible rows of lists and tables.
/// The top_row indicates which row index is the first printed on the screen.
#[derive(Default, Debug, Clone)]
pub struct VerticalScroll {
    pub top_row: usize,
}

/// Selection is a component that indicates which row in a list/table is selected.
#[derive(Default, Debug, Clone)]
pub struct Selection {
    pub row_index: usize,
    pub style: ContentStyle,
}

/// The width of the line number column for a table of `rows_len` rows: the number of
/// digits of `rows_len` above 99, and 2 otherwise.
pub open spec fn spec_line_number_column_width(rows_len: nat) -> nat {
    if rows_len > 99 {
        decimal(rows_len).len()
    } else {
        2
    }
}

/// Resolve what the width for the line number column should be.
///
/// That is resolved based on the total number of rows that this table can have.
/// The resulting width is the number of digits for the maximum row.
/// Otherwise the default width is always 2.
pub fn resolve_line_number_column_width(rows_len: usize) -> (w: TermUSize)
    ensures
        w == spec_line_number_column_width(rows_len as nat),
{
    // default line number width is two digits wide
    if rows_len > 99 {
        let digits = usize_to_decimal(rows_len);
        proof {
            lemma_usize_decimal_len(rows_len);
            is_ascii_chars_encode_utf8(digits@);
        }
        digits.as_str().as_bytes().len() as TermUSize
    } else {
        2
    }
}

/// The line number column is wide enough for every line number of the table, from 1 to
/// the number of rows, and never narrower than two columns.
pub proof fn law_line_number_width_fits(rows_len: nat, line: nat)
    requires
        1 <= line <= rows_len,
    ensures
        decimal(line).len() <= spec_line_number_column_width(rows_len),
        spec_line_number_column_width(rows_len) >= 2,
{
    crate::text::lemma_decimal_len_monotonic(line, rows_len);
    if rows_len > 99 {
        crate::text::lemma_decimal_len_monotonic(100, rows_len);
        reveal_with_fuel(decimal, 4);
    } else {
        crate::text::lemma_decimal_len_monotonic(line, 99);
        reveal_with_fuel(decimal, 3);
    }
}

} // verus!
