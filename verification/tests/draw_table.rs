use crossterm::style::{Attribute, ContentStyle};
use ger::change::ChangeColumn;
use ger::command::Command;
use ger::draw::table::draw_table;
use ger::layout::{HorizontalAlignment, LineNumberMode};
use ger::rect::Rect;
use ger::table::{
    resolve_line_number_column_width, Column, ColumnBuiltIn, ColumnIndex, ColumnValue, Columns, Row,
    Selection, Table, VerticalScroll,
};

/// Get common set of table components used in the Tests
fn table_components() -> (Table, Columns) {
    let mut row1 = Row::new();
    row1.insert(ChangeColumn::Commit as ColumnIndex, String::from("8f524ac"));
    row1.insert(ChangeColumn::Number as ColumnIndex, String::from("104508"));
    row1.insert(ChangeColumn::Owner as ColumnIndex, String::from("Auto QA"));
    let mut row2 = Row::new();
    row2.insert(ChangeColumn::Commit as ColumnIndex, String::from("18d3290"));
    row2.insert(ChangeColumn::Number as ColumnIndex, String::from("104525"));
    row2.insert(ChangeColumn::Owner as ColumnIndex, String::from("Joao Begin"));
    row2.insert(ChangeColumn::Topic as ColumnIndex, String::from("galaxy"));
    let table = Table { rows: vec![row1, row2] };
    let columns = Columns {
        print_header: true,
        visible: vec![
            Column {
                name: "".to_string(),
                width: resolve_line_number_column_width(table.rows.len()),
                style: ContentStyle::new(),
                alignment: HorizontalAlignment::Right,
                value: ColumnValue::BuiltIn {
                    builtin: ColumnBuiltIn::LineNumber {
                        mode: LineNumberMode::Normal,
                        style: ContentStyle::new(),
                    },
                },
            },
            Column {
                name: "commit".to_string(),
                width: 8,
                style: ContentStyle::new(),
                alignment: HorizontalAlignment::Left,
                value: ColumnValue::Data { index: ChangeColumn::Commit as ColumnIndex },
            },
            Column {
                name: "number".to_string(),
                width: 8,
                style: ContentStyle::new(),
                alignment: HorizontalAlignment::Left,
                value: ColumnValue::Data { index: ChangeColumn::Number as ColumnIndex },
            },
        ],
        hidden: vec![],
        separator: '|',
    };
    (table, columns)
}

/// The printed text of each screen row: the drawing moves down one row between rows.
fn strip_ansi_escapes(output: Vec<Command>) -> Vec<String> {
    let mut rows = vec![String::new()];
    for command in output {
        match command {
            Command::MoveDown(_) => rows.push(String::new()),
            Command::Print(_, text) => rows.last_mut().unwrap().push_str(&text),
            _ => {}
        }
    }
    rows
}

/// The text printed in reverse video (the selection style of these tests), concatenated.
fn get_reversed_rows(output: Vec<Command>) -> Vec<String> {
    let mut selection = String::new();
    for command in output {
        if let Command::Print(Some(style), text) = command {
            if style.attributes.has(Attribute::Reverse) {
                selection += &text;
            }
        }
    }
    if selection.is_empty() {
        vec![]
    } else {
        vec![selection]
    }
}

#[test]
/// Expect all columns are visible and last one has extended space to the screen end
fn table_multiple_columns_high_width() {
    let expected = vec![
        "  |commit  |number     ",
        " 1|8f524ac |104508     ",
        " 2|18d3290 |104525     ",
        "",
    ];
    let rect = Rect::from_size_unchecked((0, 0), (23, 3));
    let (table, columns) = table_components();
    let mut output: Vec<Command> = Vec::new();
    draw_table(&mut output, (&rect, &table, &columns, None, None, None));
    let output = strip_ansi_escapes(output);
    assert_eq!(expected, output);
}

#[test]
/// Expect the all columns are shown in a exact match space for column names
fn table_multiple_columns_exact_name_space() {
    let expected = vec![
        "commit  |number", //
        "",                //
    ];
    let rect = Rect::from_size_unchecked((0, 0), (15, 1));
    let (table, mut columns) = table_components();
    columns.visible.remove(0); // remove line-number column for this test
    let mut output: Vec<Command> = Vec::new();
    draw_table(&mut output, (&rect, &table, &columns, None, None, None));
    let output = strip_ansi_escapes(output);
    assert_eq!(expected, output);
}

#[test]
/// Expect a column is shown in a exact column space, other columns are not shown
fn table_multiple_columns_exact_one_column_space() {
    let expected = vec![
        "commit  ", //
        "8f524ac ", //
        "",         //
    ];
    let rect = Rect::from_size_unchecked((0, 0), (8, 2));
    let (table, mut columns) = table_components();
    columns.visible.remove(0); // remove line-number column for this test
    let mut output: Vec<Command> = Vec::new();
    draw_table(&mut output, (&rect, &table, &columns, None, None, None));
    let output = strip_ansi_escapes(output);
    assert_eq!(expected, output);
}

#[test]
/// Expect the first data column only show the etc. character, for 1 width only space
fn table_one_column_one_space() {
    let expected = vec![
        "…", // header
        "…", // row 1
        "…", // row 2
        "",    //
    ];
    let rect = Rect::from_size_unchecked((0, 0), (1, 3));
    let (table, mut columns) = table_components();
    columns.visible.remove(0); // remove line-number column for this test
    let mut output: Vec<Command> = Vec::new();
    draw_table(&mut output, (&rect, &table, &columns, None, None, None));
    let output = strip_ansi_escapes(output);
    assert_eq!(expected, output);
}

#[test]
/// Expect the first column of linenumbers only show the etc. character, for 1 width only space
fn one_column_one_space_line_numbers() {
    let expected = vec![
        "…", // header
        "…", // row 1
        "…", // row 2
        "",    //
    ];
    let rect = Rect::from_size_unchecked((0, 0), (1, 3));
    let (table, mut columns) = table_components();
    columns.visible.remove(0); // remove line-number column for this test
    let mut output: Vec<Command> = Vec::new();
    draw_table(&mut output, (&rect, &table, &columns, None, None, None));
    let output = strip_ansi_escapes(output);
    assert_eq!(expected, output);
}

#[test]
/// Expect the second columns only show the etc. character, for 1 width only space
fn table_second_column_one_space() {
    let expected = vec![
        "commit  |…", //
        "8f524ac |…", //
        "18d3290 |…", //
        "",             //
    ];
    let rect = Rect::from_size_unchecked((0, 0), (10, 3));
    let (table, mut columns) = table_components();
    columns.visible.remove(0); // remove line-number column for this test
    let mut output: Vec<Command> = Vec::new();
    draw_table(&mut output, (&rect, &table, &columns, None, None, None));
    let output = strip_ansi_escapes(output);
    assert_eq!(expected, output);
}

#[test]
/// Expect the second column show the etc. character for space missed by 1 char
fn table_second_column_almost_full_name_space() {
    let expected = vec![
        "commit  |numb…", //
        "",                 //
    ];
    let rect = Rect::from_size_unchecked((0, 0), (14, 1));
    let (table, mut columns) = table_components();
    columns.visible.remove(0); // remove line-number column for this test
    let mut output: Vec<Command> = Vec::new();
    draw_table(&mut output, (&rect, &table, &columns, None, None, None));
    let output = strip_ansi_escapes(output);
    assert_eq!(expected, output);
}

#[test]
/// Expect column headers are not printed when this flag is disabled
fn table_print_headers_disabled() {
    let expected = vec![
        " 1|8f524ac |1045…",
        " 2|18d3290 |1045…",
        "", //
    ];
    let rect = Rect::from_size_unchecked((0, 0), (17, 2));
    let (table, mut columns) = table_components();
    columns.print_header = false;
    let mut output: Vec<Command> = Vec::new();
    draw_table(&mut output, (&rect, &table, &columns, None, None, None));
    let output = strip_ansi_escapes(output);
    assert_eq!(expected, output);
}

#[test]
/// Expect no breakage when there are no columns to print
fn table_no_visible_columns() {
    let expected = vec!["", "", ""];
    let rect = Rect::from_size_unchecked((0, 0), (14, 3));
    let (table, _) = table_components();
    let columns = Columns::default();
    let mut output: Vec<Command> = Vec::new();
    draw_table(&mut output, (&rect, &table, &columns, None, None, None));
    let output = strip_ansi_escapes(output);
    assert_eq!(expected, output);
}

#[test]
/// Expect column with no name to have its length still filled up with spaces
fn table_column_no_name_fill_space() {
    let expected = vec![
        "  |commit  |     |number    ",
        " 1|8f524ac |     |104508    ",
        " 2|18d3290 |     |104525    ",
        "",
    ];
    let rect = Rect::from_size_unchecked((0, 0), (28, 3));
    let (table, mut columns) = table_components();
    columns.visible.insert(
        2,
        Column {
            name: "".to_string(),
            width: 5,
            style: ContentStyle::new(),
            alignment: HorizontalAlignment::Left,
            value: ColumnValue::Data {
                index: ChangeColumn::Time as ColumnIndex,
            },
        },
    );
    let mut output: Vec<Command> = Vec::new();
    draw_table(&mut output, (&rect, &table, &columns, None, None, None));
    let output = strip_ansi_escapes(output);
    assert_eq!(expected, output);
}

#[test]
/// Expect column with smaller length then its name to have the columns and its name constrained
fn table_column_smaller_length_than_name() {
    let expected = vec![
        "  |commit  |ow…|number      ",
        " 1|8f524ac |Au…|104508      ",
        " 2|18d3290 |Jo…|104525      ",
        "",
    ];
    let rect = Rect::from_size_unchecked((0, 0), (28, 3));
    let (table, mut columns) = table_components();
    columns.visible.insert(
        2,
        Column {
            name: "owner".to_string(),
            width: 3,
            style: ContentStyle::new(),
            alignment: HorizontalAlignment::Left,
            value: ColumnValue::Data {
                index: ChangeColumn::Owner as ColumnIndex,
            },
        },
    );
    let mut output: Vec<Command> = Vec::new();
    draw_table(&mut output, (&rect, &table, &columns, None, None, None));
    let output = strip_ansi_escapes(output);
    assert_eq!(expected, output);
}

#[test]
/// Expect full name when column length and name length match
fn table_column_name_exact_length() {
    let expected = vec![
        "  |commit  |branch|number   ", //
        "",                             //
    ];
    let rect = Rect::from_size_unchecked((0, 0), (28, 1));
    let (table, mut columns) = table_components();
    columns.visible.insert(
        2,
        Column {
            name: "branch".to_string(),
            width: 6,
            style: ContentStyle::new(),
            alignment: HorizontalAlignment::Left,
            value: ColumnValue::Data {
                index: ChangeColumn::Branch as ColumnIndex,
            },
        },
    );
    let mut output: Vec<Command> = Vec::new();
    draw_table(&mut output, (&rect, &table, &columns, None, None, None));
    let output = strip_ansi_escapes(output);
    assert_eq!(expected, output);
}

#[test]
/// Expect no breakage when there is no table entries to print, despite visible columns
fn table_no_table_entries_to_print() {
    let expected = vec![
        "  |commit  |number     ", //
        "",                        //
    ];
    let rect = Rect::from_size_unchecked((0, 0), (23, 3));
    let (_, columns) = table_components();
    let table = Table {
        rows: Vec::default(),
    };
    let mut output: Vec<Command> = Vec::new();
    draw_table(&mut output, (&rect, &table, &columns, None, None, None));
    let output = strip_ansi_escapes(output);
    assert_eq!(expected, output);
}

#[test]
/// Expect to print less table entries when space is smaller than table size
fn table_more_table_entries_than_space() {
    let expected = vec![
        "  |commit  |number     ", //
        " 1|8f524ac |104508     ", //
        "",                        //
    ];
    let rect = Rect::from_size_unchecked((0, 0), (23, 2));
    let (table, columns) = table_components();
    let mut output: Vec<Command> = Vec::new();
    draw_table(&mut output, (&rect, &table, &columns, None, None, None));
    let output = strip_ansi_escapes(output);
    assert_eq!(expected, output);
}

#[test]
/// Expect to print all table entries when space more space than table entries
fn table_more_space_than_table_entries() {
    let expected = vec![
        "  |commit  |number     ",
        " 1|8f524ac |104508     ",
        " 2|18d3290 |104525     ",
        "",
    ];
    let rect = Rect::from_size_unchecked((0, 0), (23, 5)); // note the height 5 !
    let (table, columns) = table_components();
    let mut output: Vec<Command> = Vec::new();
    draw_table(&mut output, (&rect, &table, &columns, None, None, None));
    let output = strip_ansi_escapes(output);
    assert_eq!(expected, output);
}

#[test]
/// Expect space is printed for table entries that does not have a given column
fn table_space_for_optional_column_in_table_entries() {
    let expected = vec![
        "  |commit  |topic     |numb…",
        " 1|8f524ac |          |1045…",
        " 2|18d3290 |galaxy    |1045…",
        "",
    ];
    let rect = Rect::from_size_unchecked((0, 0), (28, 3));
    let (table, mut columns) = table_components();
    columns.visible.insert(
        2,
        Column {
            name: "topic".to_string(),
            width: 10,
            style: ContentStyle::new(),
            alignment: HorizontalAlignment::Left,
            value: ColumnValue::Data {
                index: ChangeColumn::Topic as ColumnIndex,
            },
        },
    );
    let mut output: Vec<Command> = Vec::new();
    draw_table(&mut output, (&rect, &table, &columns, None, None, None));
    let output = strip_ansi_escapes(output);
    assert_eq!(expected, output);
}

#[test]
/// Expect the last column is right aligned to the end of the screen space
fn table_right_alignment_last_column() {
    let expected = vec![
        "  |commit  |     number",
        " 1|8f524ac |     104508",
        " 2|18d3290 |     104525",
        "",
    ];
    let rect = Rect::from_size_unchecked((0, 0), (23, 4));
    let (table, mut columns) = table_components();
    let last_idx = columns.visible.len() - 1;
    columns.visible[last_idx].alignment = HorizontalAlignment::Right;
    let mut output: Vec<Command> = Vec::new();
    draw_table(&mut output, (&rect, &table, &columns, None, None, None));
    let output = strip_ansi_escapes(output);
    assert_eq!(expected, output);
}

#[test]
/// Expect the last column is center aligned considering the remaining screen space
fn table_center_alignment_last_column() {
    let expected = vec![
        "  |commit  |  number   ",
        " 1|8f524ac |  104508   ",
        " 2|18d3290 |  104525   ",
        "",
    ];
    let rect = Rect::from_size_unchecked((0, 0), (23, 4));
    let (table, mut columns) = table_components();
    let last_idx = columns.visible.len() - 1;
    columns.visible[last_idx].alignment = HorizontalAlignment::Center;
    let mut output: Vec<Command> = Vec::new();
    draw_table(&mut output, (&rect, &table, &columns, None, None, None));
    let output = strip_ansi_escapes(output);
    assert_eq!(expected, output);
}

#[test]
/// Expect the table entries are right-aligned and large entries are cut out with etc. symbol
fn table_right_alignment_mixed_width_entries() {
    let expected = vec![
        "  |commit  |    owner|number",
        " 1|8f524ac |  Auto QA|104508",
        " 2|18d3290 |Joao Beg…|104525",
        "",
    ];
    let rect = Rect::from_size_unchecked((0, 0), (28, 3));
    let (table, mut columns) = table_components();
    columns.visible.insert(
        2,
        Column {
            name: "owner".to_string(),
            width: 9,
            style: ContentStyle::new(),
            alignment: HorizontalAlignment::Right,
            value: ColumnValue::Data {
                index: ChangeColumn::Owner as ColumnIndex,
            },
        },
    );
    let mut output: Vec<Command> = Vec::new();
    draw_table(&mut output, (&rect, &table, &columns, None, None, None));
    let output = strip_ansi_escapes(output);
    assert_eq!(expected, output);
}

#[test]
/// Expect the table entries are center-aligned and large entries are cut out with etc. symbol
fn table_center_alignment_mixed_width_entries() {
    let expected = vec![
        "  |commit  |  owner  |number",
        " 1|8f524ac | Auto QA |104508",
        " 2|18d3290 |Joao Beg…|104525",
        "",
    ];
    let rect = Rect::from_size_unchecked((0, 0), (28, 3));
    let (table, mut columns) = table_components();
    columns.visible.insert(
        2,
        Column {
            name: "owner".to_string(),
            width: 9,
            style: ContentStyle::new(),
            alignment: HorizontalAlignment::Center,
            value: ColumnValue::Data {
                index: ChangeColumn::Owner as ColumnIndex,
            },
        },
    );
    let mut output: Vec<Command> = Vec::new();
    draw_table(&mut output, (&rect, &table, &columns, None, None, None));
    let output = strip_ansi_escapes(output);
    assert_eq!(expected, output);
}

#[test]
/// Expect the table is drawn with the first row selected
fn table_select_first_row() {
    let expected_output = vec![
        "  |commit  |number     ", //
        " 1|8f524ac |104508     ", //
        " 2|18d3290 |104525     ", //
        "",                        //
    ];
    let expected_selection = vec![
        " 1|8f524ac |104508     ", //
    ];
    let rect = Rect::from_size_unchecked((0, 0), (23, 4));
    let (table, columns) = table_components();
    let selection = Selection {
        row_index: 0,
        style: ContentStyle::new().attribute(Attribute::Reverse),
    };
    let mut output: Vec<Command> = Vec::new();
    draw_table(
        &mut output,
        (&rect, &table, &columns, None, Some(&selection), None),
    );
    let actual_output = strip_ansi_escapes(output.clone());
    let actual_selection = get_reversed_rows(output.clone());
    assert_eq!(expected_output, actual_output);
    assert_eq!(expected_selection, actual_selection);
}

#[test]
/// Expect the table is drawn with the second row selected
fn table_select_second_row() {
    let expected_output = vec![
        "  |commit  |number     ", //
        " 1|8f524ac |104508     ", //
        " 2|18d3290 |104525     ", //
        " 3|46a003e |104455     ", //
        "",                        //
    ];
    let expected_selection = vec![
        " 2|18d3290 |104525     ", //
    ];
    let rect = Rect::from_size_unchecked((0, 0), (23, 4));
    let (mut table, columns) = table_components();
    let mut row3 = Row::new();
    row3.insert(ChangeColumn::Commit as ColumnIndex, String::from("46a003e"));
    row3.insert(ChangeColumn::Number as ColumnIndex, String::from("104455"));
    row3.insert(
        ChangeColumn::Owner as ColumnIndex,
        String::from("Thomas Edison"),
    );
    table.rows.push(row3);
    let selection = Selection {
        row_index: 1,
        style: ContentStyle::new().attribute(Attribute::Reverse),
    };
    let mut output: Vec<Command> = Vec::new();
    draw_table(
        &mut output,
        (&rect, &table, &columns, None, Some(&selection), None),
    );
    let actual_output = strip_ansi_escapes(output.clone());
    let actual_selection = get_reversed_rows(output.clone());
    assert_eq!(expected_output, actual_output);
    assert_eq!(expected_selection, actual_selection);
}

#[test]
/// Expect the table is drawn with the last row selected
fn table_select_last_row() {
    let expected_output = vec![
        "  |commit  |number     ", //
        " 1|8f524ac |104508     ", //
        " 2|18d3290 |104525     ", //
        " 3|46a003e |104455     ", //
        "",                        //
    ];
    let expected_selection = vec![
        " 3|46a003e |104455     ", //
    ];
    let rect = Rect::from_size_unchecked((0, 0), (23, 4));
    let (mut table, columns) = table_components();
    let mut row3 = Row::new();
    row3.insert(ChangeColumn::Commit as ColumnIndex, String::from("46a003e"));
    row3.insert(ChangeColumn::Number as ColumnIndex, String::from("104455"));
    row3.insert(
        ChangeColumn::Owner as ColumnIndex,
        String::from("Thomas Edison"),
    );
    table.rows.push(row3);
    let selection = Selection {
        row_index: 2,
        style: ContentStyle::new().attribute(Attribute::Reverse),
    };
    let mut output: Vec<Command> = Vec::new();
    draw_table(
        &mut output,
        (&rect, &table, &columns, None, Some(&selection), None),
    );
    let actual_output = strip_ansi_escapes(output.clone());
    let actual_selection = get_reversed_rows(output.clone());
    assert_eq!(expected_output, actual_output);
    assert_eq!(expected_selection, actual_selection);
}

#[test]
/// Expect the scroll with 0 units causes the table to be drawn starting from the first row
fn table_scroll_zero() {
    let expected_output = vec![
        "  |commit  |number     ", //
        " 1|8f524ac |104508     ", //
        " 2|18d3290 |104525     ", //
        " 3|46a003e |104455     ", //
        "",                        //
    ];
    let rect = Rect::from_size_unchecked((0, 0), (23, 4));
    let (mut table, columns) = table_components();
    let mut row3 = Row::new();
    row3.insert(ChangeColumn::Commit as ColumnIndex, String::from("46a003e"));
    row3.insert(ChangeColumn::Number as ColumnIndex, String::from("104455"));
    row3.insert(
        ChangeColumn::Owner as ColumnIndex,
        String::from("Thomas Edison"),
    );
    table.rows.push(row3);
    let vscroll = VerticalScroll { top_row: 0 };
    let mut output: Vec<Command> = Vec::new();
    draw_table(
        &mut output,
        (&rect, &table, &columns, Some(&vscroll), None, None),
    );
    let actual_output = strip_ansi_escapes(output.clone());
    assert_eq!(expected_output, actual_output);
}

#[test]
/// Expect the scroll with one units cause the table to be drawn starting from second row
fn table_scroll_one_row() {
    let expected_output = vec![
        "  |commit  |number     ", //
        " 2|18d3290 |104525     ", //
        " 3|46a003e |104455     ", //
        "",                        //
    ];
    let rect = Rect::from_size_unchecked((0, 0), (23, 4));
    let (mut table, columns) = table_components();
    let mut row3 = Row::new();
    row3.insert(ChangeColumn::Commit as ColumnIndex, String::from("46a003e"));
    row3.insert(ChangeColumn::Number as ColumnIndex, String::from("104455"));
    row3.insert(
        ChangeColumn::Owner as ColumnIndex,
        String::from("Thomas Edison"),
    );
    table.rows.push(row3);
    let vscroll = VerticalScroll { top_row: 1 };
    let mut output: Vec<Command> = Vec::new();
    draw_table(
        &mut output,
        (&rect, &table, &columns, Some(&vscroll), None, None),
    );
    let actual_output = strip_ansi_escapes(output.clone());
    assert_eq!(expected_output, actual_output);
}

#[test]
/// Expect the scroll with two units causes the table to be drawn starting from third row
fn table_scroll_two_row() {
    let expected_output = vec![
        "  |commit  |number     ", //
        " 3|46a003e |104455     ", //
        "",                        //
    ];
    let rect = Rect::from_size_unchecked((0, 0), (23, 4));
    let (mut table, columns) = table_components();
    let mut row3 = Row::new();
    row3.insert(ChangeColumn::Commit as ColumnIndex, String::from("46a003e"));
    row3.insert(ChangeColumn::Number as ColumnIndex, String::from("104455"));
    row3.insert(
        ChangeColumn::Owner as ColumnIndex,
        String::from("Thomas Edison"),
    );
    table.rows.push(row3);
    let vscroll = VerticalScroll { top_row: 2 };
    let mut output: Vec<Command> = Vec::new();
    draw_table(
        &mut output,
        (&rect, &table, &columns, Some(&vscroll), None, None),
    );
    let actual_output = strip_ansi_escapes(output.clone());
    assert_eq!(expected_output, actual_output);
}

#[test]
/// Expect the scroll with all rows cause the table to not be drawn
fn table_scroll_all_rows() {
    let expected_output = vec![
        "  |commit  |number     ", //
        "",                        //
    ];
    let rect = Rect::from_size_unchecked((0, 0), (23, 4));
    let (mut table, columns) = table_components();
    let mut row3 = Row::new();
    row3.insert(ChangeColumn::Commit as ColumnIndex, String::from("46a003e"));
    row3.insert(ChangeColumn::Number as ColumnIndex, String::from("104455"));
    row3.insert(
        ChangeColumn::Owner as ColumnIndex,
        String::from("Thomas Edison"),
    );
    table.rows.push(row3);
    let vscroll = VerticalScroll { top_row: 3 };
    let mut output: Vec<Command> = Vec::new();
    draw_table(
        &mut output,
        (&rect, &table, &columns, Some(&vscroll), None, None),
    );
    let actual_output = strip_ansi_escapes(output.clone());
    assert_eq!(expected_output, actual_output);
}

#[test]
/// Expect the table is drawn with the second row selected when table is scrolled down
fn table_selection_plus_scroll() {
    let expected_output = vec![
        "  |commit  |number     ", //
        " 2|18d3290 |104525     ", //
        " 3|46a003e |104455     ", //
        "",                        //
    ];
    let expected_selection = vec![
        " 2|18d3290 |104525     ", //
    ];
    let rect = Rect::from_size_unchecked((0, 0), (23, 3));
    let (mut table, columns) = table_components();
    let mut row3 = Row::new();
    row3.insert(ChangeColumn::Commit as ColumnIndex, String::from("46a003e"));
    row3.insert(ChangeColumn::Number as ColumnIndex, String::from("104455"));
    row3.insert(
        ChangeColumn::Owner as ColumnIndex,
        String::from("Thomas Edison"),
    );
    table.rows.push(row3);
    let vscroll = VerticalScroll { top_row: 1 };
    let selection = Selection {
        row_index: 1,
        style: ContentStyle::new().attribute(Attribute::Reverse),
    };
    let mut output: Vec<Command> = Vec::new();
    draw_table(
        &mut output,
        (
            &rect,
            &table,
            &columns,
            Some(&vscroll),
            Some(&selection),
            None,
        ),
    );
    let actual_output = strip_ansi_escapes(output.clone());
    let actual_selection = get_reversed_rows(output.clone());
    assert_eq!(expected_output, actual_output);
    assert_eq!(expected_selection, actual_selection);
}

#[test]
/// Expect the table is drawn with the second row selected, columns headers are not printed
fn table_selection_plus_scroll_minus_print_headers() {
    let expected_output = vec![
        " 2|18d3290 |104525     ", //
        " 3|46a003e |104455     ", //
        "",                        //
    ];
    let expected_selection = vec![
        " 2|18d3290 |104525     ", //
    ];
    let rect = Rect::from_size_unchecked((0, 0), (23, 3));
    let (mut table, mut columns) = table_components();
    columns.print_header = false;
    let mut row3 = Row::new();
    row3.insert(ChangeColumn::Commit as ColumnIndex, String::from("46a003e"));
    row3.insert(ChangeColumn::Number as ColumnIndex, String::from("104455"));
    row3.insert(
        ChangeColumn::Owner as ColumnIndex,
        String::from("Thomas Edison"),
    );
    table.rows.push(row3);
    let vscroll = VerticalScroll { top_row: 1 };
    let selection = Selection {
        row_index: 1,
        style: ContentStyle::new().attribute(Attribute::Reverse),
    };
    let mut output: Vec<Command> = Vec::new();
    draw_table(
        &mut output,
        (
            &rect,
            &table,
            &columns,
            Some(&vscroll),
            Some(&selection),
            None,
        ),
    );
    let actual_output = strip_ansi_escapes(output.clone());
    let actual_selection = get_reversed_rows(output.clone());
    assert_eq!(expected_output, actual_output);
    assert_eq!(expected_selection, actual_selection);
}

#[test]
/// Expect the table is drawn respecting scroll index and screen height and selection
fn table_scroll_plus_small_height() {
    let expected_output = vec![
        "  |commit  |number     ", //
        " 2|18d3290 |104525     ", // second row
        "",                        //
    ];
    let rect = Rect::from_size_unchecked((0, 0), (23, 2));
    let (mut table, columns) = table_components();
    let mut row3 = Row::new();
    row3.insert(ChangeColumn::Commit as ColumnIndex, String::from("46a003e"));
    row3.insert(ChangeColumn::Number as ColumnIndex, String::from("104455"));
    row3.insert(
        ChangeColumn::Owner as ColumnIndex,
        String::from("Thomas Edison"),
    );
    table.rows.push(row3);
    let vscroll = VerticalScroll { top_row: 1 };
    let mut output: Vec<Command> = Vec::new();
    draw_table(
        &mut output,
        (&rect, &table, &columns, Some(&vscroll), None, None),
    );
    let actual_output = strip_ansi_escapes(output.clone());
    assert_eq!(expected_output, actual_output);
}

#[test]
/// Expect the table is drawn respecting scroll index and screen height and selection and do not print column headers
fn table_scroll_plus_small_height_minus_print_columns() {
    let expected_output = vec![
        " 2|18d3290 |104525     ", // second row
        "",                        //
    ];
    let rect = Rect::from_size_unchecked((0, 0), (23, 1));
    let (mut table, mut columns) = table_components();
    columns.print_header = false;
    let mut row3 = Row::new();
    row3.insert(ChangeColumn::Commit as ColumnIndex, String::from("46a003e"));
    row3.insert(ChangeColumn::Number as ColumnIndex, String::from("104455"));
    row3.insert(
        ChangeColumn::Owner as ColumnIndex,
        String::from("Thomas Edison"),
    );
    table.rows.push(row3);
    let vscroll = VerticalScroll { top_row: 1 };
    let mut output: Vec<Command> = Vec::new();
    draw_table(
        &mut output,
        (&rect, &table, &columns, Some(&vscroll), None, None),
    );
    let actual_output = strip_ansi_escapes(output.clone());
    assert_eq!(expected_output, actual_output);
}

#[test]
/// Expect the table is drawn with the second row selected while still not visible
fn table_selection_outside_screen_space() {
    let expected_output = vec![
        "  |commit  |number     ", //
        " 1|8f524ac |104508     ", //
        "",                        //
    ];
    let expected_selection: Vec<&str> = vec![]; //empty cause there is no visible selection
    let rect = Rect::from_size_unchecked((0, 0), (23, 2));
    let (mut table, columns) = table_components();
    let mut row3 = Row::new();
    row3.insert(ChangeColumn::Commit as ColumnIndex, String::from("46a003e"));
    row3.insert(ChangeColumn::Number as ColumnIndex, String::from("104455"));
    row3.insert(
        ChangeColumn::Owner as ColumnIndex,
        String::from("Thomas Edison"),
    );
    table.rows.push(row3);
    let selection = Selection {
        row_index: 2,
        style: ContentStyle::new().attribute(Attribute::Reverse),
    };
    let mut output: Vec<Command> = Vec::new();
    draw_table(
        &mut output,
        (&rect, &table, &columns, None, Some(&selection), None),
    );
    let actual_output = strip_ansi_escapes(output.clone());
    let actual_selection = get_reversed_rows(output.clone());
    assert_eq!(expected_output, actual_output);
    assert_eq!(expected_selection, actual_selection);
}

#[test]
/// Expect drawing only the built-in line numbers column on exact space screen
fn only_line_numbers_column_exact_space() {
    let expected = vec![
        "ln", //
        " 1", //
        " 2", //
        "",   //
    ];
    let rect = Rect::from_size_unchecked((0, 0), (2, 4));
    let (table, mut columns) = table_components();
    columns.visible[0].name = "ln".to_string();
    // remove other columns
    while columns.visible.len() > 2 {
        columns.visible.remove(2);
    }
    let mut output: Vec<Command> = Vec::new();
    draw_table(&mut output, (&rect, &table, &columns, None, None, None));
    let output = strip_ansi_escapes(output);
    assert_eq!(expected, output);
}

#[test]
/// Expect drawing only the built-in line numbers column, the column is extended to the screen end
fn only_line_numbers_column_extends_width() {
    let expected = vec![
        "  ln", //
        "   1", //
        "   2", //
        "",     //
    ];
    let rect = Rect::from_size_unchecked((0, 0), (4, 4));
    let (table, mut columns) = table_components();
    columns.visible[0].name = "ln".to_string();
    // remove other columns
    while columns.visible.len() > 1 {
        columns.visible.remove(1);
    }
    let mut output: Vec<Command> = Vec::new();
    draw_table(&mut output, (&rect, &table, &columns, None, None, None));
    let output = strip_ansi_escapes(output);
    assert_eq!(expected, output);
}

#[test]
/// Expect drawing only the built-in line numbers column, but the width is shrunk
fn only_line_numbers_column_small_space() {
    let expected = vec![
        "…", //
        "1",   //
        "2",   //
        "",    //
    ];
    let rect = Rect::from_size_unchecked((0, 0), (1, 4));
    let (table, mut columns) = table_components();
    columns.visible[0].name = "ln".to_string();
    // remove other columns
    while columns.visible.len() > 1 {
        columns.visible.remove(1);
    }
    let mut output: Vec<Command> = Vec::new();
    draw_table(&mut output, (&rect, &table, &columns, None, None, None));
    let output = strip_ansi_escapes(output);
    assert_eq!(expected, output);
}

#[test]
/// Expect line-number columns are abbreviated with etc. symbol when width is small
fn scrolled_line_numbers_two_digits_small_space() {
    let expected_output = vec![
        " ",   //
        "9",   //
        "…", //
        "…", //
        "",    //
    ];
    let rect = Rect::from_size_unchecked((0, 0), (1, 4));
    let (mut table, columns) = table_components();
    for _ in table.rows.len()..=12 {
        let mut row3 = Row::new();
        row3.insert(ChangeColumn::Commit as ColumnIndex, String::from("46a003e"));
        row3.insert(ChangeColumn::Number as ColumnIndex, String::from("104455"));
        row3.insert(
            ChangeColumn::Owner as ColumnIndex,
            String::from("Thomas Edison"),
        );
        table.rows.push(row3);
    }
    let vscroll = VerticalScroll { top_row: 8 };
    let mut output: Vec<Command> = Vec::new();
    draw_table(
        &mut output,
        (&rect, &table, &columns, Some(&vscroll), None, None),
    );
    let actual_output = strip_ansi_escapes(output.clone());
    assert_eq!(expected_output, actual_output);
}

#[test]
/// Expect drawing built-in line numbers column with left alignment
fn line_numbers_column_left_aligned() {
    let expected = vec![
        "ln|commit ", //
        "1 |8f524ac", //
        "2 |18d3290", //
        "",           //
    ];
    let rect = Rect::from_size_unchecked((0, 0), (10, 4));
    let (table, mut columns) = table_components();
    columns.visible[0].name = "ln".to_string();
    columns.visible[0].alignment = HorizontalAlignment::Left;
    // remove other columns
    while columns.visible.len() > 2 {
        columns.visible.remove(2);
    }
    let mut output: Vec<Command> = Vec::new();
    draw_table(&mut output, (&rect, &table, &columns, None, None, None));
    let output = strip_ansi_escapes(output);
    assert_eq!(expected, output);
}

#[test]
/// Expect built-in line numbers column is not drawn when configured column width is zero
fn line_numbers_column_width_zero() {
    let expected = vec![
        "|commit  |number       ", //
        "|8f524ac |104508       ", //
        "|18d3290 |104525       ", //
        "",                        //
    ];
    let rect = Rect::from_size_unchecked((0, 0), (23, 4));
    let (table, mut columns) = table_components();
    columns.visible[0].width = 0;
    let mut output: Vec<Command> = Vec::new();
    draw_table(&mut output, (&rect, &table, &columns, None, None, None));
    let output = strip_ansi_escapes(output);
    assert_eq!(expected, output);
}

#[test]
/// Expect built-in line numbers column with column width 1 (one)
fn line_numbers_column_width_one() {
    let expected = vec![
        " |commit  |number      ", //
        "1|8f524ac |104508      ", //
        "2|18d3290 |104525      ", //
        "",                        //
    ];
    let rect = Rect::from_size_unchecked((0, 0), (23, 4));
    let (table, mut columns) = table_components();
    columns.visible[0].width = 1;
    let mut output: Vec<Command> = Vec::new();
    draw_table(&mut output, (&rect, &table, &columns, None, None, None));
    let output = strip_ansi_escapes(output);
    assert_eq!(expected, output);
}

#[test]
/// Expect built-in line numbers column with column width much larger then needed
fn line_numbers_column_width_large() {
    let expected = vec![
        "     |commit  |number  ", //
        "    1|8f524ac |104508  ", //
        "    2|18d3290 |104525  ", //
        "",                        //
    ];
    let rect = Rect::from_size_unchecked((0, 0), (23, 4));
    let (table, mut columns) = table_components();
    columns.visible[0].width = 5;
    let mut output: Vec<Command> = Vec::new();
    draw_table(&mut output, (&rect, &table, &columns, None, None, None));
    let output = strip_ansi_escapes(output);
    assert_eq!(expected, output);
}

#[test]
/// Expect the table is drawn with relative numbers to the selected third row
fn relative_line_numbers_selected_third_row() {
    let expected_output = vec![
        "  |commit  |number     ", //
        " 2|8f524ac |104508     ", //
        " 1|18d3290 |104525     ", //
        " 3|46a003e |104455     ", // selected
        " 1|8f524ac |104508     ", //
        " 2|18d3290 |104525     ", //
        " 3|46a003e |104455     ", //
        "",                        //
    ];
    let expected_selection = vec![
        " 3|46a003e |104455     ", //
    ];
    let rect = Rect::from_size_unchecked((0, 0), (23, 8));
    let (mut table, mut columns) = table_components();
    let mut row3 = Row::new();
    row3.insert(ChangeColumn::Commit as ColumnIndex, String::from("46a003e"));
    row3.insert(ChangeColumn::Number as ColumnIndex, String::from("104455"));
    row3.insert(
        ChangeColumn::Owner as ColumnIndex,
        String::from("Thomas Edison"),
    );
    table.rows.push(row3);
    table.rows.extend(table.rows.clone());
    match &mut columns.visible[0].value {
        ColumnValue::BuiltIn { builtin } => match builtin {
            ColumnBuiltIn::LineNumber { mode, .. } => {
                *mode = LineNumberMode::Relative;
            } // _ => {}
        },
        _ => {}
    }
    let selection = Selection {
        row_index: 2,
        style: ContentStyle::new().attribute(Attribute::Reverse),
    };
    let mut output: Vec<Command> = Vec::new();
    draw_table(
        &mut output,
        (&rect, &table, &columns, None, Some(&selection), None),
    );
    let actual_output = strip_ansi_escapes(output.clone());
    let actual_selection = get_reversed_rows(output.clone());
    assert_eq!(expected_output, actual_output);
    assert_eq!(expected_selection, actual_selection);
}

#[test]
/// Expect the table is drawn with normal numbers when it is relative but there is no selection
fn relative_line_numbers_no_selection() {
    let expected_output = vec![
        "  |commit  |number     ", //
        " 1|8f524ac |104508     ", //
        " 2|18d3290 |104525     ", //
        " 3|46a003e |104455     ", //
        " 4|8f524ac |104508     ", //
        " 5|18d3290 |104525     ", //
        " 6|46a003e |104455     ", //
        "",                        //
    ];
    let rect = Rect::from_size_unchecked((0, 0), (23, 8));
    let (mut table, mut columns) = table_components();
    let mut row3 = Row::new();
    row3.insert(ChangeColumn::Commit as ColumnIndex, String::from("46a003e"));
    row3.insert(ChangeColumn::Number as ColumnIndex, String::from("104455"));
    row3.insert(
        ChangeColumn::Owner as ColumnIndex,
        String::from("Thomas Edison"),
    );
    table.rows.push(row3);
    table.rows.extend(table.rows.clone());
    match &mut columns.visible[0].value {
        ColumnValue::BuiltIn { builtin } => match builtin {
            ColumnBuiltIn::LineNumber { mode, .. } => {
                *mode = LineNumberMode::Relative;
            } // _ => {}
        },
        _ => {}
    }
    let mut output: Vec<Command> = Vec::new();
    draw_table(&mut output, (&rect, &table, &columns, None, None, None));
    let actual_output = strip_ansi_escapes(output.clone());
    assert_eq!(expected_output, actual_output);
}

#[test]
/// Expect the table is drawn with normal numbers column with 3 digits
fn normal_line_numbers_3_digit_table_row() {
    let expected_output = vec![
        "   |commit  |number    ", //
        " 98|46a0100 |104552    ", //
        " 99|46a0102 |104553    ", //
        "100|46a0104 |104554    ", // selected
        "101|46a0106 |104555    ", //
        "102|46a0108 |104556    ", //
        "103|46a010a |104557    ", //
        "",                        //
    ];
    let expected_selection = vec![
        "100|46a0104 |104554    ", //
    ];
    let rect = Rect::from_size_unchecked((0, 0), (23, 7));
    let (mut table, mut columns) = table_components();
    for idx in table.rows.len()..=102 {
        let mut row = Row::new();
        let commit = 74055742 + (idx * 2);
        let number = 104455 + idx;
        row.insert(ChangeColumn::Commit as ColumnIndex, format!("{:x}", commit));
        row.insert(ChangeColumn::Number as ColumnIndex, format!("{}", number));
        table.rows.push(row);
    }
    columns.visible[0].width = resolve_line_number_column_width(table.rows.len());
    let vscroll = VerticalScroll { top_row: 97 };
    let selection = Selection {
        row_index: 99,
        style: ContentStyle::new().attribute(Attribute::Reverse),
    };
    let mut output: Vec<Command> = Vec::new();
    draw_table(
        &mut output,
        (
            &rect,
            &table,
            &columns,
            Some(&vscroll),
            Some(&selection),
            None,
        ),
    );
    let actual_output = strip_ansi_escapes(output.clone());
    let actual_selection = get_reversed_rows(output.clone());
    assert_eq!(expected_output, actual_output);
    assert_eq!(expected_selection, actual_selection);
}

#[test]
/// Expect the table is drawn with relative numbers column with 3 digits
fn relative_line_numbers_3_digit_table_row() {
    let expected_output = vec![
        "   |commit  |number    ", //
        "  2|46a0100 |104552    ", //
        "  1|46a0102 |104553    ", //
        "100|46a0104 |104554    ", // selected
        "  1|46a0106 |104555    ", //
        "  2|46a0108 |104556    ", //
        "  3|46a010a |104557    ", //
        "",                        //
    ];
    let expected_selection = vec![
        "100|46a0104 |104554    ", //
    ];
    let rect = Rect::from_size_unchecked((0, 0), (23, 7));
    let (mut table, mut columns) = table_components();
    for idx in table.rows.len()..=102 {
        let mut row = Row::new();
        let commit = 74055742 + (idx * 2);
        let number = 104455 + idx;
        row.insert(ChangeColumn::Commit as ColumnIndex, format!("{:x}", commit));
        row.insert(ChangeColumn::Number as ColumnIndex, format!("{}", number));
        table.rows.push(row);
    }
    columns.visible[0].width = resolve_line_number_column_width(table.rows.len());
    match &mut columns.visible[0].value {
        ColumnValue::BuiltIn { builtin } => match builtin {
            ColumnBuiltIn::LineNumber { mode, .. } => {
                *mode = LineNumberMode::Relative;
            } // _ => {}
        },
        _ => {}
    }
    let vscroll = VerticalScroll { top_row: 97 };
    let selection = Selection {
        row_index: 99,
        style: ContentStyle::new().attribute(Attribute::Reverse),
    };
    let mut output: Vec<Command> = Vec::new();
    draw_table(
        &mut output,
        (
            &rect,
            &table,
            &columns,
            Some(&vscroll),
            Some(&selection),
            None,
        ),
    );
    let actual_output = strip_ansi_escapes(output.clone());
    let actual_selection = get_reversed_rows(output.clone());
    assert_eq!(expected_output, actual_output);
    assert_eq!(expected_selection, actual_selection);
}


#[test]
fn table_drawability() {
    let rect = Rect::from_size_unchecked((0, 0), (23, 3));
    let (table, columns) = table_components();
    assert!(ger::draw::table::table_drawable_check((&rect, &table, &columns, None, None, None)));
    // a cell cut inside a character
    let (mut table, columns) = table_components();
    table.rows[0].insert(ChangeColumn::Number as ColumnIndex, String::from("aéééééééééééé"));
    assert!(!ger::draw::table::table_drawable_check((&rect, &table, &columns, None, None, None)));
    // a scroll position past the rows
    let (table, columns) = table_components();
    let vscroll = VerticalScroll { top_row: 3 };
    assert!(!ger::draw::table::table_drawable_check((&rect, &table, &columns, Some(&vscroll), None, None)));
}
