use crossterm::style::{Attribute, ContentStyle};
use ger::border_box::Rect;
use ger::change::ChangeColumn;
use ger::command::Command;
use ger::draw::box_table::draw_table;
use ger::layout::HorizontalAlignment;
use ger::table::{Column, ColumnIndex, ColumnValue, Columns, Row, Selection, Table, VerticalScroll};

/// Get common set of table components used in the Tests
fn table_components() -> (Table, Columns) {
    let mut row1 = Row::new();
    row1.insert(ChangeColumn::Commit as ColumnIndex, String::from("8f524ac"));
    row1.insert(ChangeColumn::Number as ColumnIndex, String::from("104508"));
    row1.insert(ChangeColumn::Owner as ColumnIndex, String::from("Auto QA"));
    let mut row2 = Row::new();
    row2.insert(ChangeColumn::Commit as ColumnIndex, String::from("18d3290"));
    row2.insert(ChangeColumn::Number as ColumnIndex, String::from("104525"));
    row2.insert(ChangeColumn::Owner as ColumnIndex, String::from("Joao Begin"));
    row2.insert(ChangeColumn::Topic as ColumnIndex, String::from("galaxy"));
    let table = Table { rows: vec![row1, row2] };
    let columns = Columns {
        print_header: true,
        visible: vec![
            Column {
                name: "commit".to_string(),
                width: 8,
                style: ContentStyle::new(),
                alignment: HorizontalAlignment::Left,
                value: ColumnValue::Data { index: ChangeColumn::Commit as ColumnIndex },
            },
            Column {
                name: "number".to_string(),
                width: 8,
                style: ContentStyle::new(),
                alignment: HorizontalAlignment::Left,
                value: ColumnValue::Data { index: ChangeColumn::Number as ColumnIndex },
            },
        ],
        hidden: vec![],
        separator: '|',
    };
    (table, columns)
}

/// The selection style of these tests.
fn reverse() -> ContentStyle {
    ContentStyle::new().attribute(Attribute::Reverse)
}

/// The printed text of each line: the drawing moves to the next line between rows.
fn strip_ansi_escapes(output: Vec<Command>) -> Vec<String> {
    let mut rows = vec![String::new()];
    for command in output {
        match command {
            Command::MoveToNextLine(_) => rows.push(String::new()),
            Command::Print(_, text) => rows.last_mut().unwrap().push_str(&text),
            _ => {}
        }
    }
    rows
}

/// The text printed in reverse video on each line, for the lines that have any.
fn get_reversed_rows(output: Vec<Command>) -> Vec<String> {
    let mut selections = Vec::new();
    let mut selection = String::new();
    for command in output {
        match command {
            Command::MoveToNextLine(_) => {
                if !selection.is_empty() {
                    selections.push(std::mem::take(&mut selection));
                }
            }
            Command::Print(Some(style), text) if style.attributes.has(Attribute::Reverse) => {
                selection += &text;
            }
            _ => {}
        }
    }
    if !selection.is_empty() {
        selections.push(selection);
    }
    selections
}

#[test]
/// Expect all columns are visible and last one has extended space to the screen end
fn draw_multiple_columns_high_width() {
    let expected = vec![
        "commit  |number     ",
        "8f524ac |104508     ",
        "18d3290 |104525     ",
        "",
    ];
    let rect = Rect::from_size((0, 0), (20, 3));
    let (table, columns) = table_components();
    let mut output: Vec<Command> = Vec::new();
    draw_table(&mut output, (&rect, &table, &columns, None, None));
    let output = strip_ansi_escapes(output);
    assert_eq!(expected, output);
}

#[test]
/// Expect the all columns are shown in a exact match space for column names
fn draw_multiple_columns_exact_name_space() {
    let expected = vec![
        "commit  |number", //
        "",                //
    ];
    let rect = Rect::from_size((0, 0), (15, 1));
    let (table, columns) = table_components();
    let mut output: Vec<Command> = Vec::new();
    draw_table(&mut output, (&rect, &table, &columns, None, None));
    let output = strip_ansi_escapes(output);
    assert_eq!(expected, output);
}

#[test]
/// Expect a column is shown in a exact column space, other columns are not shown
fn draw_multiple_columns_exact_one_column_space() {
    let expected = vec![
        "commit  ", //
        "8f524ac ", //
        "",         //
    ];
    let rect = Rect::from_size((0, 0), (8, 2));
    let (table, columns) = table_components();
    let mut output: Vec<Command> = Vec::new();
    draw_table(&mut output, (&rect, &table, &columns, None, None));
    let output = strip_ansi_escapes(output);
    assert_eq!(expected, output);
}

#[test]
/// Expect the first column only show the etc. character, for 1 width only space
fn draw_one_column_one_space() {
    let expected = vec![
        "…", // header
        "…", // row 1
        "…", // row 2
        "",    //
    ];
    let rect = Rect::from_size((0, 0), (1, 3));
    let (table, columns) = table_components();
    let mut output: Vec<Command> = Vec::new();
    draw_table(&mut output, (&rect, &table, &columns, None, None));
    let output = strip_ansi_escapes(output);
    assert_eq!(expected, output);
}

#[test]
/// Expect the second columns only show the etc. character, for 1 width only space
fn draw_second_column_one_space() {
    let expected = vec![
        "commit  |…", //
        "8f524ac |…", //
        "18d3290 |…", //
        "",             //
    ];
    let rect = Rect::from_size((0, 0), (10, 3));
    let (table, columns) = table_components();
    let mut output: Vec<Command> = Vec::new();
    draw_table(&mut output, (&rect, &table, &columns, None, None));
    let output = strip_ansi_escapes(output);
    assert_eq!(expected, output);
}

#[test]
/// Expect the second column show the etc. character for space missed by 1 char
fn draw_second_column_almost_full_name_space() {
    let expected = vec![
        "commit  |numb…", //
        "",                 //
    ];
    let rect = Rect::from_size((0, 0), (14, 1));
    let (table, columns) = table_components();
    let mut output: Vec<Command> = Vec::new();
    draw_table(&mut output, (&rect, &table, &columns, None, None));
    let output = strip_ansi_escapes(output);
    assert_eq!(expected, output);
}

#[test]
/// Expect columns are not printed when this flag is disabled
fn draw_print_headers_disabled() {
    let expected = vec![
        "8f524ac |1045…",
        "18d3290 |1045…",
        "", //
    ];
    let rect = Rect::from_size((0, 0), (14, 2));
    let (table, mut columns) = table_components();
    columns.print_header = false;
    let mut output: Vec<Command> = Vec::new();
    draw_table(&mut output, (&rect, &table, &columns, None, None));
    let output = strip_ansi_escapes(output);
    assert_eq!(expected, output);
}

#[test]
/// Expect no breakage when there are no columns to print
fn draw_no_visible_columns() {
    let expected = vec!["", "", ""];
    let rect = Rect::from_size((0, 0), (14, 3));
    let (table, _) = table_components();
    let columns = Columns::default();
    let mut output: Vec<Command> = Vec::new();
    draw_table(&mut output, (&rect, &table, &columns, None, None));
    let output = strip_ansi_escapes(output);
    assert_eq!(expected, output);
}

#[test]
/// Expect column with no name to have its length still filled up with spaces
fn draw_column_no_name_fill_space() {
    let expected = vec![
        "commit  |     |number    ",
        "8f524ac |     |104508    ",
        "18d3290 |     |104525    ",
        "",
    ];
    let rect = Rect::from_size((0, 0), (25, 3));
    let (table, mut columns) = table_components();
    columns.visible.insert(
        1,
        Column {
            name: "".to_string(),
            width: 5,
            style: ContentStyle::new(),
            alignment: HorizontalAlignment::Left,
            value: ColumnValue::Data {
                index: ChangeColumn::Time as ColumnIndex,
            },
        },
    );
    let mut output: Vec<Command> = Vec::new();
    draw_table(&mut output, (&rect, &table, &columns, None, None));
    let output = strip_ansi_escapes(output);
    assert_eq!(expected, output);
}

#[test]
/// Expect column with smaller length then its name to have the columns and its name constrained
fn draw_column_smaller_length_than_name() {
    let expected = vec![
        "commit  |ow…|number      ",
        "8f524ac |Au…|104508      ",
        "18d3290 |Jo…|104525      ",
        "",
    ];
    let rect = Rect::from_size((0, 0), (25, 3));
    let (table, mut columns) = table_components();
    columns.visible.insert(
        1,
        Column {
            name: "owner".to_string(),
            width: 3,
            style: ContentStyle::new(),
            alignment: HorizontalAlignment::Left,
            value: ColumnValue::Data {
                index: ChangeColumn::Owner as ColumnIndex,
            },
        },
    );
    let mut output: Vec<Command> = Vec::new();
    draw_table(&mut output, (&rect, &table, &columns, None, None));
    let output = strip_ansi_escapes(output);
    assert_eq!(expected, output);
}

#[test]
/// Expect full name when column length and name length match
fn draw_column_name_exact_length() {
    let expected = vec![
        "commit  |branch|number   ", //
        "",                          //
    ];
    let rect = Rect::from_size((0, 0), (25, 1));
    let (table, mut columns) = table_components();
    columns.visible.insert(
        1,
        Column {
            name: "branch".to_string(),
            width: 6,
            style: ContentStyle::new(),
            alignment: HorizontalAlignment::Left,
            value: ColumnValue::Data {
                index: ChangeColumn::Branch as ColumnIndex,
            },
        },
    );
    let mut output: Vec<Command> = Vec::new();
    draw_table(&mut output, (&rect, &table, &columns, None, None));
    let output = strip_ansi_escapes(output);
    assert_eq!(expected, output);
}

#[test]
/// Expect no breakage when there is no table entries to print, despite visible columns
fn draw_no_table_entries_to_print() {
    let expected = vec![
        "commit  |number     ", //
        "",                     //
    ];
    let rect = Rect::from_size((0, 0), (20, 3));
    let (_, columns) = table_components();
    let table = Table {
        rows: Vec::default(),
    };
    let mut output: Vec<Command> = Vec::new();
    draw_table(&mut output, (&rect, &table, &columns, None, None));
    let output = strip_ansi_escapes(output);
    assert_eq!(expected, output);
}

#[test]
/// Expect to print less table entries when space is smaller than table size
fn draw_more_table_entries_than_space() {
    let expected = vec![
        "commit  |number     ", //
        "8f524ac |104508     ", //
        "",                     //
    ];
    let rect = Rect::from_size((0, 0), (20, 2));
    let (table, columns) = table_components();
    let mut output: Vec<Command> = Vec::new();
    draw_table(&mut output, (&rect, &table, &columns, None, None));
    let output = strip_ansi_escapes(output);
    assert_eq!(expected, output);
}

#[test]
/// Expect to print all table entries when space more space than table entries
fn draw_more_space_than_table_entries() {
    let expected = vec![
        "commit  |number     ",
        "8f524ac |104508     ",
        "18d3290 |104525     ",
        "",
    ];
    let rect = Rect::from_size((0, 0), (20, 5)); // note the height 5 !
    let (table, columns) = table_components();
    let mut output: Vec<Command> = Vec::new();
    draw_table(&mut output, (&rect, &table, &columns, None, None));
    let output = strip_ansi_escapes(output);
    assert_eq!(expected, output);
}

#[test]
/// Expect space is printed for table entries that does not have a given column
fn draw_space_for_optional_column_in_table_entries() {
    let expected = vec![
        "commit  |topic     |numb…",
        "8f524ac |          |1045…",
        "18d3290 |galaxy    |1045…",
        "",
    ];
    let rect = Rect::from_size((0, 0), (25, 3));
    let (table, mut columns) = table_components();
    columns.visible.insert(
        1,
        Column {
            name: "topic".to_string(),
            width: 10,
            style: ContentStyle::new(),
            alignment: HorizontalAlignment::Left,
            value: ColumnValue::Data {
                index: ChangeColumn::Topic as ColumnIndex,
            },
        },
    );
    let mut output: Vec<Command> = Vec::new();
    draw_table(&mut output, (&rect, &table, &columns, None, None));
    let output = strip_ansi_escapes(output);
    assert_eq!(expected, output);
}

#[test]
/// Expect the last column is right aligned to the end of the screen space
fn draw_right_alignment_last_column() {
    let expected = vec![
        "commit  |     number",
        "8f524ac |     104508",
        "18d3290 |     104525",
        "",
    ];
    let rect = Rect::from_size((0, 0), (20, 4));
    let (table, mut columns) = table_components();
    columns.visible[1].alignment = HorizontalAlignment::Right;
    let mut output: Vec<Command> = Vec::new();
    draw_table(&mut output, (&rect, &table, &columns, None, None));
    let output = strip_ansi_escapes(output);
    assert_eq!(expected, output);
}

#[test]
/// Expect the last column is center aligned considering the remaining screen space
fn draw_center_alignment_last_column() {
    let expected = vec![
        "commit  |  number   ",
        "8f524ac |  104508   ",
        "18d3290 |  104525   ",
        "",
    ];
    let rect = Rect::from_size((0, 0), (20, 4));
    let (table, mut columns) = table_components();
    columns.visible[1].alignment = HorizontalAlignment::Center;
    let mut output: Vec<Command> = Vec::new();
    draw_table(&mut output, (&rect, &table, &columns, None, None));
    let output = strip_ansi_escapes(output);
    assert_eq!(expected, output);
}

#[test]
/// Expect the table entries are right-aligned and large entries are cut out with etc. symbol
fn draw_right_alignment_mixed_width_entries() {
    let expected = vec![
        "commit  |    owner|number",
        "8f524ac |  Auto QA|104508",
        "18d3290 |Joao Beg…|104525",
        "",
    ];
    let rect = Rect::from_size((0, 0), (25, 3));
    let (table, mut columns) = table_components();
    columns.visible.insert(
        1,
        Column {
            name: "owner".to_string(),
            width: 9,
            style: ContentStyle::new(),
            alignment: HorizontalAlignment::Right,
            value: ColumnValue::Data {
                index: ChangeColumn::Owner as ColumnIndex,
            },
        },
    );
    let mut output: Vec<Command> = Vec::new();
    draw_table(&mut output, (&rect, &table, &columns, None, None));
    let output = strip_ansi_escapes(output);
    assert_eq!(expected, output);
}

#[test]
/// Expect the table entries are center-aligned and large entries are cut out with etc. symbol
fn draw_center_alignment_mixed_width_entries() {
    let expected = vec![
        "commit  |  owner  |number",
        "8f524ac | Auto QA |104508",
        "18d3290 |Joao Beg…|104525",
        "",
    ];
    let rect = Rect::from_size((0, 0), (25, 3));
    let (table, mut columns) = table_components();
    columns.visible.insert(
        1,
        Column {
            name: "owner".to_string(),
            width: 9,
            style: ContentStyle::new(),
            alignment: HorizontalAlignment::Center,
            value: ColumnValue::Data {
                index: ChangeColumn::Owner as ColumnIndex,
            },
        },
    );
    let mut output: Vec<Command> = Vec::new();
    draw_table(&mut output, (&rect, &table, &columns, None, None));
    let output = strip_ansi_escapes(output);
    assert_eq!(expected, output);
}

#[test]
/// Expect the table is drawn with the first row selected
fn draw_select_first_row() {
    let expected_output = vec![
        "commit  |number     ", //
        "8f524ac |104508     ", //
        "18d3290 |104525     ", //
        "",                     //
    ];
    let expected_selection = vec![
        "8f524ac |104508     ", //
    ];
    let rect = Rect::from_size((0, 0), (20, 4));
    let (table, columns) = table_components();
    let selection = Selection { row_index: 0, style: reverse() };
    let mut output: Vec<Command> = Vec::new();
    draw_table(
        &mut output,
        (&rect, &table, &columns, None, Some(&selection)),
    );
    let actual_output = strip_ansi_escapes(output.clone());
    let actual_selection = get_reversed_rows(output.clone());
    assert_eq!(expected_output, actual_output);
    assert_eq!(expected_selection, actual_selection);
}

#[test]
/// Expect the table is drawn with the second row selected
fn draw_select_second_row() {
    let expected_output = vec![
        "commit  |number     ", //
        "8f524ac |104508     ", //
        "18d3290 |104525     ", //
        "46a003e |104455     ", //
        "",                     //
    ];
    let expected_selection = vec![
        "18d3290 |104525     ", //
    ];
    let rect = Rect::from_size((0, 0), (20, 4));
    let (mut table, columns) = table_components();
    let mut row3 = Row::new();
    row3.insert(ChangeColumn::Commit as ColumnIndex, String::from("46a003e"));
    row3.insert(ChangeColumn::Number as ColumnIndex, String::from("104455"));
    row3.insert(
        ChangeColumn::Owner as ColumnIndex,
        String::from("Thomas Edison"),
    );
    table.rows.push(row3);
    let selection = Selection { row_index: 1, style: reverse() };
    let mut output: Vec<Command> = Vec::new();
    draw_table(
        &mut output,
        (&rect, &table, &columns, None, Some(&selection)),
    );
    let actual_output = strip_ansi_escapes(output.clone());
    let actual_selection = get_reversed_rows(output.clone());
    assert_eq!(expected_output, actual_output);
    assert_eq!(expected_selection, actual_selection);
}

#[test]
/// Expect the table is drawn with the last row selected
fn draw_select_last_row() {
    let expected_output = vec![
        "commit  |number     ", //
        "8f524ac |104508     ", //
        "18d3290 |104525     ", //
        "46a003e |104455     ", //
        "",                     //
    ];
    let expected_selection = vec![
        "46a003e |104455     ", //
    ];
    let rect = Rect::from_size((0, 0), (20, 4));
    let (mut table, columns) = table_components();
    let mut row3 = Row::new();
    row3.insert(ChangeColumn::Commit as ColumnIndex, String::from("46a003e"));
    row3.insert(ChangeColumn::Number as ColumnIndex, String::from("104455"));
    row3.insert(
        ChangeColumn::Owner as ColumnIndex,
        String::from("Thomas Edison"),
    );
    table.rows.push(row3);
    let selection = Selection { row_index: 2, style: reverse() };
    let mut output: Vec<Command> = Vec::new();
    draw_table(
        &mut output,
        (&rect, &table, &columns, None, Some(&selection)),
    );
    let actual_output = strip_ansi_escapes(output.clone());
    let actual_selection = get_reversed_rows(output.clone());
    assert_eq!(expected_output, actual_output);
    assert_eq!(expected_selection, actual_selection);
}

#[test]
/// Expect the scroll with 0 units cause the table to be drawn starting from the first row
fn draw_scroll_zero() {
    let expected_output = vec![
        "commit  |number     ", //
        "8f524ac |104508     ", //
        "18d3290 |104525     ", //
        "46a003e |104455     ", //
        "",                     //
    ];
    let rect = Rect::from_size((0, 0), (20, 4));
    let (mut table, columns) = table_components();
    let mut row3 = Row::new();
    row3.insert(ChangeColumn::Commit as ColumnIndex, String::from("46a003e"));
    row3.insert(ChangeColumn::Number as ColumnIndex, String::from("104455"));
    row3.insert(
        ChangeColumn::Owner as ColumnIndex,
        String::from("Thomas Edison"),
    );
    table.rows.push(row3);
    let vscroll = VerticalScroll { top_row: 0 };
    let mut output: Vec<Command> = Vec::new();
    draw_table(&mut output, (&rect, &table, &columns, Some(&vscroll), None));
    let actual_output = strip_ansi_escapes(output.clone());
    assert_eq!(expected_output, actual_output);
}

#[test]
/// Expect the scroll with one units cause the table to be drawn starting from row 1
fn draw_scroll_one_row() {
    let expected_output = vec![
        "commit  |number     ", //
        "18d3290 |104525     ", //
        "46a003e |104455     ", //
        "",                     //
    ];
    let rect = Rect::from_size((0, 0), (20, 4));
    let (mut table, columns) = table_components();
    let mut row3 = Row::new();
    row3.insert(ChangeColumn::Commit as ColumnIndex, String::from("46a003e"));
    row3.insert(ChangeColumn::Number as ColumnIndex, String::from("104455"));
    row3.insert(
        ChangeColumn::Owner as ColumnIndex,
        String::from("Thomas Edison"),
    );
    table.rows.push(row3);
    let vscroll = VerticalScroll { top_row: 1 };
    let mut output: Vec<Command> = Vec::new();
    draw_table(&mut output, (&rect, &table, &columns, Some(&vscroll), None));
    let actual_output = strip_ansi_escapes(output.clone());
    assert_eq!(expected_output, actual_output);
}

#[test]
/// Expect the scroll with two units cause the table to be drawn starting from row 2
fn draw_scroll_two_row() {
    let expected_output = vec![
        "commit  |number     ", //
        "46a003e |104455     ", //
        "",                     //
    ];
    let rect = Rect::from_size((0, 0), (20, 4));
    let (mut table, columns) = table_components();
    let mut row3 = Row::new();
    row3.insert(ChangeColumn::Commit as ColumnIndex, String::from("46a003e"));
    row3.insert(ChangeColumn::Number as ColumnIndex, String::from("104455"));
    row3.insert(
        ChangeColumn::Owner as ColumnIndex,
        String::from("Thomas Edison"),
    );
    table.rows.push(row3);
    let vscroll = VerticalScroll { top_row: 2 };
    let mut output: Vec<Command> = Vec::new();
    draw_table(&mut output, (&rect, &table, &columns, Some(&vscroll), None));
    let actual_output = strip_ansi_escapes(output.clone());
    assert_eq!(expected_output, actual_output);
}

#[test]
/// Expect the scroll with all rows cause the table to not be drawn
fn draw_scroll_all_rows() {
    let expected_output = vec![
        "commit  |number     ", //
        "",                     //
    ];
    let rect = Rect::from_size((0, 0), (20, 4));
    let (mut table, columns) = table_components();
    let mut row3 = Row::new();
    row3.insert(ChangeColumn::Commit as ColumnIndex, String::from("46a003e"));
    row3.insert(ChangeColumn::Number as ColumnIndex, String::from("104455"));
    row3.insert(
        ChangeColumn::Owner as ColumnIndex,
        String::from("Thomas Edison"),
    );
    table.rows.push(row3);
    let vscroll = VerticalScroll { top_row: 3 };
    let mut output: Vec<Command> = Vec::new();
    draw_table(&mut output, (&rect, &table, &columns, Some(&vscroll), None));
    let actual_output = strip_ansi_escapes(output.clone());
    assert_eq!(expected_output, actual_output);
}

#[test]
/// Expect the table is drawn with the second row selected
fn draw_selection_plus_scroll() {
    let expected_output = vec![
        "commit  |number     ", //
        "18d3290 |104525     ", //
        "46a003e |104455     ", //
        "",                     //
    ];
    let expected_selection = vec![
        "18d3290 |104525     ", //
    ];
    let rect = Rect::from_size((0, 0), (20, 3));
    let (mut table, columns) = table_components();
    let mut row3 = Row::new();
    row3.insert(ChangeColumn::Commit as ColumnIndex, String::from("46a003e"));
    row3.insert(ChangeColumn::Number as ColumnIndex, String::from("104455"));
    row3.insert(
        ChangeColumn::Owner as ColumnIndex,
        String::from("Thomas Edison"),
    );
    table.rows.push(row3);
    let vscroll = VerticalScroll { top_row: 1 };
    let selection = Selection { row_index: 1, style: reverse() };
    let mut output: Vec<Command> = Vec::new();
    draw_table(
        &mut output,
        (&rect, &table, &columns, Some(&vscroll), Some(&selection)),
    );
    let actual_output = strip_ansi_escapes(output.clone());
    let actual_selection = get_reversed_rows(output.clone());
    assert_eq!(expected_output, actual_output);
    assert_eq!(expected_selection, actual_selection);
}

#[test]
/// Expect the table is drawn with the second row selected, columns headers are not printed
fn draw_selection_plus_scroll_minus_print_headers() {
    let expected_output = vec![
        "18d3290 |104525     ", //
        "46a003e |104455     ", //
        "",                     //
    ];
    let expected_selection = vec![
        "18d3290 |104525     ", //
    ];
    let rect = Rect::from_size((0, 0), (20, 3));
    let (mut table, mut columns) = table_components();
    columns.print_header = false;
    let mut row3 = Row::new();
    row3.insert(ChangeColumn::Commit as ColumnIndex, String::from("46a003e"));
    row3.insert(ChangeColumn::Number as ColumnIndex, String::from("104455"));
    row3.insert(
        ChangeColumn::Owner as ColumnIndex,
        String::from("Thomas Edison"),
    );
    table.rows.push(row3);
    let vscroll = VerticalScroll { top_row: 1 };
    let selection = Selection { row_index: 1, style: reverse() };
    let mut output: Vec<Command> = Vec::new();
    draw_table(
        &mut output,
        (&rect, &table, &columns, Some(&vscroll), Some(&selection)),
    );
    let actual_output = strip_ansi_escapes(output.clone());
    let actual_selection = get_reversed_rows(output.clone());
    assert_eq!(expected_output, actual_output);
    assert_eq!(expected_selection, actual_selection);
}

#[test]
/// Expect the table is drawn respecting scroll index and screen height and selection
fn draw_scroll_plus_small_height() {
    let expected_output = vec![
        "commit  |number     ", //
        "18d3290 |104525     ", // second row
        "",                     //
    ];
    let rect = Rect::from_size((0, 0), (20, 2));
    let (mut table, columns) = table_components();
    let mut row3 = Row::new();
    row3.insert(ChangeColumn::Commit as ColumnIndex, String::from("46a003e"));
    row3.insert(ChangeColumn::Number as ColumnIndex, String::from("104455"));
    row3.insert(
        ChangeColumn::Owner as ColumnIndex,
        String::from("Thomas Edison"),
    );
    table.rows.push(row3);
    let vscroll = VerticalScroll { top_row: 1 };
    let mut output: Vec<Command> = Vec::new();
    draw_table(&mut output, (&rect, &table, &columns, Some(&vscroll), None));
    let actual_output = strip_ansi_escapes(output.clone());
    assert_eq!(expected_output, actual_output);
}

#[test]
/// Expect the table is drawn respecting scroll index and screen height and selection and do not print column headers
fn draw_scroll_plus_small_height_minus_print_columns() {
    let expected_output = vec![
        "18d3290 |104525     ", // second row
        "",                     //
    ];
    let rect = Rect::from_size((0, 0), (20, 1));
    let (mut table, mut columns) = table_components();
    columns.print_header = false;
    let mut row3 = Row::new();
    row3.insert(ChangeColumn::Commit as ColumnIndex, String::from("46a003e"));
    row3.insert(ChangeColumn::Number as ColumnIndex, String::from("104455"));
    row3.insert(
        ChangeColumn::Owner as ColumnIndex,
        String::from("Thomas Edison"),
    );
    table.rows.push(row3);
    let vscroll = VerticalScroll { top_row: 1 };
    let mut output: Vec<Command> = Vec::new();
    draw_table(&mut output, (&rect, &table, &columns, Some(&vscroll), None));
    let actual_output = strip_ansi_escapes(output.clone());
    assert_eq!(expected_output, actual_output);
}

#[test]
/// Expect the table is drawn with the second row selected
fn draw_selection_outside_screen_space() {
    let expected_output = vec![
        "commit  |number     ", //
        "8f524ac |104508     ", //
        "",                     //
    ];
    let expected_selection: Vec<&str> = vec![]; //empty cause there is no visible selection
    let rect = Rect::from_size((0, 0), (20, 2));
    let (mut table, columns) = table_components();
    let mut row3 = Row::new();
    row3.insert(ChangeColumn::Commit as ColumnIndex, String::from("46a003e"));
    row3.insert(ChangeColumn::Number as ColumnIndex, String::from("104455"));
    row3.insert(
        ChangeColumn::Owner as ColumnIndex,
        String::from("Thomas Edison"),
    );
    table.rows.push(row3);
    let selection = Selection { row_index: 2, style: reverse() };
    let mut output: Vec<Command> = Vec::new();
    draw_table(
        &mut output,
        (&rect, &table, &columns, None, Some(&selection)),
    );
    let actual_output = strip_ansi_escapes(output.clone());
    let actual_selection = get_reversed_rows(output.clone());
    assert_eq!(expected_output, actual_output);
    assert_eq!(expected_selection, actual_selection);
}
