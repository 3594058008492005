use crate::command::{push_command, push_print, views, Command, CommandView, ExContentStyle};
use crate::draw::winbox::{
    draw_winbox, has_inner, spec_draw_winbox, winbox_drawable, winbox_drawable_check,
};
use crate::draw::{cuts_cleanly, format_strip_align, spec_strip_align, strip_align_cuts_cleanly};
use crate::layout::{HorizontalAlignment, LineNumberMode};
use crate::rect::Rect;
use crate::table::{
    Column, ColumnBuiltIn, ColumnValue, Columns, Row, Selection, Table, VerticalScroll,
};
use crate::text::{byte_len, char_to_string, decimal, usize_to_decimal};
use crate::winbox::WinBox;
use crossterm::style::ContentStyle;
use std::collections::HashMap;
use vstd::prelude::*;

verus! {

broadcast use vstd::std_specs::hash::group_hash_axioms;

/// Where a visible column is drawn in a row: its index among the visible columns, whether
/// a separator comes before it, and how many columns its content takes.
#[derive(Debug, Clone, Copy, PartialEq, Eq, Structural)]
pub struct ColumnSlot {
    pub column: usize,
    pub separator: bool,
    pub width: usize,
}

/// Bytes of the column separator, as `separator.to_string().len()` counts them.
pub open spec fn separator_len(columns: Columns) -> int {
    byte_len(seq![columns.separator]) as int
}

/// The slots of the visible columns from index `i` on, once `walked` of `width` columns
/// are taken. Each column after the first is preceded by the separator; a column gets its
/// width, or what is left if that is less, and the last visible column gets all that is
/// left. Columns stop where no room is left. `None` when the separator does not fit into
/// the room that is left.
pub open spec fn spec_layout_from(
    width: int,
    visible: Seq<Column>,
    sep_len: int,
    i: int,
    walked: int,
) -> Option<Seq<ColumnSlot>>
    decreases visible.len() - i,
{
    if i < 0 || i >= visible.len() || width - walked <= 0 {
        Some(Seq::empty())
    } else {
        let s = if i == 0 {
            0
        } else {
            sep_len
        };
        if width - walked < s {
            None
        } else {
            let available = width - walked - s;
            let w = if i == visible.len() - 1 {
                available
            } else if (visible[i].width as int) < available {
                visible[i].width as int
            } else {
                available
            };
            match spec_layout_from(width, visible, sep_len, i + 1, walked + w + s) {
                Some(rest) => Some(
                    seq![ColumnSlot { column: i as usize, separator: i > 0, width: w as usize }]
                        + rest,
                ),
                None => None,
            }
        }
    }
}

/// The slots of the visible columns in a row of `width` columns.
pub open spec fn spec_layout(width: int, columns: Columns) -> Option<Seq<ColumnSlot>> {
    spec_layout_from(width, columns.visible@, separator_len(columns), 0, 0)
}

/// Columns taken by the first `k` slots, separators included.
pub open spec fn slots_width(columns: Columns, slots: Seq<ColumnSlot>, k: int) -> int
    decreases k,
{
    if k <= 0 {
        0
    } else {
        slots_width(columns, slots, k - 1) + slots[k - 1].width + if slots[k - 1].separator {
            separator_len(columns)
        } else {
            0
        }
    }
}

/// The text printed before a slot: the separator, or nothing for the first column.
pub open spec fn separator_text(columns: Columns, slot: ColumnSlot) -> Seq<char> {
    if slot.separator {
        seq![columns.separator]
    } else {
        Seq::empty()
    }
}

/// The commands of one header cell: separator in the default style, then the column name
/// fitted into the slot, in the column style.
pub open spec fn header_cell(columns: Columns, slot: ColumnSlot) -> Seq<CommandView> {
    let column = columns.visible@[slot.column as int];
    seq![
        CommandView::Print(None, separator_text(columns, slot)),
        CommandView::Print(
            Some(column.style),
            spec_strip_align(column.name@, slot.width as nat, column.alignment),
        ),
    ]
}

pub open spec fn header_cells(columns: Columns, slots: Seq<ColumnSlot>, k: int) -> Seq<CommandView>
    decreases k,
{
    if k <= 0 {
        Seq::empty()
    } else {
        header_cells(columns, slots, k - 1) + header_cell(columns, slots[k - 1])
    }
}

/// The line number shown for row `row_idx` (from 0): `row_idx + 1` in normal mode; in
/// relative mode with a selection, the distance to the selected row (both indices taken
/// as `i32`), or `row_idx + 1` for the selected row itself.
pub open spec fn spec_line_number(
    mode: LineNumberMode,
    row_idx: int,
    selection: Option<&Selection>,
) -> int {
    match mode {
        LineNumberMode::Normal => row_idx + 1,
        LineNumberMode::Relative => match selection {
            Some(selected) => {
                let d = (selected.row_index as i32) - (row_idx as i32);
                let distance = if d < 0 {
                    -d
                } else {
                    d
                };
                if distance == 0 {
                    row_idx + 1
                } else {
                    distance
                }
            },
            None => row_idx + 1,
        },
    }
}

/// The line number of a row can be computed in `i32` without overflow.
pub open spec fn line_number_computable(
    mode: LineNumberMode,
    row_idx: int,
    selection: Option<&Selection>,
) -> bool {
    match (mode, selection) {
        (LineNumberMode::Relative, Some(selected)) => {
            let d = (selected.row_index as i32) - (row_idx as i32);
            i32::MIN < d <= i32::MAX
        },
        _ => true,
    }
}

/// The text of a data cell: the row's value for the column index, or nothing.
pub open spec fn data_text(row: Map<u8, String>, index: u8) -> Seq<char> {
    if row.contains_key(index) {
        row[index]@
    } else {
        Seq::empty()
    }
}

/// The content of a cell and its own style: the line number in the line number style for
/// the built-in column; the row's data and no style for a data column.
pub open spec fn cell_content(
    row_idx: int,
    row: Map<u8, String>,
    value: ColumnValue,
    selection: Option<&Selection>,
) -> (Seq<char>, Option<ContentStyle>) {
    match value {
        ColumnValue::BuiltIn { builtin } => match builtin {
            ColumnBuiltIn::LineNumber { mode, style } => (
                decimal(spec_line_number(mode, row_idx, selection) as nat),
                Some(style),
            ),
        },
        ColumnValue::Data { index } => (data_text(row, index), None),
    }
}

/// The style of a selected row, for the row that is selected.
pub open spec fn row_style(row_idx: int, selection: Option<&Selection>) -> Option<ContentStyle> {
    match selection {
        Some(selected) => if selected.row_index == row_idx {
            Some(selected.style)
        } else {
            None
        },
        None => None,
    }
}

/// The style of a cell: the selection style in the selected row, otherwise the cell's own
/// style (`None` for the default style).
pub open spec fn cell_style(
    row_idx: int,
    row: Map<u8, String>,
    value: ColumnValue,
    selection: Option<&Selection>,
) -> Option<ContentStyle> {
    match row_style(row_idx, selection) {
        Some(style) => Some(style),
        None => cell_content(row_idx, row, value, selection).1,
    }
}

/// The commands of one cell: separator and fitted content, both in the cell style.
pub open spec fn row_cell(
    columns: Columns,
    slot: ColumnSlot,
    row_idx: int,
    row: Map<u8, String>,
    selection: Option<&Selection>,
) -> Seq<CommandView> {
    let column = columns.visible@[slot.column as int];
    let style = cell_style(row_idx, row, column.value, selection);
    seq![
        CommandView::Print(style, separator_text(columns, slot)),
        CommandView::Print(
            style,
            spec_strip_align(
                cell_content(row_idx, row, column.value, selection).0,
                slot.width as nat,
                column.alignment,
            ),
        ),
    ]
}

pub open spec fn row_cells(
    columns: Columns,
    slots: Seq<ColumnSlot>,
    row_idx: int,
    row: Map<u8, String>,
    selection: Option<&Selection>,
    k: int,
) -> Seq<CommandView>
    decreases k,
{
    if k <= 0 {
        Seq::empty()
    } else {
        row_cells(columns, slots, row_idx, row, selection, k - 1) + row_cell(
            columns,
            slots[k - 1],
            row_idx,
            row,
            selection,
        )
    }
}

/// Moving to the beginning of the next row of the rectangle.
pub open spec fn next_row(rect: Rect) -> Seq<CommandView> {
    seq![CommandView::MoveDown(1), CommandView::MoveToColumn((rect.x.0 + 1) as u16)]
}

/// The commands of one table row: its cells, then the move to the next row.
pub open spec fn row_commands(
    rect: Rect,
    columns: Columns,
    slots: Seq<ColumnSlot>,
    row_idx: int,
    row: Map<u8, String>,
    selection: Option<&Selection>,
) -> Seq<CommandView> {
    row_cells(columns, slots, row_idx, row, selection, slots.len() as int) + next_row(rect)
}

/// The commands of `k` table rows from index `begin`.
pub open spec fn rows_commands(
    rect: Rect,
    rows: Seq<Row>,
    columns: Columns,
    slots: Seq<ColumnSlot>,
    begin: int,
    selection: Option<&Selection>,
    k: int,
) -> Seq<CommandView>
    decreases k,
{
    if k <= 0 {
        Seq::empty()
    } else {
        rows_commands(rect, rows, columns, slots, begin, selection, k - 1) + row_commands(
            rect,
            columns,
            slots,
            begin + k - 1,
            rows[begin + k - 1]@,
            selection,
        )
    }
}

/// The first row that is drawn: the scroll position, or the first row.
pub open spec fn first_row(vscroll: Option<&VerticalScroll>) -> int {
    match vscroll {
        Some(v) => v.top_row as int,
        None => 0,
    }
}

/// How many rows are drawn: the rows after the scroll position, at most the height.
pub open spec fn visible_rows_count(rect: Rect, table: Table, vscroll: Option<&VerticalScroll>) -> int {
    let after = table.rows@.len() - first_row(vscroll);
    if after < rect.spec_height() {
        after
    } else {
        rect.spec_height()
    }
}

/// A cell of row `row_idx` in a slot can be drawn: its line number computes and its
/// content is cut on a character boundary.
pub open spec fn cell_drawable(
    columns: Columns,
    slot: ColumnSlot,
    row_idx: int,
    row: Map<u8, String>,
    selection: Option<&Selection>,
) -> bool {
    let column = columns.visible@[slot.column as int];
    &&& match column.value {
        ColumnValue::BuiltIn { builtin } => match builtin {
            ColumnBuiltIn::LineNumber { mode, style } => line_number_computable(
                mode,
                row_idx,
                selection,
            ),
        },
        ColumnValue::Data { index } => true,
    }
    &&& strip_align_cuts_cleanly(
        cell_content(row_idx, row, column.value, selection).0,
        slot.width as nat,
    )
}

/// The rows of the table can be drawn in `rect`.
pub open spec fn rows_drawable(
    rect: Rect,
    table: Table,
    columns: Columns,
    vscroll: Option<&VerticalScroll>,
    selection: Option<&Selection>,
) -> bool {
    &&& rect.width_fits()
    &&& rect.height_fits()
    &&& rect.x.0 < u16::MAX
    &&& spec_layout(rect.spec_width(), columns) is Some
    &&& 0 <= first_row(vscroll) <= table.rows@.len()
    &&& forall|row_idx: int, k: int|
        first_row(vscroll) <= row_idx < first_row(vscroll) + visible_rows_count(
            rect,
            table,
            vscroll,
        ) && 0 <= k < spec_layout(rect.spec_width(), columns)->0.len() ==> #[trigger] cell_drawable(
            columns,
            spec_layout(rect.spec_width(), columns)->0[k],
            row_idx,
            table.rows@[row_idx]@,
            selection,
        )
}

/// The header of the table can be drawn in `rect`.
pub open spec fn headers_drawable(rect: Rect, columns: Columns) -> bool {
    &&& rect.width_fits()
    &&& spec_layout(rect.spec_width(), columns) is Some
    &&& forall|k: int|
        0 <= k < spec_layout(rect.spec_width(), columns)->0.len() ==> strip_align_cuts_cleanly(
            columns.visible@[(#[trigger] spec_layout(rect.spec_width(), columns)->0[k]).column as int].name@,
            spec_layout(rect.spec_width(), columns)->0[k].width as nat,
        )
}

/// The commands of the header row.
pub open spec fn spec_headers(rect: Rect, columns: Columns) -> Seq<CommandView> {
    let slots = spec_layout(rect.spec_width(), columns)->0;
    header_cells(columns, slots, slots.len() as int)
}

/// The commands of the visible table rows.
pub open spec fn spec_rows(
    rect: Rect,
    table: Table,
    columns: Columns,
    vscroll: Option<&VerticalScroll>,
    selection: Option<&Selection>,
) -> Seq<CommandView> {
    rows_commands(
        rect,
        table.rows@,
        columns,
        spec_layout(rect.spec_width(), columns)->0,
        first_row(vscroll),
        selection,
        visible_rows_count(rect, table, vscroll),
    )
}

/// The rectangle of the table inside its window box, if it has one.
pub open spec fn content_rect(rect: Rect, winbox: Option<&WinBox>) -> Rect {
    match winbox {
        Some(_) => rect.spec_inner(),
        None => rect,
    }
}

/// The rectangle of the table rows: below the header, if there is one.
pub open spec fn rows_rect(rect: Rect, columns: Columns) -> Option<Rect> {
    if columns.print_header {
        rect.spec_offset_y0(1)
    } else {
        Some(rect)
    }
}

/// `draw_table` can draw the whole table.
pub open spec fn table_drawable(
    rect: Rect,
    table: Table,
    columns: Columns,
    vscroll: Option<&VerticalScroll>,
    selection: Option<&Selection>,
    winbox: Option<&WinBox>,
) -> bool {
    let inner = content_rect(rect, winbox);
    &&& winbox matches Some(w) ==> winbox_drawable(rect, *w)
    &&& (winbox is None || has_inner(rect)) ==> {
        &&& columns.print_header ==> headers_drawable(inner, columns) && inner.x.0 < u16::MAX
        &&& rows_rect(inner, columns) matches Some(rows) ==> rows_drawable(
            rows,
            table,
            columns,
            vscroll,
            selection,
        )
    }
}

/// What `draw_table` draws, and whether it returns `Some`.
pub open spec fn spec_draw_table(
    rect: Rect,
    table: Table,
    columns: Columns,
    vscroll: Option<&VerticalScroll>,
    selection: Option<&Selection>,
    winbox: Option<&WinBox>,
) -> (Seq<CommandView>, bool) {
    let frame = match winbox {
        Some(w) => spec_draw_winbox(rect, *w),
        None => Seq::empty(),
    };
    if winbox is Some && !has_inner(rect) {
        (frame, false)
    } else {
        let inner = content_rect(rect, winbox);
        let start = frame + seq![CommandView::MoveTo(inner.x.0, inner.y.0)];
        let header = if columns.print_header {
            spec_headers(inner, columns) + next_row(inner)
        } else {
            Seq::empty()
        };
        match rows_rect(inner, columns) {
            Some(rows) => (start + header + spec_rows(rows, table, columns, vscroll, selection), true),
            None => (start + header, false),
        }
    }
}

/// Draw a Table widget within the Rect space.
///
/// Includes drawing the box, column headers, table rows and line numbers.
///
/// It is the entrypoint function of this module.
pub fn draw_table(
    out: &mut Vec<Command>,
    args: (&Rect, &Table, &Columns, Option<&VerticalScroll>, Option<&Selection>, Option<&WinBox>),
) -> (r: Option<()>)
    requires
        table_drawable(*args.0, *args.1, *args.2, args.3, args.4, args.5),
    ensures
        r is Some == spec_draw_table(*args.0, *args.1, *args.2, args.3, args.4, args.5).1,
        views(final(out)@) == views(old(out)@) + spec_draw_table(
            *args.0,
            *args.1,
            *args.2,
            args.3,
            args.4,
            args.5,
        ).0,
{
    let (rect, table, columns, vscroll, selection, winbox) = args;
    let ghost before = views(out@);
    // Clone the rect as mut because we need to shrink it later to draw sub-parts of the table
    let mut rect: Rect = *rect;

    // Draw the Window Box borders
    if let Some(winbox) = winbox {
        draw_winbox(out, (&rect, winbox));
        rect = match rect.inner() {
            Some(inner) => inner,
            None => {
                assert(views(out@) =~= before + spec_draw_table(
                    *args.0,
                    *table,
                    *columns,
                    vscroll,
                    selection,
                    args.5,
                ).0);
                return None;
            },
        };
    }
    let ghost inner = rect;
    // Print the column headers
    push_command(out, Command::MoveTo(rect.x.0, rect.y.0));
    if columns.print_header {
        draw_table_headers(out, (&rect, columns));
        push_command(out, Command::MoveDown(1));
        push_command(out, Command::MoveToColumn(rect.x.0 + 1 /*begins on one*/));
        rect = match rect.offset_y0(1) {
            Some(rows) => rows,
            None => {
                assert(views(out@) =~= before + spec_draw_table(
                    *args.0,
                    *table,
                    *columns,
                    vscroll,
                    selection,
                    args.5,
                ).0);
                return None;
            },
        };
    }
    let ghost after_header = views(out@);
    // Print table data rows
    draw_table_rows(out, (&rect, table, columns, vscroll, selection));
    assert(views(out@) =~= before + spec_draw_table(
        *args.0,
        *table,
        *columns,
        vscroll,
        selection,
        args.5,
    ).0);
    // Successful Draw
    Some(())
}

/// Draw the Table Column headers at the table top row with style.
///
/// The function expects the cursor is at the right position already.
pub fn draw_table_headers(out: &mut Vec<Command>, args: (&Rect, &Columns))
    requires
        headers_drawable(*args.0, *args.1),
    ensures
        views(final(out)@) == views(old(out)@) + spec_headers(*args.0, *args.1),
{
    let (rect, columns) = args;
    let ghost before = views(out@);
    let slots = foreach_column_compute_width(rect, columns);
    let mut k: usize = 0;
    while k < slots.len()
        invariant
            headers_drawable(*rect, *columns),
            slots@ == spec_layout(rect.spec_width(), *columns)->0,
            0 <= k <= slots@.len(),
            forall|j: int| 0 <= j < slots@.len() ==> (#[trigger] slots@[j]).column < columns.visible@.len(),
            views(out@) == before + header_cells(*columns, slots@, k as int),
        decreases slots@.len() - k,
    {
        let slot = slots[k];
        let column = &columns.visible[slot.column];
        assert(strip_align_cuts_cleanly(column.name@, slot.width as nat));
        push_print(out, None, separator_string(columns, slot));
        let actual_column_name = format_strip_align(&column.name, slot.width, &column.alignment);
        push_print(out, Some(column.style), actual_column_name);
        assert(views(out@) =~= before + header_cells(*columns, slots@, k + 1));
        k = k + 1;
    }
}

/// The text printed before a slot.
pub(crate) fn separator_string(columns: &Columns, slot: ColumnSlot) -> (s: String)
    ensures
        s@ == separator_text(*columns, slot),
{
    if slot.separator {
        char_to_string(columns.separator)
    } else {
        String::new()
    }
}

/// Draw the Table rows while there is vertical space in Rect.
///
/// The function expects that the cursor is at the right position already.
pub fn draw_table_rows(
    out: &mut Vec<Command>,
    args: (&Rect, &Table, &Columns, Option<&VerticalScroll>, Option<&Selection>),
)
    requires
        rows_drawable(*args.0, *args.1, *args.2, args.3, args.4),
    ensures
        views(final(out)@) == views(old(out)@) + spec_rows(
            *args.0,
            *args.1,
            *args.2,
            args.3,
            args.4,
        ),
{
    let (rect, table, columns, vscroll, selection) = args;
    let ghost before = views(out@);
    let slots = foreach_column_compute_width(rect, columns);
    let (begin_idx, end_idx) = foreach_visible_row_compute(rect, table, vscroll);
    let mut row_idx = begin_idx;
    while row_idx < end_idx
        invariant
            rows_drawable(*rect, *table, *columns, vscroll, selection),
            slots@ == spec_layout(rect.spec_width(), *columns)->0,
            forall|j: int| 0 <= j < slots@.len() ==> (#[trigger] slots@[j]).column < columns.visible@.len(),
            begin_idx == first_row(vscroll),
            end_idx == begin_idx + visible_rows_count(*rect, *table, vscroll),
            end_idx <= table.rows@.len(),
            begin_idx <= row_idx <= end_idx,
            views(out@) == before + rows_commands(
                *rect,
                table.rows@,
                *columns,
                slots@,
                begin_idx as int,
                selection,
                row_idx - begin_idx,
            ),
        decreases end_idx - row_idx,
    {
        draw_row(out, rect, columns, &slots, row_idx, &table.rows[row_idx], selection);
        proof {
            assert(views(out@) =~= before + rows_commands(
                *rect,
                table.rows@,
                *columns,
                slots@,
                begin_idx as int,
                selection,
                row_idx + 1 - begin_idx,
            ));
        }
        row_idx = row_idx + 1;
    }
}

/// Draw one table row and move to the beginning of the next.
fn draw_row(
    out: &mut Vec<Command>,
    rect: &Rect,
    columns: &Columns,
    slots: &Vec<ColumnSlot>,
    row_idx: usize,
    row: &Row,
    selection: Option<&Selection>,
)
    requires
        rect.x.0 < u16::MAX,
        row_idx < usize::MAX,
        forall|j: int| 0 <= j < slots@.len() ==> (#[trigger] slots@[j]).column < columns.visible@.len(),
        forall|k: int|
            0 <= k < slots@.len() ==> #[trigger] cell_drawable(
                *columns,
                slots@[k],
                row_idx as int,
                row@,
                selection,
            ),
    ensures
        views(final(out)@) == views(old(out)@) + row_commands(
            *rect,
            *columns,
            slots@,
            row_idx as int,
            row@,
            selection,
        ),
{
    let ghost before = views(out@);
    let row_style: Option<ContentStyle> = match selection {
        Some(selected) => if selected.row_index == row_idx {
            Some(selected.style)
        } else {
            None
        },
        None => None,
    };
    let mut k: usize = 0;
    while k < slots.len()
        invariant
            forall|j: int| 0 <= j < slots@.len() ==> (#[trigger] slots@[j]).column < columns.visible@.len(),
            forall|k: int|
                0 <= k < slots@.len() ==> #[trigger] cell_drawable(
                    *columns,
                    slots@[k],
                    row_idx as int,
                    row@,
                    selection,
                ),
            row_style == crate::draw::table::row_style(row_idx as int, selection),
            row_idx < usize::MAX,
            0 <= k <= slots@.len(),
            views(out@) == before + row_cells(*columns, slots@, row_idx as int, row@, selection, k as int),
        decreases slots@.len() - k,
    {
        let slot = slots[k];
        let column = &columns.visible[slot.column];
        assert(cell_drawable(*columns, slots@[k as int], row_idx as int, row@, selection));
        let (content, style) = resolve_column_content(row_idx, row, &column.value, selection);
        let actual_content = format_strip_align(&content, slot.width, &column.alignment);
        let actual_style = match row_style {
            Some(style) => Some(style),
            None => style,
        };
        push_print(out, actual_style, separator_string(columns, slot));
        push_print(out, actual_style, actual_content);
        assert(views(out@) =~= before + row_cells(
            *columns,
            slots@,
            row_idx as int,
            row@,
            selection,
            k + 1,
        ));
        k = k + 1;
    }
    push_command(out, Command::MoveDown(1));
    push_command(out, Command::MoveToColumn(rect.x.0 + 1 /*begins on one*/));
    assert(views(out@) =~= before + row_commands(
        *rect,
        *columns,
        slots@,
        row_idx as int,
        row@,
        selection,
    ));
}

/// Compute the range of table rows that are visible in the drawing space: from the
/// vertical scroll index (or the first row), as many as the rows after it and the
/// height allow. The end index is not inclusive.
pub fn foreach_visible_row_compute(
    rect: &Rect,
    table: &Table,
    vscroll: Option<&VerticalScroll>,
) -> (r: (usize, usize))
    requires
        rect.height_fits(),
        0 <= first_row(vscroll) <= table.rows@.len(),
    ensures
        r.0 == first_row(vscroll),
        r.1 == r.0 + visible_rows_count(*rect, *table, vscroll),
        r.1 <= table.rows@.len(),
{
    let begin_idx = match vscroll {
        Some(v) => v.top_row,
        None => 0,
    };
    let after_vscroll_rows_count = table.rows.len() - begin_idx;
    let height = rect.height() as usize;
    let visible_rows_count = if after_vscroll_rows_count < height {
        after_vscroll_rows_count
    } else {
        height
    };
    (begin_idx, begin_idx + visible_rows_count)
}

/// Compute the slot of each visible column that fits in the width of `rect`.
///
/// For each column the available column width is calculated; the last visible column is
/// extended to the remainder of the space. When there is no more room, stop.
pub fn foreach_column_compute_width(rect: &Rect, columns: &Columns) -> (slots: Vec<ColumnSlot>)
    requires
        rect.width_fits(),
        spec_layout(rect.spec_width(), *columns) is Some,
    ensures
        slots@ == spec_layout(rect.spec_width(), *columns)->0,
        forall|j: int| 0 <= j < slots@.len() ==> (#[trigger] slots@[j]).column < columns.visible@.len(),
{
    let ghost visible = columns.visible@;
    let ghost all = spec_layout(rect.spec_width(), *columns)->0;
    let width = rect.width() as usize;
    let sep_len = char_to_string(columns.separator).as_str().as_bytes().len();
    let mut slots: Vec<ColumnSlot> = Vec::new();
    let mut walked_column_width: usize = 0;
    let mut col: usize = 0;
    while col < columns.visible.len()
        invariant
            visible == columns.visible@,
            width == rect.spec_width(),
            sep_len == separator_len(*columns),
            all == spec_layout(width as int, *columns)->0,
            0 <= col <= visible.len(),
            walked_column_width <= width,
            spec_layout_from(width as int, visible, sep_len as int, col as int, walked_column_width as int) is Some,
            all == slots@ + spec_layout_from(
                width as int,
                visible,
                sep_len as int,
                col as int,
                walked_column_width as int,
            )->0,
            forall|j: int| 0 <= j < slots@.len() ==> (#[trigger] slots@[j]).column < col,
        ensures
            all == slots@,
            forall|j: int| 0 <= j < slots@.len() ==> (#[trigger] slots@[j]).column < visible.len(),
        decreases visible.len() - col,
    {
        let available_width = width - walked_column_width;
        if available_width == 0 {
            assert(all =~= slots@);
            break;
        }
        let sep = if col == 0 {
            0
        } else {
            sep_len
        };
        let available_width = available_width - sep;
        let available_column_width = if col == columns.visible.len() - 1 {
            // extend the last column to the remainder of screen space
            available_width
        } else if (columns.visible[col].width as usize) < available_width {
            // otherwise use the smaller value between required and available space
            columns.visible[col].width as usize
        } else {
            available_width
        };
        let slot = ColumnSlot { column: col, separator: col > 0, width: available_column_width };
        slots.push(slot);
        walked_column_width = walked_column_width + available_column_width + sep;
        col = col + 1;
        assert(all =~= slots@ + spec_layout_from(
            width as int,
            visible,
            sep_len as int,
            col as int,
            walked_column_width as int,
        )->0);
    }
    slots
}

/// Resolve the Column content base on the Column Value enum.
///
/// The value will be retrieved from the row data or generated on-the-fly based on other parameters.
pub fn resolve_column_content(
    row_idx: usize,
    row: &Row,
    column_value: &ColumnValue,
    selection: Option<&Selection>,
) -> (r: (String, Option<ContentStyle>))
    requires
        match column_value {
            ColumnValue::BuiltIn { builtin } => match builtin {
                ColumnBuiltIn::LineNumber { mode, style } => line_number_computable(
                    *mode,
                    row_idx as int,
                    selection,
                ) && row_idx < usize::MAX,
            },
            ColumnValue::Data { index } => true,
        },
    ensures
        r.0@ == cell_content(row_idx as int, row@, *column_value, selection).0,
        r.1 == cell_content(row_idx as int, row@, *column_value, selection).1,
{
    match column_value {
        ColumnValue::BuiltIn { builtin } => match builtin {
            ColumnBuiltIn::LineNumber { mode, style } => {
                let number = resolve_column_builtin_line_number(mode, row_idx, selection);
                (usize_to_decimal(number), Some(*style))
            },
        },
        ColumnValue::Data { index } => {
            match row.get(index) {
                Some(data) => (data.clone(), None),
                None => (String::new(), None),
            }
        },
    }
}

/// Resolve the Line Number value based on the mode.
///
/// The output value begins on 1 (one).
/// The `row_idx` is expected to begin on 0 (zero).
pub fn resolve_column_builtin_line_number(
    mode: &LineNumberMode,
    row_idx: usize,
    selection: Option<&Selection>,
) -> (n: usize)
    requires
        line_number_computable(*mode, row_idx as int, selection),
        row_idx < usize::MAX,
    ensures
        n == spec_line_number(*mode, row_idx as int, selection),
{
    match mode {
        LineNumberMode::Normal => row_idx + 1,
        LineNumberMode::Relative => match selection {
            Some(selected) => {
                let d: i32 = selected.row_index as i32 - row_idx as i32;
                let row = if d < 0 {
                    -d
                } else {
                    d
                } as usize;
                if row == 0 {
                    row_idx + 1
                } else {
                    row
                }
            },
            None => row_idx + 1,
        },
    }
}

/// Whether the visible columns can be laid out in `width` columns: the separator fits
/// before each column that is reached.
fn layout_exists(width: usize, columns: &Columns) -> (b: bool)
    ensures
        b == spec_layout(width as int, *columns) is Some,
{
    let ghost visible = columns.visible@;
    let sep_len = char_to_string(columns.separator).as_str().as_bytes().len();
    let mut walked: usize = 0;
    let mut col: usize = 0;
    while col < columns.visible.len()
        invariant
            visible == columns.visible@,
            sep_len == separator_len(*columns),
            0 <= col <= visible.len(),
            walked <= width,
            (spec_layout(width as int, *columns) is Some) == (spec_layout_from(
                width as int,
                visible,
                sep_len as int,
                col as int,
                walked as int,
            ) is Some),
        decreases visible.len() - col,
    {
        if width - walked == 0 {
            return true;
        }
        let s = if col == 0 {
            0
        } else {
            sep_len
        };
        if width - walked < s {
            return false;
        }
        let available = width - walked - s;
        let w = if col == columns.visible.len() - 1 {
            available
        } else if (columns.visible[col].width as usize) < available {
            columns.visible[col].width as usize
        } else {
            available
        };
        walked = walked + w + s;
        col = col + 1;
    }
    true
}

/// Whether the line number of row `row_idx` can be computed.
fn line_number_computable_check(mode: &LineNumberMode, row_idx: usize, selection: Option<&Selection>) -> (b: bool)
    ensures
        b == line_number_computable(*mode, row_idx as int, selection),
{
    match (mode, selection) {
        (LineNumberMode::Relative, Some(selected)) => {
            let d: i64 = (selected.row_index as i32) as i64 - (row_idx as i32) as i64;
            (i32::MIN as i64) < d && d <= i32::MAX as i64
        },
        _ => true,
    }
}

/// Whether the header of the table can be drawn in `rect` (see `headers_drawable`).
pub fn headers_drawable_check(rect: &Rect, columns: &Columns) -> (b: bool)
    ensures
        b == headers_drawable(*rect, *columns),
{
    if !(rect.x.0 <= rect.x.1 && rect.x.1 - rect.x.0 < u16::MAX) {
        return false;
    }
    if !layout_exists(rect.width() as usize, columns) {
        return false;
    }
    let slots = foreach_column_compute_width(rect, columns);
    let mut k: usize = 0;
    while k < slots.len()
        invariant
            rect.width_fits(),
            spec_layout(rect.spec_width(), *columns) is Some,
            slots@ == spec_layout(rect.spec_width(), *columns)->0,
            forall|j: int| 0 <= j < slots@.len() ==> (#[trigger] slots@[j]).column < columns.visible@.len(),
            0 <= k <= slots@.len(),
            forall|j: int|
                0 <= j < k ==> strip_align_cuts_cleanly(
                    columns.visible@[(#[trigger] slots@[j]).column as int].name@,
                    slots@[j].width as nat,
                ),
        decreases slots@.len() - k,
    {
        let slot = slots[k];
        if !cuts_cleanly(&columns.visible[slot.column].name, slot.width) {
            return false;
        }
        k = k + 1;
    }
    true
}

/// Whether every cell of a row can be drawn in its slot.
fn row_drawable_check(
    columns: &Columns,
    slots: &Vec<ColumnSlot>,
    row_idx: usize,
    row: &Row,
    selection: Option<&Selection>,
) -> (b: bool)
    requires
        row_idx < usize::MAX,
        forall|j: int| 0 <= j < slots@.len() ==> (#[trigger] slots@[j]).column < columns.visible@.len(),
    ensures
        b == forall|k: int|
            0 <= k < slots@.len() ==> #[trigger] cell_drawable(
                *columns,
                slots@[k],
                row_idx as int,
                row@,
                selection,
            ),
{
    let mut k: usize = 0;
    while k < slots.len()
        invariant
            row_idx < usize::MAX,
            forall|j: int| 0 <= j < slots@.len() ==> (#[trigger] slots@[j]).column < columns.visible@.len(),
            0 <= k <= slots@.len(),
            forall|j: int|
                0 <= j < k ==> #[trigger] cell_drawable(
                    *columns,
                    slots@[j],
                    row_idx as int,
                    row@,
                    selection,
                ),
        decreases slots@.len() - k,
    {
        let slot = slots[k];
        let column = &columns.visible[slot.column];
        let computable = match &column.value {
            ColumnValue::BuiltIn { builtin } => match builtin {
                ColumnBuiltIn::LineNumber { mode, style } => line_number_computable_check(
                    mode,
                    row_idx,
                    selection,
                ),
            },
            ColumnValue::Data { index } => true,
        };
        if !computable {
            assert(!cell_drawable(*columns, slots@[k as int], row_idx as int, row@, selection));
            return false;
        }
        let (content, _) = resolve_column_content(row_idx, row, &column.value, selection);
        if !cuts_cleanly(&content, slot.width) {
            assert(!cell_drawable(*columns, slots@[k as int], row_idx as int, row@, selection));
            return false;
        }
        k = k + 1;
    }
    true
}

/// Whether the rows of the table can be drawn in `rect` (see `rows_drawable`).
pub fn rows_drawable_check(
    rect: &Rect,
    table: &Table,
    columns: &Columns,
    vscroll: Option<&VerticalScroll>,
    selection: Option<&Selection>,
) -> (b: bool)
    ensures
        b == rows_drawable(*rect, *table, *columns, vscroll, selection),
{
    if !(rect.x.0 <= rect.x.1 && rect.x.1 - rect.x.0 < u16::MAX) {
        return false;
    }
    if !(rect.y.0 <= rect.y.1 && rect.y.1 - rect.y.0 < u16::MAX) {
        return false;
    }
    if rect.x.0 == u16::MAX {
        return false;
    }
    if !layout_exists(rect.width() as usize, columns) {
        return false;
    }
    let first = match vscroll {
        Some(v) => v.top_row,
        None => 0,
    };
    if first > table.rows.len() {
        return false;
    }
    let slots = foreach_column_compute_width(rect, columns);
    let (begin_idx, end_idx) = foreach_visible_row_compute(rect, table, vscroll);
    let ghost layout = spec_layout(rect.spec_width(), *columns)->0;
    let mut row_idx = begin_idx;
    while row_idx < end_idx
        invariant
            slots@ == layout,
            layout == spec_layout(rect.spec_width(), *columns)->0,
            forall|j: int| 0 <= j < slots@.len() ==> (#[trigger] slots@[j]).column < columns.visible@.len(),
            begin_idx == first_row(vscroll),
            end_idx == begin_idx + visible_rows_count(*rect, *table, vscroll),
            end_idx <= table.rows@.len(),
            begin_idx <= row_idx <= end_idx,
            forall|r: int, k: int|
                begin_idx <= r < row_idx && 0 <= k < layout.len() ==> #[trigger] cell_drawable(
                    *columns,
                    layout[k],
                    r,
                    table.rows@[r]@,
                    selection,
                ),
        decreases end_idx - row_idx,
    {
        if !row_drawable_check(columns, &slots, row_idx, &table.rows[row_idx], selection) {
            proof {
                let k = choose|k: int|
                    0 <= k < slots@.len() && !#[trigger] cell_drawable(
                        *columns,
                        slots@[k],
                        row_idx as int,
                        table.rows@[row_idx as int]@,
                        selection,
                    );
                if rows_drawable(*rect, *table, *columns, vscroll, selection) {
                    assert(cell_drawable(
                        *columns,
                        layout[k],
                        row_idx as int,
                        table.rows@[row_idx as int]@,
                        selection,
                    ));
                }
            }
            return false;
        }
        row_idx = row_idx + 1;
    }
    true
}

/// Whether `draw_table` can draw the table (see `table_drawable`).
pub fn table_drawable_check(
    args: (&Rect, &Table, &Columns, Option<&VerticalScroll>, Option<&Selection>, Option<&WinBox>),
) -> (b: bool)
    ensures
        b == table_drawable(*args.0, *args.1, *args.2, args.3, args.4, args.5),
{
    let (rect, table, columns, vscroll, selection, winbox) = args;
    let inner = match winbox {
        Some(w) => {
            if !winbox_drawable_check(rect, w) {
                return false;
            }
            match rect.inner() {
                Some(inner) => inner,
                None => return true,
            }
        },
        None => *rect,
    };
    if columns.print_header {
        if !headers_drawable_check(&inner, columns) || inner.x.0 == u16::MAX {
            return false;
        }
        match inner.offset_y0(1) {
            Some(rows) => rows_drawable_check(&rows, table, columns, vscroll, selection),
            None => true,
        }
    } else {
        rows_drawable_check(&inner, table, columns, vscroll, selection)
    }
}

/// `k` rows drawn from index `begin` are the first row, then the `k - 1` rows after it.
proof fn lemma_rows_commands_first(
    rect: Rect,
    rows: Seq<Row>,
    columns: Columns,
    slots: Seq<ColumnSlot>,
    begin: int,
    selection: Option<&Selection>,
    k: int,
)
    requires
        k >= 1,
    ensures
        rows_commands(rect, rows, columns, slots, begin, selection, k) == row_commands(
            rect,
            columns,
            slots,
            begin,
            rows[begin]@,
            selection,
        ) + rows_commands(rect, rows, columns, slots, begin + 1, selection, k - 1),
    decreases k,
{
    if k > 1 {
        lemma_rows_commands_first(rect, rows, columns, slots, begin, selection, k - 1);
        assert(begin + 1 + (k - 1) - 1 == begin + k - 1);
        assert(rows_commands(rect, rows, columns, slots, begin + 1, selection, k - 1) == rows_commands(
            rect,
            rows,
            columns,
            slots,
            begin + 1,
            selection,
            k - 2,
        ) + row_commands(rect, columns, slots, begin + k - 1, rows[begin + k - 1]@, selection));
    } else {
        assert(rows_commands(rect, rows, columns, slots, begin + 1, selection, 0) =~= Seq::<
            CommandView,
        >::empty());
        assert(rows_commands(rect, rows, columns, slots, begin, selection, 0) =~= Seq::<
            CommandView,
        >::empty());
    }
}

/// The commands only print, move one row down, or move back to column `column`.
pub open spec fn keeps_to_column(cmds: Seq<CommandView>, column: u16) -> bool {
    forall|k: int|
        0 <= k < cmds.len() ==> (#[trigger] cmds[k]) is Print || cmds[k] == CommandView::MoveDown(1)
            || cmds[k] == CommandView::MoveToColumn(column)
}

proof fn lemma_header_cells_print(columns: Columns, slots: Seq<ColumnSlot>, k: int, column: u16)
    ensures
        keeps_to_column(header_cells(columns, slots, k), column),
    decreases k,
{
    if k > 0 {
        lemma_header_cells_print(columns, slots, k - 1, column);
        let a = header_cells(columns, slots, k - 1);
        let b = header_cell(columns, slots[k - 1]);
        assert(keeps_to_column(b, column));
        assert(header_cells(columns, slots, k) == a + b);
    }
}

proof fn lemma_row_cells_print(
    columns: Columns,
    slots: Seq<ColumnSlot>,
    row_idx: int,
    row: Map<u8, String>,
    selection: Option<&Selection>,
    k: int,
    column: u16,
)
    ensures
        keeps_to_column(row_cells(columns, slots, row_idx, row, selection, k), column),
    decreases k,
{
    if k > 0 {
        lemma_row_cells_print(columns, slots, row_idx, row, selection, k - 1, column);
        let b = row_cell(columns, slots[k - 1], row_idx, row, selection);
        assert(keeps_to_column(b, column));
    }
}

proof fn lemma_rows_commands_column(
    rect: Rect,
    rows: Seq<Row>,
    columns: Columns,
    slots: Seq<ColumnSlot>,
    begin: int,
    selection: Option<&Selection>,
    k: int,
)
    ensures
        keeps_to_column(
            rows_commands(rect, rows, columns, slots, begin, selection, k),
            (rect.x.0 + 1) as u16,
        ),
    decreases k,
{
    let column = (rect.x.0 + 1) as u16;
    if k > 0 {
        lemma_rows_commands_column(rect, rows, columns, slots, begin, selection, k - 1);
        lemma_row_cells_print(
            columns,
            slots,
            begin + k - 1,
            rows[begin + k - 1]@,
            selection,
            slots.len() as int,
            column,
        );
        assert(keeps_to_column(next_row(rect), column));
    }
}

/// How many of the commands move one row down.
pub open spec fn rows_moved(cmds: Seq<CommandView>) -> int
    decreases cmds.len(),
{
    if cmds.len() == 0 {
        0
    } else {
        rows_moved(cmds.drop_last()) + if cmds.last() == CommandView::MoveDown(1) {
            1int
        } else {
            0int
        }
    }
}

proof fn lemma_rows_moved_concat(a: Seq<CommandView>, b: Seq<CommandView>)
    ensures
        rows_moved(a + b) == rows_moved(a) + rows_moved(b),
    decreases b.len(),
{
    if b.len() == 0 {
        assert(a + b =~= a);
    } else {
        lemma_rows_moved_concat(a, b.drop_last());
        assert((a + b).drop_last() =~= a + b.drop_last());
    }
}

proof fn lemma_rows_moved_prints(cmds: Seq<CommandView>)
    requires
        forall|k: int| 0 <= k < cmds.len() ==> (#[trigger] cmds[k]) is Print,
    ensures
        rows_moved(cmds) == 0,
    decreases cmds.len(),
{
    if cmds.len() > 0 {
        lemma_rows_moved_prints(cmds.drop_last());
    }
}

proof fn lemma_header_cells_moved(columns: Columns, slots: Seq<ColumnSlot>, k: int)
    ensures
        rows_moved(header_cells(columns, slots, k)) == 0,
    decreases k,
{
    if k > 0 {
        lemma_header_cells_moved(columns, slots, k - 1);
        let b = header_cell(columns, slots[k - 1]);
        lemma_rows_moved_prints(b);
        lemma_rows_moved_concat(header_cells(columns, slots, k - 1), b);
    }
}

proof fn lemma_row_cells_moved(
    columns: Columns,
    slots: Seq<ColumnSlot>,
    row_idx: int,
    row: Map<u8, String>,
    selection: Option<&Selection>,
    k: int,
)
    ensures
        rows_moved(row_cells(columns, slots, row_idx, row, selection, k)) == 0,
    decreases k,
{
    if k > 0 {
        lemma_row_cells_moved(columns, slots, row_idx, row, selection, k - 1);
        let b = row_cell(columns, slots[k - 1], row_idx, row, selection);
        lemma_rows_moved_prints(b);
        lemma_rows_moved_concat(row_cells(columns, slots, row_idx, row, selection, k - 1), b);
    }
}

proof fn lemma_next_row_moved(rect: Rect)
    ensures
        rows_moved(next_row(rect)) == 1,
{
    let n = next_row(rect);
    let first = n.drop_last();
    assert(first.drop_last() =~= Seq::<CommandView>::empty());
    assert(rows_moved(first.drop_last()) == 0);
    assert(first.last() == CommandView::MoveDown(1));
    assert(rows_moved(first) == 1);
    assert(n.last() != CommandView::MoveDown(1));
}

proof fn lemma_rows_commands_moved(
    rect: Rect,
    rows: Seq<Row>,
    columns: Columns,
    slots: Seq<ColumnSlot>,
    begin: int,
    selection: Option<&Selection>,
    k: int,
)
    requires
        k >= 0,
    ensures
        rows_moved(rows_commands(rect, rows, columns, slots, begin, selection, k)) == k,
    decreases k,
{
    if k > 0 {
        lemma_rows_commands_moved(rect, rows, columns, slots, begin, selection, k - 1);
        let row_idx = begin + k - 1;
        let cells = row_cells(columns, slots, row_idx, rows[row_idx]@, selection, slots.len() as int);
        lemma_row_cells_moved(columns, slots, row_idx, rows[row_idx]@, selection, slots.len() as int);
        lemma_next_row_moved(rect);
        lemma_rows_moved_concat(cells, next_row(rect));
        lemma_rows_moved_concat(
            rows_commands(rect, rows, columns, slots, begin, selection, k - 1),
            cells + next_row(rect),
        );
    }
}

/// After its first move to the top-left cell, a table moves down one row for each line
/// it prints: once after the header, where it is printed, and once after each table row
/// from the scroll position, as many rows as there are after it and fit below the
/// header. So it never moves down more rows than its rectangle has.
pub proof fn law_table_moves_down_once_per_line(
    rect: Rect,
    table: Table,
    columns: Columns,
    vscroll: Option<&VerticalScroll>,
    selection: Option<&Selection>,
    winbox: Option<&WinBox>,
)
    requires
        rect.spec_valid(),
        winbox is Some ==> has_inner(rect),
        0 <= first_row(vscroll) <= table.rows@.len(),
    ensures
        ({
            let out = spec_draw_table(rect, table, columns, vscroll, selection, winbox).0;
            let skip = match winbox {
                Some(w) => spec_draw_winbox(rect, *w).len() + 1int,
                None => 1int,
            };
            let inner = content_rect(rect, winbox);
            let header = if columns.print_header {
                1int
            } else {
                0int
            };
            let below = inner.spec_height() - header;
            let after = table.rows@.len() - first_row(vscroll);
            &&& skip <= out.len()
            &&& rows_moved(out.subrange(skip, out.len() as int)) == header + if after < below {
                after
            } else {
                below
            }
            &&& rows_moved(out.subrange(skip, out.len() as int)) <= inner.spec_height()
        }),
{
    let out = spec_draw_table(rect, table, columns, vscroll, selection, winbox).0;
    let frame = match winbox {
        Some(w) => spec_draw_winbox(rect, *w),
        None => Seq::empty(),
    };
    let inner = content_rect(rect, winbox);
    let start = frame + seq![CommandView::MoveTo(inner.x.0, inner.y.0)];
    let header = if columns.print_header {
        spec_headers(inner, columns) + next_row(inner)
    } else {
        Seq::empty()
    };
    let slots = spec_layout(inner.spec_width(), columns)->0;
    lemma_header_cells_moved(columns, slots, slots.len() as int);
    lemma_next_row_moved(inner);
    lemma_rows_moved_concat(spec_headers(inner, columns), next_row(inner));
    assert(rows_moved(Seq::<CommandView>::empty()) == 0);
    let tail = out.subrange(start.len() as int, out.len() as int);
    match rows_rect(inner, columns) {
        Some(rows) => {
            lemma_rows_commands_moved(
                rows,
                table.rows@,
                columns,
                spec_layout(rows.spec_width(), columns)->0,
                first_row(vscroll),
                selection,
                visible_rows_count(rows, table, vscroll),
            );
            let body = spec_rows(rows, table, columns, vscroll, selection);
            assert(tail =~= header + body);
            lemma_rows_moved_concat(header, body);
        },
        None => {
            assert(tail =~= header);
        },
    }
}

/// A table in a window box is drawn inside the box: the box frame comes first, and the
/// first command after it moves the cursor to the top-left cell inside the borders, one
/// column right of and one row below the rectangle's corner. Without a box the table
/// starts at the rectangle's corner.
pub proof fn law_table_starts_inside_box(
    rect: Rect,
    table: Table,
    columns: Columns,
    vscroll: Option<&VerticalScroll>,
    selection: Option<&Selection>,
    winbox: Option<&WinBox>,
)
    requires
        winbox is Some ==> has_inner(rect),
    ensures
        ({
            let out = spec_draw_table(rect, table, columns, vscroll, selection, winbox).0;
            match winbox {
                Some(w) => {
                    let frame = spec_draw_winbox(rect, *w);
                    &&& frame.len() < out.len()
                    &&& out.subrange(0, frame.len() as int) == frame
                    &&& out[frame.len() as int] == CommandView::MoveTo(
                        (rect.x.0 + 1) as u16,
                        (rect.y.0 + 1) as u16,
                    )
                    &&& rect.x.0 + 1 < rect.x.1 && rect.y.0 + 1 < rect.y.1
                    &&& keeps_to_column(
                        out.subrange(frame.len() as int + 1, out.len() as int),
                        (rect.x.0 + 2) as u16,
                    )
                },
                None => {
                    &&& 0 < out.len()
                    &&& out[0] == CommandView::MoveTo(rect.x.0, rect.y.0)
                    &&& keeps_to_column(out.subrange(1, out.len() as int), (rect.x.0 + 1) as u16)
                },
            }
        }),
{
    let out = spec_draw_table(rect, table, columns, vscroll, selection, winbox).0;
    let frame = match winbox {
        Some(w) => spec_draw_winbox(rect, *w),
        None => Seq::empty(),
    };
    let inner = content_rect(rect, winbox);
    let start = frame + seq![CommandView::MoveTo(inner.x.0, inner.y.0)];
    assert(out.subrange(0, start.len() as int) == start);
    assert(out[frame.len() as int] == start[frame.len() as int]);
    assert(out.subrange(0, frame.len() as int) =~= start.subrange(0, frame.len() as int));
    assert(start.subrange(0, frame.len() as int) =~= frame);
    let column = (inner.x.0 + 1) as u16;
    let header = if columns.print_header {
        spec_headers(inner, columns) + next_row(inner)
    } else {
        Seq::empty()
    };
    let slots = spec_layout(inner.spec_width(), columns)->0;
    lemma_header_cells_print(columns, slots, slots.len() as int, column);
    assert(keeps_to_column(next_row(inner), column));
    assert(keeps_to_column(header, column));
    let tail = out.subrange(start.len() as int, out.len() as int);
    match rows_rect(inner, columns) {
        Some(rows) => {
            assert(rows.x == inner.x);
            lemma_rows_commands_column(
                rows,
                table.rows@,
                columns,
                spec_layout(rows.spec_width(), columns)->0,
                first_row(vscroll),
                selection,
                visible_rows_count(rows, table, vscroll),
            );
            let body = spec_rows(rows, table, columns, vscroll, selection);
            assert(tail =~= header + body);
            assert forall|k: int| 0 <= k < tail.len() implies (#[trigger] tail[k]) is Print
                || tail[k] == CommandView::MoveDown(1) || tail[k] == CommandView::MoveToColumn(
                column,
            ) by {
                if k < header.len() {
                    assert(tail[k] == header[k]);
                } else {
                    assert(tail[k] == body[k - header.len()]);
                }
            }
        },
        None => {
            assert(tail =~= header);
        },
    }
}

/// The vertical scroll position is the first row printed: when any row is visible, the
/// drawn rows begin with the row at the scroll position, followed by the rows after it.
pub proof fn law_first_printed_row_is_top_row(
    rect: Rect,
    table: Table,
    columns: Columns,
    vscroll: Option<&VerticalScroll>,
    selection: Option<&Selection>,
)
    requires
        visible_rows_count(rect, table, vscroll) >= 1,
    ensures
        ({
            let slots = spec_layout(rect.spec_width(), columns)->0;
            let top = first_row(vscroll);
            spec_rows(rect, table, columns, vscroll, selection) == row_commands(
                rect,
                columns,
                slots,
                top,
                table.rows@[top]@,
                selection,
            ) + rows_commands(
                rect,
                table.rows@,
                columns,
                slots,
                top + 1,
                selection,
                visible_rows_count(rect, table, vscroll) - 1,
            )
        }),
{
    lemma_rows_commands_first(
        rect,
        table.rows@,
        columns,
        spec_layout(rect.spec_width(), columns)->0,
        first_row(vscroll),
        selection,
        visible_rows_count(rect, table, vscroll),
    );
}

/// The rows printed are never more than the rectangle has rows, nor than the rows after
/// the scroll position.
pub proof fn law_printed_rows_fit(rect: Rect, table: Table, vscroll: Option<&VerticalScroll>)
    ensures
        visible_rows_count(rect, table, vscroll) <= rect.spec_height(),
        visible_rows_count(rect, table, vscroll) <= table.rows@.len() - first_row(vscroll),
{
}

/// The selected row is printed in the selection style: each of its cells, separator and
/// content, takes the style of the selection.
pub proof fn law_selected_row_in_selection_style(
    row: Map<u8, String>,
    value: ColumnValue,
    selection: &Selection,
)
    ensures
        cell_style(selection.row_index as int, row, value, Some(selection)) == Some(selection.style),
{
}

/// Line numbers begin on one: every row shows a number of at least 1, in either mode.
pub proof fn law_line_numbers_begin_on_one(
    mode: LineNumberMode,
    row_idx: int,
    selection: Option<&Selection>,
)
    requires
        row_idx >= 0,
    ensures
        spec_line_number(mode, row_idx, selection) >= 1,
{
}

/// Relative line numbers count the distance to the selected row; the selected row itself
/// shows its own number.
pub proof fn law_relative_line_numbers(row_idx: int, selection: &Selection)
    requires
        0 <= row_idx <= i32::MAX,
        selection.row_index <= i32::MAX,
    ensures
        row_idx == selection.row_index ==> spec_line_number(
            LineNumberMode::Relative,
            row_idx,
            Some(selection),
        ) == row_idx + 1,
        row_idx < selection.row_index ==> spec_line_number(
            LineNumberMode::Relative,
            row_idx,
            Some(selection),
        ) == selection.row_index - row_idx,
        row_idx > selection.row_index ==> spec_line_number(
            LineNumberMode::Relative,
            row_idx,
            Some(selection),
        ) == row_idx - selection.row_index,
{
}

/// A part of the header row that a table keeps as a window of its own: the cell of a
/// column separator, or the cell of a column name.
#[derive(Debug, Clone, Copy, PartialEq, Eq)]
pub enum HeaderPart {
    Separator(Rect),
    Column(Rect),
}

/// The column where slot `k` begins, before its separator.
pub open spec fn slot_x(rect: Rect, columns: Columns, slots: Seq<ColumnSlot>, k: int) -> int {
    rect.x.0 + slots_width(columns, slots, k)
}

/// The column where the content of slot `k` begins, after its separator.
pub open spec fn slot_content_x(rect: Rect, columns: Columns, slots: Seq<ColumnSlot>, k: int) -> int {
    slot_x(rect, columns, slots, k) + if slots[k].separator {
        separator_len(columns)
    } else {
        0
    }
}

/// The header parts of slot `k`: a one-cell separator where the slot has one, and the
/// cell of the column name where the slot has any width, both in the top row.
pub open spec fn slot_parts(rect: Rect, columns: Columns, slots: Seq<ColumnSlot>, k: int) -> Seq<
    HeaderPart,
> {
    let slot = slots[k];
    let separator = if slot.separator {
        seq![
            HeaderPart::Separator(
                Rect::spec_from_size((slot_x(rect, columns, slots, k) as u16, rect.y.0), (1, 1)),
            ),
        ]
    } else {
        Seq::empty()
    };
    let column = if slot.width > 0 {
        seq![
            HeaderPart::Column(
                Rect::spec_from_size(
                    (slot_content_x(rect, columns, slots, k) as u16, rect.y.0),
                    (slot.width as u16, 1),
                ),
            ),
        ]
    } else {
        Seq::empty()
    };
    separator + column
}

/// The header parts of the first `k` slots.
pub open spec fn header_parts(rect: Rect, columns: Columns, slots: Seq<ColumnSlot>, k: int) -> Seq<
    HeaderPart,
>
    decreases k,
{
    if k <= 0 {
        Seq::empty()
    } else {
        header_parts(rect, columns, slots, k - 1) + slot_parts(rect, columns, slots, k - 1)
    }
}

/// Every header part of the laid out columns ends within the last column and row of the
/// terminal grid, so that its rectangle can be made.
pub open spec fn header_parts_fit(rect: Rect, columns: Columns) -> bool {
    let slots = spec_layout(rect.spec_width(), columns)->0;
    &&& rect.width_fits()
    &&& spec_layout(rect.spec_width(), columns) is Some
    &&& forall|k: int|
        0 <= k < slots.len() ==> {
            &&& (#[trigger] slots[k]).separator ==> slot_x(rect, columns, slots, k) + 1 <= u16::MAX
                && rect.y.0 + 1 <= u16::MAX
            &&& slots[k].width > 0 ==> slot_content_x(rect, columns, slots, k) + slots[k].width
                <= u16::MAX && rect.y.0 + 1 <= u16::MAX
        }
}

/// A separator takes one to four bytes.
proof fn lemma_separator_len(columns: Columns)
    ensures
        1 <= separator_len(columns) <= 4,
{
    let c = seq![columns.separator];
    assert(c.drop_first() =~= Seq::<char>::empty());
    assert(vstd::utf8::encode_utf8(c) == vstd::utf8::encode_scalar(columns.separator as u32)
        + vstd::utf8::encode_utf8(c.drop_first()));
    assert(vstd::utf8::encode_utf8(c.drop_first()) =~= Seq::<u8>::empty());
}

/// The header parts of a table: the separator cells and column name cells of its header
/// row, in the order of the columns.
pub fn cache_table_headers(rect: &Rect, columns: &Columns) -> (parts: Vec<HeaderPart>)
    requires
        header_parts_fit(*rect, *columns),
    ensures
        parts@ == header_parts(
            *rect,
            *columns,
            spec_layout(rect.spec_width(), *columns)->0,
            spec_layout(rect.spec_width(), *columns)->0.len() as int,
        ),
{
    let ghost layout = spec_layout(rect.spec_width(), *columns)->0;
    let slots = foreach_column_compute_width(rect, columns);
    let sep_len = char_to_string(columns.separator).as_str().as_bytes().len();
    proof {
        lemma_separator_len(*columns);
    }
    let mut parts: Vec<HeaderPart> = Vec::new();
    let mut walked: usize = 0;
    let mut k: usize = 0;
    while k < slots.len()
        invariant
            header_parts_fit(*rect, *columns),
            layout == spec_layout(rect.spec_width(), *columns)->0,
            slots@ == layout,
            sep_len == separator_len(*columns),
            1 <= sep_len <= 4,
            0 <= k <= slots@.len(),
            walked == slots_width(*columns, layout, k as int),
            walked <= u16::MAX + 4,
            parts@ == header_parts(*rect, *columns, layout, k as int),
        decreases slots@.len() - k,
    {
        let slot = slots[k];
        let ghost before = parts@;
        if slot.separator {
            let x = (rect.x.0 as usize + walked) as u16;
            parts.push(HeaderPart::Separator(Rect::from_size_unchecked((x, rect.y.0), (1, 1))));
            walked = walked + sep_len;
        }
        if slot.width > 0 {
            let x = (rect.x.0 as usize + walked) as u16;
            parts.push(
                HeaderPart::Column(
                    Rect::from_size_unchecked((x, rect.y.0), (slot.width as u16, 1)),
                ),
            );
            walked = walked + slot.width;
        }
        assert(parts@ =~= before + slot_parts(*rect, *columns, layout, k as int));
        k = k + 1;
    }
    parts
}

/// The header parts that a table keeps: none when it has a window box without room
/// inside; otherwise the parts of its header row inside the box (or in the whole
/// rectangle without a box), and no parts when the header is not printed.
pub open spec fn spec_cache_table(rect: Rect, columns: Columns, winbox: Option<&WinBox>) -> Option<
    Seq<HeaderPart>,
> {
    if winbox is Some && !has_inner(rect) {
        None
    } else if columns.print_header {
        let inner = content_rect(rect, winbox);
        let slots = spec_layout(inner.spec_width(), columns)->0;
        Some(header_parts(inner, columns, slots, slots.len() as int))
    } else {
        Some(Seq::empty())
    }
}

/// `cache_table` can make the header parts of the table.
pub open spec fn cache_table_computable(rect: Rect, columns: Columns, winbox: Option<&WinBox>) -> bool {
    &&& winbox is Some ==> (rect.spec_valid() ==> rect.width_fits()) && (rect.spec_valid()
        && rect.spec_width() >= 3 ==> rect.height_fits())
    &&& (winbox is None || has_inner(rect)) && columns.print_header ==> header_parts_fit(
        content_rect(rect, winbox),
        columns,
    )
}

/// The header parts of a table, which the table keeps as windows of their own (see
/// `spec_cache_table`).
pub fn cache_table(args: (&Rect, &Columns, Option<&WinBox>)) -> (r: Option<Vec<HeaderPart>>)
    requires
        cache_table_computable(*args.0, *args.1, args.2),
    ensures
        match r {
            Some(parts) => spec_cache_table(*args.0, *args.1, args.2) == Some(parts@),
            None => spec_cache_table(*args.0, *args.1, args.2) is None,
        },
{
    let (rect, columns, winbox) = args;
    let mut rect: Rect = *rect;
    if winbox.is_some() {
        rect = match rect.inner() {
            Some(inner) => inner,
            None => return None,
        };
    }
    if columns.print_header {
        Some(cache_table_headers(&rect, columns))
    } else {
        Some(Vec::new())
    }
}

/// Whether the header parts can be made (see `header_parts_fit`).
fn header_parts_fit_check(rect: &Rect, columns: &Columns) -> (b: bool)
    ensures
        b == header_parts_fit(*rect, *columns),
{
    if !(rect.x.0 <= rect.x.1 && rect.x.1 - rect.x.0 < u16::MAX) {
        return false;
    }
    if !layout_exists(rect.width() as usize, columns) {
        return false;
    }
    let ghost layout = spec_layout(rect.spec_width(), *columns)->0;
    let slots = foreach_column_compute_width(rect, columns);
    let sep_len = char_to_string(columns.separator).as_str().as_bytes().len();
    proof {
        lemma_separator_len(*columns);
    }
    let top_fits = rect.y.0 < u16::MAX;
    let mut walked: u64 = 0;
    let mut k: usize = 0;
    while k < slots.len()
        invariant
            rect.width_fits(),
            spec_layout(rect.spec_width(), *columns) is Some,
            layout == spec_layout(rect.spec_width(), *columns)->0,
            slots@ == layout,
            sep_len == separator_len(*columns),
            1 <= sep_len <= 4,
            top_fits == (rect.y.0 + 1 <= u16::MAX),
            0 <= k <= slots@.len(),
            walked == slots_width(*columns, layout, k as int),
            walked <= u16::MAX + 4,
            forall|j: int|
                0 <= j < k ==> {
                    &&& (#[trigger] layout[j]).separator ==> slot_x(*rect, *columns, layout, j) + 1
                        <= u16::MAX && rect.y.0 + 1 <= u16::MAX
                    &&& layout[j].width > 0 ==> slot_content_x(*rect, *columns, layout, j)
                        + layout[j].width <= u16::MAX && rect.y.0 + 1 <= u16::MAX
                },
        decreases slots@.len() - k,
    {
        let slot = slots[k];
        let x = rect.x.0 as u64 + walked;
        if slot.separator && (!top_fits || x + 1 > u16::MAX as u64) {
            return false;
        }
        let content_x = if slot.separator {
            x + sep_len as u64
        } else {
            x
        };
        if slot.width > 0 && (!top_fits || slot.width as u64 > u16::MAX as u64 || content_x
            + slot.width as u64 > u16::MAX as u64) {
            return false;
        }
        walked = content_x + slot.width as u64 - rect.x.0 as u64;
        k = k + 1;
    }
    true
}

/// Whether `cache_table` can make the header parts (see `cache_table_computable`).
pub fn cache_table_check(args: (&Rect, &Columns, Option<&WinBox>)) -> (b: bool)
    ensures
        b == cache_table_computable(*args.0, *args.1, args.2),
{
    let (rect, columns, winbox) = args;
    let mut inner: Rect = *rect;
    if winbox.is_some() {
        if rect.x.0 > rect.x.1 || rect.y.0 > rect.y.1 {
            return true;
        }
        if rect.x.1 - rect.x.0 >= u16::MAX {
            return false;
        }
        if rect.width() < 3 {
            return true;
        }
        if rect.y.1 - rect.y.0 >= u16::MAX {
            return false;
        }
        if rect.height() < 3 {
            return true;
        }
        inner = rect.inner_unchecked();
    }
    !columns.print_header || header_parts_fit_check(&inner, columns)
}

} // verus!
