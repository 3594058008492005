//! A table drawn in a rectangle of the box module, without a window box: the header
//! row, then the rows, each ended by a move to the next line.
use crate::border_box;
use crate::command::{push_command, push_print, views, Command, CommandView, ExContentStyle};
use crate::draw::table::{
    cell_content, cell_drawable, cell_style, first_row, foreach_column_compute_width,
    foreach_visible_row_compute, resolve_column_content, separator_string, separator_text,
    spec_layout, visible_rows_count, ColumnSlot,
};
use crate::draw::{format_strip_align, spec_strip_align, strip_align_cuts_cleanly};
use crate::rect::Rect;
use crate::style::{content_style, plain, spec_content_style, style_new};
use crate::table::{Columns, Row, Selection, Table, VerticalScroll};
use crossterm::style::ContentStyle;
use vstd::prelude::*;

verus! {

broadcast use vstd::std_specs::hash::group_hash_axioms;

/// The grid rectangle with the same columns and rows.
pub open spec fn grid(rect: border_box::Rect) -> Rect {
    Rect { x: rect.x, y: rect.y }
}

fn to_grid(rect: &border_box::Rect) -> (r: Rect)
    ensures
        r == grid(*rect),
{
    Rect { x: rect.x, y: rect.y }
}

/// The default style of the terminal.
pub open spec fn default_style() -> ContentStyle {
    spec_content_style(plain())
}

/// The slots of the visible columns in the width of `rect` (none without visible
/// columns).
pub open spec fn slots_of(rect: border_box::Rect, columns: Columns) -> Seq<ColumnSlot> {
    if columns.visible@.len() == 0 {
        Seq::empty()
    } else {
        spec_layout(grid(rect).spec_width(), columns)->0
    }
}

/// One header cell: the separator in the default style, then the column name fitted into
/// the slot, in the column style.
pub open spec fn header_cell(columns: Columns, slot: ColumnSlot) -> Seq<CommandView> {
    let column = columns.visible@[slot.column as int];
    seq![
        CommandView::Print(Some(default_style()), separator_text(columns, slot)),
        CommandView::Print(
            Some(column.style),
            spec_strip_align(column.name@, slot.width as nat, column.alignment),
        ),
    ]
}

pub open spec fn header_cells(columns: Columns, slots: Seq<ColumnSlot>, k: int) -> Seq<CommandView>
    decreases k,
{
    if k <= 0 {
        Seq::empty()
    } else {
        header_cells(columns, slots, k - 1) + header_cell(columns, slots[k - 1])
    }
}

/// The style of a cell: the selection style in the selected row, else the cell's own
/// style, else the default style.
pub open spec fn box_cell_style(
    row_idx: int,
    row: Map<u8, String>,
    value: crate::table::ColumnValue,
    selection: Option<&Selection>,
) -> ContentStyle {
    match cell_style(row_idx, row, value, selection) {
        Some(style) => style,
        None => default_style(),
    }
}

/// One cell: separator and fitted content, both in the cell style.
pub open spec fn row_cell(
    columns: Columns,
    slot: ColumnSlot,
    row_idx: int,
    row: Map<u8, String>,
    selection: Option<&Selection>,
) -> Seq<CommandView> {
    let column = columns.visible@[slot.column as int];
    let style = box_cell_style(row_idx, row, column.value, selection);
    seq![
        CommandView::Print(Some(style), separator_text(columns, slot)),
        CommandView::Print(
            Some(style),
            spec_strip_align(
                cell_content(row_idx, row, column.value, selection).0,
                slot.width as nat,
                column.alignment,
            ),
        ),
    ]
}

pub open spec fn row_cells(
    columns: Columns,
    slots: Seq<ColumnSlot>,
    row_idx: int,
    row: Map<u8, String>,
    selection: Option<&Selection>,
    k: int,
) -> Seq<CommandView>
    decreases k,
{
    if k <= 0 {
        Seq::empty()
    } else {
        row_cells(columns, slots, row_idx, row, selection, k - 1) + row_cell(
            columns,
            slots[k - 1],
            row_idx,
            row,
            selection,
        )
    }
}

/// The commands of `k` rows from index `begin`: the cells of each, then a move to the
/// next line.
pub open spec fn rows_commands(
    rows: Seq<Row>,
    columns: Columns,
    slots: Seq<ColumnSlot>,
    begin: int,
    selection: Option<&Selection>,
    k: int,
) -> Seq<CommandView>
    decreases k,
{
    if k <= 0 {
        Seq::empty()
    } else {
        rows_commands(rows, columns, slots, begin, selection, k - 1) + row_cells(
            columns,
            slots,
            begin + k - 1,
            rows[begin + k - 1]@,
            selection,
            slots.len() as int,
        ) + seq![CommandView::MoveToNextLine(1)]
    }
}

/// The rectangle of the rows: one row lower when the header is printed.
pub open spec fn rows_rect(rect: border_box::Rect, columns: Columns) -> border_box::Rect {
    if columns.print_header {
        border_box::Rect { x: rect.x, y: ((rect.y.0 + 1) as u16, rect.y.1) }
    } else {
        rect
    }
}

/// The commands of the rows, when the rectangle below the header is valid.
pub open spec fn spec_rows(
    rect: border_box::Rect,
    table: Table,
    columns: Columns,
    vscroll: Option<&VerticalScroll>,
    selection: Option<&Selection>,
) -> Seq<CommandView> {
    let count = visible_rows_count(grid(rect), table, vscroll);
    let slots = if count > 0 {
        slots_of(rect, columns)
    } else {
        Seq::empty()
    };
    rows_commands(table.rows@, columns, slots, first_row(vscroll), selection, count)
}

/// The commands of a table: a move to the top-left corner, the header and a move to the
/// next line when the header is printed, then the rows below it when there is room.
pub open spec fn spec_draw_table(
    rect: border_box::Rect,
    table: Table,
    columns: Columns,
    vscroll: Option<&VerticalScroll>,
    selection: Option<&Selection>,
) -> Seq<CommandView> {
    let slots = slots_of(rect, columns);
    let header = if columns.print_header {
        header_cells(columns, slots, slots.len() as int) + seq![CommandView::MoveToNextLine(1)]
    } else {
        Seq::empty()
    };
    let rows = rows_rect(rect, columns);
    seq![CommandView::MoveTo(rect.x.0, rect.y.0)] + header + if rows.spec_valid() {
        spec_rows(rows, table, columns, vscroll, selection)
    } else {
        Seq::empty()
    }
}

/// The header can be drawn: where there are visible columns, the width fits, they can be
/// laid out and their names are cut on character boundaries.
pub open spec fn box_headers_drawable(rect: border_box::Rect, columns: Columns) -> bool {
    let slots = spec_layout(grid(rect).spec_width(), columns)->0;
    columns.visible@.len() > 0 ==> {
        &&& grid(rect).width_fits()
        &&& spec_layout(grid(rect).spec_width(), columns) is Some
        &&& forall|k: int|
            0 <= k < slots.len() ==> strip_align_cuts_cleanly(
                columns.visible@[(#[trigger] slots[k]).column as int].name@,
                slots[k].width as nat,
            )
    }
}

/// The rows can be drawn in a valid rectangle.
pub open spec fn box_rows_drawable(
    rect: border_box::Rect,
    table: Table,
    columns: Columns,
    vscroll: Option<&VerticalScroll>,
    selection: Option<&Selection>,
) -> bool {
    let count = visible_rows_count(grid(rect), table, vscroll);
    let slots = spec_layout(grid(rect).spec_width(), columns)->0;
    &&& grid(rect).height_fits()
    &&& 0 <= first_row(vscroll) <= table.rows@.len()
    &&& count > 0 && columns.visible@.len() > 0 ==> {
        &&& grid(rect).width_fits()
        &&& spec_layout(grid(rect).spec_width(), columns) is Some
        &&& forall|row_idx: int, k: int|
            first_row(vscroll) <= row_idx < first_row(vscroll) + count && 0 <= k < slots.len()
                ==> #[trigger] cell_drawable(
                columns,
                slots[k],
                row_idx,
                table.rows@[row_idx]@,
                selection,
            )
    }
}

/// `draw_table` can draw the table.
pub open spec fn box_table_drawable(
    rect: border_box::Rect,
    table: Table,
    columns: Columns,
    vscroll: Option<&VerticalScroll>,
    selection: Option<&Selection>,
) -> bool {
    &&& columns.print_header ==> rect.y.0 < u16::MAX && box_headers_drawable(rect, columns)
    &&& rows_rect(rect, columns).spec_valid() ==> box_rows_drawable(
        rows_rect(rect, columns),
        table,
        columns,
        vscroll,
        selection,
    )
}

/// Draw a Table widget within the Rect space.
///
/// Includes drawing the Column headers, and line numbers.
pub fn draw_table(
    out: &mut Vec<Command>,
    args: (&border_box::Rect, &Table, &Columns, Option<&VerticalScroll>, Option<&Selection>),
)
    requires
        box_table_drawable(*args.0, *args.1, *args.2, args.3, args.4),
    ensures
        views(final(out)@) == views(old(out)@) + spec_draw_table(
            *args.0,
            *args.1,
            *args.2,
            args.3,
            args.4,
        ),
{
    let (rect, table, columns, vscroll, selection) = args;
    let ghost before = views(out@);
    let mut rect: border_box::Rect = *rect;
    // Reposition the cursor to the top of our widget space
    push_command(out, Command::MoveTo(rect.x.0, rect.y.0));
    // Print the column headers
    if columns.print_header {
        draw_table_headers(out, (&rect, columns));
        push_command(out, Command::MoveToNextLine(1));
        rect.y.0 = rect.y.0 + 1;
    }
    let ghost after_header = views(out@);
    // Draw the rows while the remaining space is valid
    if rect.valid() {
        draw_table_rows(out, (&rect, table, columns, vscroll, selection));
    }
    assert(views(out@) =~= before + spec_draw_table(*args.0, *table, *columns, vscroll, selection));
}

/// Draw the Table Column headers at the table top row with style.
fn draw_table_headers(out: &mut Vec<Command>, args: (&border_box::Rect, &Columns))
    requires
        box_headers_drawable(*args.0, *args.1),
    ensures
        views(final(out)@) == views(old(out)@) + header_cells(
            *args.1,
            slots_of(*args.0, *args.1),
            slots_of(*args.0, *args.1).len() as int,
        ),
{
    let (rect, columns) = args;
    let ghost before = views(out@);
    if columns.visible.len() == 0 {
        assert(views(out@) =~= before);
        return;
    }
    let slots = foreach_column_compute_width(&to_grid(rect), columns);
    let mut k: usize = 0;
    while k < slots.len()
        invariant
            box_headers_drawable(*rect, *columns),
            columns.visible@.len() > 0,
            slots@ == slots_of(*rect, *columns),
            0 <= k <= slots@.len(),
            forall|j: int| 0 <= j < slots@.len() ==> (#[trigger] slots@[j]).column < columns.visible@.len(),
            views(out@) == before + header_cells(*columns, slots@, k as int),
        decreases slots@.len() - k,
    {
        let slot = slots[k];
        let column = &columns.visible[slot.column];
        assert(strip_align_cuts_cleanly(column.name@, slot.width as nat));
        push_print(out, Some(content_style(style_new())), separator_string(columns, slot));
        let actual_column_name = format_strip_align(&column.name, slot.width, &column.alignment);
        push_print(out, Some(column.style), actual_column_name);
        assert(views(out@) =~= before + header_cells(*columns, slots@, k + 1));
        k = k + 1;
    }
}

/// Draw the Table rows while there is vertical space in Rect.
fn draw_table_rows(
    out: &mut Vec<Command>,
    args: (&border_box::Rect, &Table, &Columns, Option<&VerticalScroll>, Option<&Selection>),
)
    requires
        box_rows_drawable(*args.0, *args.1, *args.2, args.3, args.4),
    ensures
        views(final(out)@) == views(old(out)@) + spec_rows(*args.0, *args.1, *args.2, args.3, args.4),
{
    let (rect, table, columns, vscroll, selection) = args;
    let ghost before = views(out@);
    let grid_rect = to_grid(rect);
    let (begin_idx, end_idx) = foreach_visible_row_compute(&grid_rect, table, vscroll);
    let slots = if end_idx > begin_idx && columns.visible.len() > 0 {
        foreach_column_compute_width(&grid_rect, columns)
    } else {
        Vec::new()
    };
    let ghost count = visible_rows_count(grid(*rect), *table, vscroll);
    assert(slots@ == (if count > 0 {
        slots_of(*rect, *columns)
    } else {
        Seq::<ColumnSlot>::empty()
    }));
    let mut row_idx = begin_idx;
    while row_idx < end_idx
        invariant
            box_rows_drawable(*rect, *table, *columns, vscroll, selection),
            count == visible_rows_count(grid(*rect), *table, vscroll),
            slots@ == (if count > 0 {
                slots_of(*rect, *columns)
            } else {
                Seq::<ColumnSlot>::empty()
            }),
            forall|j: int| 0 <= j < slots@.len() ==> (#[trigger] slots@[j]).column < columns.visible@.len(),
            begin_idx == first_row(vscroll),
            end_idx == begin_idx + count,
            end_idx <= table.rows@.len(),
            begin_idx <= row_idx <= end_idx,
            views(out@) == before + rows_commands(
                table.rows@,
                *columns,
                slots@,
                begin_idx as int,
                selection,
                row_idx - begin_idx,
            ),
        decreases end_idx - row_idx,
    {
        draw_row(out, columns, &slots, row_idx, &table.rows[row_idx], selection);
        proof {
            assert(views(out@) =~= before + rows_commands(
                table.rows@,
                *columns,
                slots@,
                begin_idx as int,
                selection,
                row_idx + 1 - begin_idx,
            ));
        }
        row_idx = row_idx + 1;
    }
}

/// Draw one table row and move to the next line.
fn draw_row(
    out: &mut Vec<Command>,
    columns: &Columns,
    slots: &Vec<ColumnSlot>,
    row_idx: usize,
    row: &Row,
    selection: Option<&Selection>,
)
    requires
        row_idx < usize::MAX,
        forall|j: int| 0 <= j < slots@.len() ==> (#[trigger] slots@[j]).column < columns.visible@.len(),
        forall|k: int|
            0 <= k < slots@.len() ==> #[trigger] cell_drawable(
                *columns,
                slots@[k],
                row_idx as int,
                row@,
                selection,
            ),
    ensures
        views(final(out)@) == views(old(out)@) + row_cells(
            *columns,
            slots@,
            row_idx as int,
            row@,
            selection,
            slots@.len() as int,
        ) + seq![CommandView::MoveToNextLine(1)],
{
    let ghost before = views(out@);
    let row_style: Option<ContentStyle> = match selection {
        Some(selected) => if selected.row_index == row_idx {
            Some(selected.style)
        } else {
            None
        },
        None => None,
    };
    let mut k: usize = 0;
    while k < slots.len()
        invariant
            forall|j: int| 0 <= j < slots@.len() ==> (#[trigger] slots@[j]).column < columns.visible@.len(),
            forall|k: int|
                0 <= k < slots@.len() ==> #[trigger] cell_drawable(
                    *columns,
                    slots@[k],
                    row_idx as int,
                    row@,
                    selection,
                ),
            row_style == crate::draw::table::row_style(row_idx as int, selection),
            row_idx < usize::MAX,
            0 <= k <= slots@.len(),
            views(out@) == before + row_cells(*columns, slots@, row_idx as int, row@, selection, k as int),
        decreases slots@.len() - k,
    {
        let slot = slots[k];
        let column = &columns.visible[slot.column];
        assert(cell_drawable(*columns, slots@[k as int], row_idx as int, row@, selection));
        let (content, style) = resolve_column_content(row_idx, row, &column.value, selection);
        let actual_content = format_strip_align(&content, slot.width, &column.alignment);
        let actual_style = match row_style {
            Some(style) => style,
            None => match style {
                Some(style) => style,
                None => content_style(style_new()),
            },
        };
        push_print(out, Some(actual_style), separator_string(columns, slot));
        push_print(out, Some(actual_style), actual_content);
        assert(views(out@) =~= before + row_cells(
            *columns,
            slots@,
            row_idx as int,
            row@,
            selection,
            k + 1,
        ));
        k = k + 1;
    }
    push_command(out, Command::MoveToNextLine(1));
}

} // verus!
