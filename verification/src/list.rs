//! A list of rows of text under column headers.
use crate::border_box::{Box, Rect};
use crate::command::{push_command, push_print, views, Command, CommandView, ExContentStyle};
use crate::draw::byte_prefix;
use crate::table::VerticalScroll;
use crate::text::byte_len;
use crossterm::style::ContentStyle;
use vstd::prelude::*;
use vstd::utf8::{encode_utf8, is_char_boundary};

verus! {

broadcast use vstd::utf8::encode_utf8_decode_utf8;

/// Column
#[derive(Debug)]
pub struct Column<'a> {
    pub name: &'a str,
    pub width: u16,
    pub style: ContentStyle,
}

/// List
#[derive(Debug)]
pub struct List<'a> {
    pub print_column_headers: bool,
    pub columns: &'a [Column<'a>],
    pub data: &'a [&'a [&'a str]],
}

/// Columns of `width` taken by the first `k` list columns: each takes its width, or what
/// is left if that is less.
pub open spec fn walked(width: int, columns: Seq<Column>, k: int) -> int
    decreases k,
{
    if k <= 0 {
        0
    } else {
        let w = walked(width, columns, k - 1);
        let remaining = width - w;
        w + if (columns[k - 1].width as int) < remaining {
            columns[k - 1].width as int
        } else {
            remaining
        }
    }
}

/// Columns that list column `k` takes.
pub open spec fn spec_column_len(width: int, columns: Seq<Column>, k: int) -> int {
    walked(width, columns, k + 1) - walked(width, columns, k)
}

/// The bytes of `s` that fit into `len` columns (all of them when they are fewer).
pub open spec fn cut_len(s: Seq<char>, len: int) -> int {
    if len < byte_len(s) {
        len
    } else {
        byte_len(s) as int
    }
}

/// The text of `s` shown in `len` columns: the characters of its first bytes.
pub open spec fn cut(s: Seq<char>, len: int) -> Seq<char> {
    byte_prefix(s, cut_len(s, len))
}

/// The commands of the first `k` column headers.
pub open spec fn spec_headers(rect: Rect, columns: Seq<Column>, k: int) -> Seq<CommandView>
    decreases k,
{
    if k <= 0 {
        Seq::empty()
    } else {
        let w = rect.spec_width();
        spec_headers(rect, columns, k - 1) + seq![
            CommandView::MoveTo((rect.x.0 + walked(w, columns, k - 1)) as u16, rect.y.0),
            CommandView::Print(
                Some(columns[k - 1].style),
                cut(columns[k - 1].name@, spec_column_len(w, columns, k - 1)),
            ),
        ]
    }
}

/// The commands of the first `k` values of data row `row`.
pub open spec fn spec_values(
    rect: Rect,
    columns: Seq<Column>,
    line: Seq<&str>,
    row: int,
    k: int,
) -> Seq<CommandView>
    decreases k,
{
    if k <= 0 {
        Seq::empty()
    } else {
        let w = rect.spec_width();
        spec_values(rect, columns, line, row, k - 1) + seq![
            CommandView::MoveTo(
                (rect.x.0 + walked(w, columns, k - 1)) as u16,
                (rect.y.0 + row + 1) as u16,
            ),
            CommandView::Print(None, cut(line[k - 1]@, spec_column_len(w, columns, k - 1))),
        ]
    }
}

/// How many values of a data row are shown: one per column at most.
pub open spec fn shown_values(line: Seq<&str>, columns: Seq<Column>) -> int {
    if line.len() < columns.len() {
        line.len() as int
    } else {
        columns.len() as int
    }
}

/// The commands of the first `k` data rows.
pub open spec fn spec_rows(rect: Rect, columns: Seq<Column>, data: Seq<&[&str]>, k: int) -> Seq<
    CommandView,
>
    decreases k,
{
    if k <= 0 {
        Seq::empty()
    } else {
        spec_rows(rect, columns, data, k - 1) + spec_values(
            rect,
            columns,
            data[k - 1]@,
            k - 1,
            shown_values(data[k - 1]@, columns),
        )
    }
}

/// How many data rows are shown: the rows after the scroll position, at most the rows
/// below the header.
pub open spec fn shown_rows(rect: Rect, data_len: int, top_row: int) -> int {
    let after = data_len - top_row;
    if after < rect.spec_height() - 1 {
        after
    } else {
        rect.spec_height() - 1
    }
}

/// The commands of a list: the header of every column, then the rows.
pub open spec fn spec_draw_list(list: List, top_row: int, rect: Rect) -> Seq<CommandView> {
    let columns = list.columns@;
    spec_headers(rect, columns, columns.len() as int) + spec_rows(
        rect,
        columns,
        list.data@,
        shown_rows(rect, list.data@.len() as int, top_row),
    )
}

/// The list can be drawn: the rectangle's sizes fit, the scroll position is within the
/// data, the columns begin within the screen and texts are cut on character boundaries.
pub open spec fn list_drawable(list: List, top_row: int, rect: Rect) -> bool {
    let columns = list.columns@;
    let w = rect.spec_width();
    &&& columns.len() > 0 ==> rect.width_fits()
    &&& rect.height_fits()
    &&& top_row <= list.data@.len()
    &&& forall|k: int|
        0 <= k < columns.len() ==> rect.x.0 + #[trigger] walked(w, columns, k) <= u16::MAX
    &&& forall|k: int|
        0 <= k < columns.len() ==> is_char_boundary(
            encode_utf8(columns[k].name@),
            cut_len(columns[k].name@, #[trigger] spec_column_len(w, columns, k)),
        )
    &&& forall|r: int, k: int|
        0 <= r < shown_rows(rect, list.data@.len() as int, top_row) && 0 <= k < shown_values(
            list.data@[r]@,
            columns,
        ) ==> is_char_boundary(
            encode_utf8((#[trigger] list.data@[r]@[k])@),
            cut_len(list.data@[r]@[k]@, spec_column_len(w, columns, k)),
        )
}

proof fn lemma_walked_bounded(width: int, columns: Seq<Column>, k: int)
    requires
        width >= 0,
        0 <= k <= columns.len(),
    ensures
        0 <= walked(width, columns, k) <= width,
    decreases k,
{
    if k > 0 {
        lemma_walked_bounded(width, columns, k - 1);
    }
}

/// The part of `s` that fits into `len` columns, cut at a byte index.
fn cut_str<'b>(s: &'b str, len: u16) -> (r: &'b str)
    requires
        is_char_boundary(encode_utf8(s@), cut_len(s@, len as int)),
    ensures
        r@ == cut(s@, len as int),
{
    let bytes = s.as_bytes().len();
    let at = if (len as usize) < bytes {
        len as usize
    } else {
        bytes
    };
    let (head, _) = s.split_at(at);
    head
}

/// Draw a list with its column headers in the rectangle; the data rows follow the header,
/// as many as fit below it and as the rows after the scroll position.
pub fn draw_scrollable_list(
    out: &mut Vec<Command>,
    list: &List,
    scroll: &VerticalScroll,
    rect: &Rect,
)
    requires
        list_drawable(*list, scroll.top_row as int, *rect),
    ensures
        views(final(out)@) == views(old(out)@) + spec_draw_list(*list, scroll.top_row as int, *rect),
{
    let ghost before = views(out@);
    let ghost columns = list.columns@;
    let ghost w = rect.spec_width();
    let width = if list.columns.len() > 0 {
        rect.width()
    } else {
        0
    };
    let mut walked_len: u16 = 0;
    let mut col: usize = 0;
    while col < list.columns.len()
        invariant
            list_drawable(*list, scroll.top_row as int, *rect),
            columns == list.columns@,
            w == rect.spec_width(),
            columns.len() > 0 ==> width == w,
            0 <= col <= columns.len(),
            walked_len == walked(w, columns, col as int),
            views(out@) == before + spec_headers(*rect, columns, col as int),
        decreases columns.len() - col,
    {
        proof {
            lemma_walked_bounded(w, columns, col as int);
        }
        let column = &list.columns[col];
        // HEADER
        let remaining_len = width - walked_len;
        let column_len = if column.width < remaining_len {
            column.width
        } else {
            remaining_len
        };
        assert(column_len == spec_column_len(w, columns, col as int));
        let column_name = cut_str(column.name, column_len);
        push_command(out, Command::MoveTo(rect.x.0 + walked_len, rect.y.0));
        push_print(out, Some(column.style), column_name.to_owned());
        walked_len = walked_len + column_len;
        col = col + 1;
        assert(views(out@) =~= before + spec_headers(*rect, columns, col as int));
    }
    let ghost after_headers = views(out@);

    // DATA
    let offset_row = scroll.top_row;
    let after = list.data.len() - offset_row;
    let below_header = (rect.height() - 1) as usize;
    let max_rows = if after < below_header {
        after
    } else {
        below_header
    };
    let mut row: usize = 0;
    while row < max_rows
        invariant
            list_drawable(*list, scroll.top_row as int, *rect),
            columns == list.columns@,
            w == rect.spec_width(),
            columns.len() > 0 ==> width == w,
            max_rows == shown_rows(*rect, list.data@.len() as int, scroll.top_row as int),
            max_rows <= list.data@.len(),
            max_rows < rect.spec_height(),
            0 <= row <= max_rows,
            views(out@) == after_headers + spec_rows(*rect, columns, list.data@, row as int),
        decreases max_rows - row,
    {
        let line = list.data[row];
        let ghost start = views(out@);
        let values = if line.len() < list.columns.len() {
            line.len()
        } else {
            list.columns.len()
        };
        let mut walked_len: u16 = 0;
        let mut col: usize = 0;
        while col < values
            invariant
                list_drawable(*list, scroll.top_row as int, *rect),
                columns == list.columns@,
                line@ == list.data@[row as int]@,
                w == rect.spec_width(),
                columns.len() > 0 ==> width == w,
                row < max_rows,
                max_rows == shown_rows(*rect, list.data@.len() as int, scroll.top_row as int),
                max_rows < rect.spec_height(),
                values == shown_values(line@, columns),
                0 <= col <= values,
                walked_len == walked(w, columns, col as int),
                views(out@) == start + spec_values(*rect, columns, line@, row as int, col as int),
            decreases values - col,
        {
            proof {
                lemma_walked_bounded(w, columns, col as int);
            }
            let column = &list.columns[col];
            let remaining_len = width - walked_len;
            let column_len = if column.width < remaining_len {
                column.width
            } else {
                remaining_len
            };
            assert(column_len == spec_column_len(w, columns, col as int));
            assert(is_char_boundary(
                encode_utf8(line@[col as int]@),
                cut_len(line@[col as int]@, spec_column_len(w, columns, col as int)),
            ));
            let value = cut_str(line[col], column_len);
            push_command(out, Command::MoveTo(rect.x.0 + walked_len, rect.y.0 + row as u16 + 1));
            push_print(out, None, value.to_owned());
            walked_len = walked_len + column_len;
            col = col + 1;
            assert(views(out@) =~= start + spec_values(
                *rect,
                columns,
                line@,
                row as int,
                col as int,
            ));
        }
        row = row + 1;
        assert(views(out@) =~= after_headers + spec_rows(*rect, columns, list.data@, row as int));
    }
    assert(views(out@) =~= before + spec_draw_list(*list, scroll.top_row as int, *rect));
}

/// How far a list scrolls when its box is resized to `rows` rows: back by the growth of the
/// box, when the box grows and the rows after the scroll position are fewer than the rows
/// inside the new box; `None` when it does not scroll.
pub open spec fn spec_resize_scroll(list: List, top_row: int, height: int, rows: int) -> Option<i32> {
    let scroll_diff = height - rows;
    let rows_after_scroll = (list.data@.len() - top_row) as i32;
    if rows_after_scroll < rows - 3 && scroll_diff < 0 {
        Some(scroll_diff as i32)
    } else {
        None
    }
}

/// Resize the box of a scrollable list to `cols` columns and `rows` rows at the same
/// position, and give how far the list is to scroll for the new size (see
/// `spec_resize_scroll`).
pub fn resize_scrollable_list_box(
    list: &List,
    scroll: &VerticalScroll,
    bx: &mut Box,
    cols: u16,
    rows: u16,
) -> (r: Option<i32>)
    requires
        old(bx).rect.height_fits(),
        scroll.top_row <= list.data@.len(),
        rows >= 3,
        1 <= old(bx).rect.x.0 + cols <= u16::MAX,
        1 <= old(bx).rect.y.0 + rows <= u16::MAX,
    ensures
        final(bx).rect == Rect::spec_from_size((old(bx).rect.x.0, old(bx).rect.y.0), (cols, rows)),
        final(bx).borders == old(bx).borders,
        r == spec_resize_scroll(
            *list,
            scroll.top_row as int,
            old(bx).rect.spec_height(),
            rows as int,
        ),
{
    let scroll_diff: i32 = (bx.rect.height() as i32) - (rows as i32);
    let rows_after_scroll: i32 = (list.data.len() - scroll.top_row) as i32;
    let r = if rows_after_scroll < (rows - 3) as i32 && scroll_diff < 0 {
        Some(scroll_diff)
    } else {
        None
    };
    bx.rect = Rect::from_size((bx.rect.x.0, bx.rect.y.0), (cols, rows));
    r
}

} // verus!
