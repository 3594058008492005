//! A rectangle and a box with borders drawn around it.
use crate::command::{push_command, push_print, views, Command, CommandView};
use crate::text::{char_to_string, repeat_char, repeated};
use vstd::prelude::*;

verus! {

/// Rect
/// Represents a rectangle on a terminal grid of columns and rows.
/// A valid rectangle has at least one column and one row; both ends are inclusive.
#[derive(Default, Debug, Copy, Clone, PartialEq, Eq)]
pub struct Rect {
    /// X (begin, end)
    pub x: (u16, u16),
    /// Y (begin, end)
    pub y: (u16, u16),
}

impl Rect {
    pub open spec fn spec_from_size(pos: (u16, u16), size: (u16, u16)) -> Rect {
        Rect {
            x: (pos.0, (pos.0 + size.0 - 1) as u16),
            y: (pos.1, (pos.1 + size.1 - 1) as u16),
        }
    }

    /// At least one column and one row.
    pub open spec fn spec_valid(self) -> bool {
        self.x.0 <= self.x.1 && self.y.0 <= self.y.1
    }

    pub open spec fn spec_width(self) -> int {
        self.x.1 - self.x.0 + 1
    }

    pub open spec fn spec_height(self) -> int {
        self.y.1 - self.y.0 + 1
    }

    /// `width()` returns without overflow.
    pub open spec fn width_fits(self) -> bool {
        self.x.0 <= self.x.1 && self.x.1 - self.x.0 < u16::MAX
    }

    /// `height()` returns without overflow.
    pub open spec fn height_fits(self) -> bool {
        self.y.0 <= self.y.1 && self.y.1 - self.y.0 < u16::MAX
    }

    pub open spec fn spec_inner(self) -> Rect {
        Rect {
            x: ((self.x.0 + 1) as u16, (self.x.1 - 1) as u16),
            y: ((self.y.0 + 1) as u16, (self.y.1 - 1) as u16),
        }
    }

    pub open spec fn spec_outer(self) -> Rect {
        Rect {
            x: ((self.x.0 - 1) as u16, (self.x.1 + 1) as u16),
            y: ((self.y.0 - 1) as u16, (self.y.1 + 1) as u16),
        }
    }

    /// A rectangle with room inside its borders.
    pub open spec fn has_inner(self) -> bool {
        self.spec_valid() && self.spec_width() >= 3 && self.spec_height() >= 3
    }

    /// Create from size.
    ///
    /// Assumes width and height are greater than zero.
    /// If unsure, call the "checked" function.
    pub fn from_size(pos: (u16, u16), size: (u16, u16)) -> (r: Self)
        requires
            1 <= pos.0 + size.0 <= u16::MAX,
            1 <= pos.1 + size.1 <= u16::MAX,
        ensures
            r == Rect::spec_from_size(pos, size),
    {
        let (x, y) = pos;
        let (width, height) = size;
        Self { x: (x, x + width - 1), y: (y, y + height - 1) }
    }

    /// Create checking that width and height are greater than zero.
    pub fn from_size_checked(pos: (u16, u16), size: (u16, u16)) -> (r: Option<Self>)
        requires
            size.0 > 0 && size.1 > 0 ==> pos.0 + size.0 <= u16::MAX && pos.1 + size.1
                <= u16::MAX,
        ensures
            r == (if size.0 > 0 && size.1 > 0 {
                Some(Rect::spec_from_size(pos, size))
            } else {
                None
            }),
    {
        if size.0 > 0 && size.1 > 0 {
            Some(Self::from_size(pos, size))
        } else {
            None
        }
    }

    /// Get width or number of columns
    pub fn width(&self) -> (w: u16)
        requires
            self.width_fits(),
        ensures
            w == self.spec_width(),
    {
        self.x.1 - self.x.0 + 1
    }

    /// Get height or number of rows
    pub fn height(&self) -> (h: u16)
        requires
            self.height_fits(),
        ensures
            h == self.spec_height(),
    {
        self.y.1 - self.y.0 + 1
    }

    /// Get width or number of columns
    pub fn cols(&self) -> (w: u16)
        requires
            self.width_fits(),
        ensures
            w == self.spec_width(),
    {
        self.width()
    }

    /// Get height or number of rows
    pub fn rows(&self) -> (h: u16)
        requires
            self.height_fits(),
        ensures
            h == self.spec_height(),
    {
        self.height()
    }

    /// Return an inner Rect.
    ///
    /// It is assumed current width and height are at least 3.
    /// If unsure, use the "checked" version.
    pub fn inner(&self) -> (r: Self)
        requires
            self.x.0 < u16::MAX,
            self.x.1 > 0,
            self.y.0 < u16::MAX,
            self.y.1 > 0,
        ensures
            r == self.spec_inner(),
    {
        Self { x: (self.x.0 + 1, self.x.1 - 1), y: (self.y.0 + 1, self.y.1 - 1) }
    }

    /// Return an inner Rect.
    ///
    /// Checks that the inner rectangle will be valid.
    pub fn inner_checked(&self) -> (r: Option<Self>)
        requires
            self.spec_valid() ==> self.width_fits(),
            self.spec_valid() && self.spec_width() >= 3 ==> self.height_fits(),
        ensures
            r == (if self.has_inner() {
                Some(self.spec_inner())
            } else {
                None
            }),
    {
        if !self.valid() || self.width() < 3 || self.height() < 3 {
            None
        } else {
            Some(self.inner())
        }
    }

    /// Return an outer Rect.
    ///
    /// It is assumed current x0 and y0 are not at origin (0,0) but offset by at least 1.
    /// If unsure, use the "checked" version.
    pub fn outer(&self) -> (r: Self)
        requires
            self.x.0 > 0,
            self.y.0 > 0,
            self.x.1 < u16::MAX,
            self.y.1 < u16::MAX,
        ensures
            r == self.spec_outer(),
    {
        Self { x: (self.x.0 - 1, self.x.1 + 1), y: (self.y.0 - 1, self.y.1 + 1) }
    }

    /// Return an outer Rect.
    ///
    /// Checks that the outer rectangle will be valid.
    pub fn outer_checked(&self) -> (r: Option<Self>)
        ensures
            r == (if self.spec_valid() && self.x.0 != 0 && self.y.0 != 0 && self.x.1 < u16::MAX
                && self.y.1 < u16::MAX {
                Some(self.spec_outer())
            } else {
                None
            }),
    {
        if !self.valid() || self.x.0 == 0 || self.y.0 == 0 || self.x.1 == u16::MAX || self.y.1
            == u16::MAX {
            None
        } else {
            Some(self.outer())
        }
    }

    /// Return itself if Rect is still valid, otherwise consume itself and return None.
    pub fn checked(self) -> (r: Option<Self>)
        ensures
            r == (if self.spec_valid() {
                Some(self)
            } else {
                None
            }),
    {
        if self.valid() {
            Some(self)
        } else {
            None
        }
    }

    /// Check if Self is a valid Rect.
    pub fn valid(&self) -> (b: bool)
        ensures
            b == self.spec_valid(),
    {
        self.x.0 <= self.x.1 && self.y.0 <= self.y.1
    }
}

/// Growing the inner rectangle of a rectangle gives the rectangle back.
pub proof fn law_outer_of_inner(r: Rect)
    requires
        r.has_inner(),
    ensures
        r.spec_inner().spec_valid(),
        r.spec_inner().x.0 != 0 && r.spec_inner().y.0 != 0,
        r.spec_inner().spec_outer() == r,
{
}

/// Shrinking the outer rectangle of a rectangle gives the rectangle back.
pub proof fn law_inner_of_outer(r: Rect)
    requires
        r.spec_valid(),
        r.x.0 != 0,
        r.y.0 != 0,
        r.x.1 < u16::MAX,
        r.y.1 < u16::MAX,
    ensures
        r.spec_outer().has_inner(),
        r.spec_outer().spec_inner() == r,
{
}

/// A rectangle made from a position and a positive size has exactly that size.
pub proof fn law_from_size_dimensions(pos: (u16, u16), size: (u16, u16))
    requires
        size.0 > 0,
        size.1 > 0,
        pos.0 + size.0 <= u16::MAX,
        pos.1 + size.1 <= u16::MAX,
    ensures
        Rect::spec_from_size(pos, size).spec_valid(),
        Rect::spec_from_size(pos, size).spec_width() == size.0,
        Rect::spec_from_size(pos, size).spec_height() == size.1,
{
}

/// Box with borders, for drawing it in a terminal grid.
#[derive(Debug, Copy, Clone)]
pub struct Box<'a> {
    pub rect: Rect,
    pub borders: &'a BorderChars,
}

/// The commands that draw the left and right borders of rows `from..=to`.
pub open spec fn spec_side_borders(bx: Box, from: int, to: int) -> Seq<CommandView>
    decreases to - from + 1,
{
    if to < from {
        Seq::empty()
    } else {
        spec_side_borders(bx, from, to - 1) + seq![
            CommandView::MoveTo(bx.rect.x.0, to as u16),
            CommandView::Print(None, seq![bx.borders.vertical]),
            CommandView::MoveRight((bx.rect.spec_width() - 2) as u16),
            CommandView::Print(None, seq![bx.borders.vertical]),
        ]
    }
}

/// The commands that draw a box: top and bottom borders with their corners, then the
/// side borders row by row; nothing for a rectangle without room inside.
pub open spec fn spec_draw_box(bx: Box) -> Seq<CommandView> {
    let rect = bx.rect;
    if rect.has_inner() {
        let horizontal = repeated(bx.borders.horizontal, (rect.spec_width() - 2) as nat);
        seq![
            CommandView::MoveTo(rect.x.0, rect.y.0),
            CommandView::Print(None, seq![bx.borders.upper_left]),
            CommandView::Print(None, horizontal),
            CommandView::Print(None, seq![bx.borders.upper_right]),
            CommandView::MoveTo(rect.x.0, rect.y.1),
            CommandView::Print(None, seq![bx.borders.lower_left]),
            CommandView::Print(None, horizontal),
            CommandView::Print(None, seq![bx.borders.lower_right]),
        ] + spec_side_borders(bx, rect.y.0 + 1, rect.y.1 - 1)
    } else {
        Seq::empty()
    }
}

/// The side borders of rows `from..=to` take four commands per row, the row `y` ones
/// beginning at index `4 * (y - from)`.
proof fn lemma_side_borders_rows(bx: Box, from: int, to: int)
    requires
        from <= to + 1,
    ensures
        spec_side_borders(bx, from, to).len() == 4 * (to - from + 1),
        forall|y: int|
            from <= y <= to ==> {
                &&& #[trigger] spec_side_borders(bx, from, to)[4 * (y - from)] == CommandView::MoveTo(
                    bx.rect.x.0,
                    y as u16,
                )
                &&& spec_side_borders(bx, from, to)[4 * (y - from) + 1] == CommandView::Print(
                    None,
                    seq![bx.borders.vertical],
                )
                &&& spec_side_borders(bx, from, to)[4 * (y - from) + 2] == CommandView::MoveRight(
                    (bx.rect.spec_width() - 2) as u16,
                )
                &&& spec_side_borders(bx, from, to)[4 * (y - from) + 3] == CommandView::Print(
                    None,
                    seq![bx.borders.vertical],
                )
            },
    decreases to - from + 1,
{
    if from <= to {
        lemma_side_borders_rows(bx, from, to - 1);
    }
}

/// A drawn box has a left and a right border on every row strictly between its top and
/// bottom rows: after the eight commands of the top and bottom borders, row `y` gets a
/// move to the left edge `(x.0, y)`, the vertical border, a move over the inner width and
/// the vertical border again, one row after the other from the top, and nothing else.
pub proof fn law_box_side_borders_on_every_row(bx: Box, y: int)
    requires
        bx.rect.has_inner(),
        bx.rect.y.0 < y < bx.rect.y.1,
    ensures
        ({
            let out = spec_draw_box(bx);
            let i = 8 + 4 * (y - bx.rect.y.0 - 1);
            &&& out.len() == 8 + 4 * (bx.rect.spec_height() - 2)
            &&& out[i] == CommandView::MoveTo(bx.rect.x.0, y as u16)
            &&& out[i + 1] == CommandView::Print(None, seq![bx.borders.vertical])
            &&& out[i + 2] == CommandView::MoveRight((bx.rect.spec_width() - 2) as u16)
            &&& out[i + 3] == CommandView::Print(None, seq![bx.borders.vertical])
        }),
{
    let rect = bx.rect;
    lemma_side_borders_rows(bx, rect.y.0 + 1, rect.y.1 - 1);
    let sides = spec_side_borders(bx, rect.y.0 + 1, rect.y.1 - 1);
    let from = rect.y.0 + 1;
    assert(sides[4 * (y - from)] == CommandView::MoveTo(bx.rect.x.0, y as u16));
    let out = spec_draw_box(bx);
    let i = 8 + 4 * (y - from);
    assert(out[i] == sides[4 * (y - from)]);
    assert(out[i + 1] == sides[4 * (y - from) + 1]);
    assert(out[i + 2] == sides[4 * (y - from) + 2]);
    assert(out[i + 3] == sides[4 * (y - from) + 3]);
}

/// The top and bottom borders of a drawn box span its whole width on its first and last
/// rows: each starts at the left edge with its corner, then `width - 2` horizontal border
/// characters, then the other corner, so it ends in the rightmost column.
pub proof fn law_box_top_and_bottom_span_width(bx: Box)
    requires
        bx.rect.has_inner(),
    ensures
        ({
            let out = spec_draw_box(bx);
            let w = bx.rect.spec_width();
            &&& out[0] == CommandView::MoveTo(bx.rect.x.0, bx.rect.y.0)
            &&& out[1] == CommandView::Print(None, seq![bx.borders.upper_left])
            &&& out[2] is Print && out[2]->Print_1.len() == w - 2
            &&& forall|k: int| 0 <= k < w - 2 ==> out[2]->Print_1[k] == bx.borders.horizontal
            &&& out[3] == CommandView::Print(None, seq![bx.borders.upper_right])
            &&& out[4] == CommandView::MoveTo(bx.rect.x.0, bx.rect.y.1)
            &&& out[5] == CommandView::Print(None, seq![bx.borders.lower_left])
            &&& out[6] is Print && out[6]->Print_1.len() == w - 2
            &&& forall|k: int| 0 <= k < w - 2 ==> out[6]->Print_1[k] == bx.borders.horizontal
            &&& out[7] == CommandView::Print(None, seq![bx.borders.lower_right])
            &&& bx.rect.x.0 + 1 + (w - 2) + 1 == bx.rect.x.1 + 1
        }),
{
}

impl<'a> Box<'a> {
    /// Draw the box: only if it has an inner area (its size is at least 3 on both axes).
    pub fn draw(&self, out: &mut Vec<Command>)
        requires
            self.rect.spec_valid() ==> self.rect.width_fits(),
            self.rect.spec_valid() && self.rect.spec_width() >= 3 ==> self.rect.height_fits(),
        ensures
            views(final(out)@) == views(old(out)@) + spec_draw_box(*self),
    {
        let ghost before = views(out@);
        // Only draw if we have inner area, (rect size is >= 3)
        let inner_rect = match self.rect.inner_checked() {
            Some(inner_rect) => inner_rect,
            None => {
                assert(views(out@) =~= before + spec_draw_box(*self));
                return ;
            },
        };

        let horizontal = repeat_char(self.borders.horizontal, inner_rect.width() as usize);

        // Top border
        push_command(out, Command::MoveTo(self.rect.x.0, self.rect.y.0));
        push_print(out, None, char_to_string(self.borders.upper_left));
        push_print(out, None, horizontal.clone());
        push_print(out, None, char_to_string(self.borders.upper_right));

        // Bottom border
        push_command(out, Command::MoveTo(self.rect.x.0, self.rect.y.1));
        push_print(out, None, char_to_string(self.borders.lower_left));
        push_print(out, None, horizontal);
        push_print(out, None, char_to_string(self.borders.lower_right));
        let ghost top_bottom = views(out@);
        assert(top_bottom =~= before + spec_draw_box(*self).subrange(0, 8));

        // Left/Right borders
        let mut y: u16 = inner_rect.y.0;
        while y <= inner_rect.y.1
            invariant
                inner_rect == self.rect.spec_inner(),
                self.rect.has_inner(),
                inner_rect.y.0 <= y <= inner_rect.y.1 + 1,
                views(out@) == top_bottom + spec_side_borders(*self, inner_rect.y.0 as int, y - 1),
            decreases inner_rect.y.1 + 1 - y,
        {
            push_command(out, Command::MoveTo(self.rect.x.0, y));
            push_print(out, None, char_to_string(self.borders.vertical));
            push_command(out, Command::MoveRight(inner_rect.cols()));
            push_print(out, None, char_to_string(self.borders.vertical));
            assert(views(out@) =~= top_bottom + spec_side_borders(
                *self,
                inner_rect.y.0 as int,
                y as int,
            ));
            y = y + 1;
        }
        assert(views(out@) =~= before + spec_draw_box(*self));
    }
}

/// Border Chars
#[derive(Debug, Copy, Clone, PartialEq, Eq)]
pub struct BorderChars {
    pub upper_left: char,
    pub upper_right: char,
    pub lower_left: char,
    pub lower_right: char,
    pub horizontal: char,
    pub horizontal_up: char,
    pub horizontal_down: char,
    pub vertical: char,
    pub vertical_left: char,
    pub vertical_right: char,
}

impl BorderChars {
    /// The same characters as the window box borders of the same name.
    pub open spec fn same_as(self, other: crate::winbox::BorderChars) -> bool {
        &&& self.upper_left == other.upper_left
        &&& self.upper_right == other.upper_right
        &&& self.lower_left == other.lower_left
        &&& self.lower_right == other.lower_right
        &&& self.horizontal == other.horizontal
        &&& self.horizontal_up == other.horizontal_up
        &&& self.horizontal_down == other.horizontal_down
        &&& self.vertical == other.vertical
        &&& self.vertical_left == other.vertical_left
        &&& self.vertical_right == other.vertical_right
    }

    /// Single-line box drawing characters.
    pub fn simple() -> (r: Self)
        ensures
            r.same_as(crate::winbox::BorderChars::spec_simple()),
    {
        BorderChars {
            upper_left: '\u{250c}',
            upper_right: '\u{2510}',
            lower_left: '\u{2514}',
            lower_right: '\u{2518}',
            horizontal: '\u{2500}',
            horizontal_up: '\u{2534}',
            horizontal_down: '\u{252c}',
            vertical: '\u{2502}',
            vertical_left: '\u{2524}',
            vertical_right: '\u{251c}',
        }
    }

    /// Double-line box drawing characters.
    pub fn double() -> (r: Self)
        ensures
            r.same_as(crate::winbox::BorderChars::spec_double()),
    {
        BorderChars {
            upper_left: '\u{2554}',
            upper_right: '\u{2557}',
            lower_left: '\u{255a}',
            lower_right: '\u{255d}',
            horizontal: '\u{2550}',
            horizontal_up: '\u{2569}',
            horizontal_down: '\u{2566}',
            vertical: '\u{2551}',
            vertical_left: '\u{2563}',
            vertical_right: '\u{2560}',
        }
    }

    /// ASCII characters only.
    pub fn dashed() -> (r: Self)
        ensures
            r.same_as(crate::winbox::BorderChars::spec_dashed()),
    {
        BorderChars {
            upper_left: '+',
            upper_right: '+',
            lower_left: '+',
            lower_right: '+',
            horizontal: '-',
            horizontal_up: '+',
            horizontal_down: '+',
            vertical: '|',
            vertical_left: '<',
            vertical_right: '>',
        }
    }

    /// Single-line corners and joints with ASCII lines.
    pub fn simple_dashed() -> (r: Self)
        ensures
            r.same_as(crate::winbox::BorderChars::spec_simple_dashed()),
    {
        BorderChars {
            upper_left: '\u{250c}',
            upper_right: '\u{2510}',
            lower_left: '\u{2514}',
            lower_right: '\u{2518}',
            horizontal: '-',
            horizontal_up: '\u{2534}',
            horizontal_down: '\u{252c}',
            vertical: '|',
            vertical_left: '\u{2524}',
            vertical_right: '\u{251c}',
        }
    }
}

} // verus!
