use num_traits::cast::ToPrimitive;
use vstd::prelude::*;

verus! {

/// Rect represents a rectangle on a terminal grid of columns and rows.
///
/// A valid rectangle has at least one column and one row.
///
/// Model is top to bottom, left to right; both ends are inclusive.
/// (x.0,y.0)    (x.1,y.0)
///     +-----------+
///     |           |
///     +-----------+
/// (x.0,y.1)    (x.1,y.1)
#[derive(Default, Debug, Copy, Clone, PartialEq, Eq)]
pub struct Rect {
    /// X (begin, end)
    pub x: (u16, u16),
    /// Y (begin, end)
    pub y: (u16, u16),
}

/// `ToPrimitive::to_u16` of num-traits on an `i32`: the same value when it lies in
/// `0..=u16::MAX`, and `None` otherwise (num-traits checks `0 <= v && v <= u16::MAX`).
#[verifier::external_body]
fn i32_to_u16(value: i32) -> (r: Option<u16>)
    ensures
        r == (if 0 <= value <= u16::MAX {
            Some(value as u16)
        } else {
            None::<u16>
        }),
{
    value.to_u16()
}

impl Rect {
    /// The rectangle at `pos` with `size` columns and rows.
    pub open spec fn spec_from_size(pos: (u16, u16), size: (u16, u16)) -> Rect {
        Rect {
            x: (pos.0, (pos.0 + size.0 - 1) as u16),
            y: (pos.1, (pos.1 + size.1 - 1) as u16),
        }
    }

    /// Both ends are in order on both axes.
    pub open spec fn spec_valid(self) -> bool {
        self.x.0 <= self.x.1 && self.y.0 <= self.y.1
    }

    pub open spec fn spec_width(self) -> int {
        self.x.1 - self.x.0 + 1
    }

    pub open spec fn spec_height(self) -> int {
        self.y.1 - self.y.0 + 1
    }

    /// `width()` returns without overflow.
    pub open spec fn width_fits(self) -> bool {
        self.x.0 <= self.x.1 && self.x.1 - self.x.0 < u16::MAX
    }

    /// `height()` returns without overflow.
    pub open spec fn height_fits(self) -> bool {
        self.y.0 <= self.y.1 && self.y.1 - self.y.0 < u16::MAX
    }

    /// The rectangle shrunk by one cell on each of its four sides.
    pub open spec fn spec_inner(self) -> Rect {
        Rect {
            x: ((self.x.0 + 1) as u16, (self.x.1 - 1) as u16),
            y: ((self.y.0 + 1) as u16, (self.y.1 - 1) as u16),
        }
    }

    /// The rectangle shrunk by one column on the left and on the right.
    pub open spec fn spec_inner_x(self) -> Rect {
        Rect { x: ((self.x.0 + 1) as u16, (self.x.1 - 1) as u16), y: self.y }
    }

    /// The rectangle grown by one cell on each of its four sides.
    pub open spec fn spec_outer(self) -> Rect {
        Rect {
            x: ((self.x.0 - 1) as u16, (self.x.1 + 1) as u16),
            y: ((self.y.0 - 1) as u16, (self.y.1 + 1) as u16),
        }
    }

    pub open spec fn spec_with_x0(self, x0: u16) -> Rect {
        Rect { x: (x0, self.x.1), y: self.y }
    }

    pub open spec fn spec_with_y0(self, y0: u16) -> Rect {
        Rect { x: self.x, y: (y0, self.y.1) }
    }

    /// `Some(r)` when `r` is valid, `None` otherwise.
    pub open spec fn spec_checked(r: Rect) -> Option<Rect> {
        if r.spec_valid() {
            Some(r)
        } else {
            None
        }
    }

    /// What `with_x0` gives for a begin column `x0` of any integer value.
    pub open spec fn spec_offset_x0(self, offset: int) -> Option<Rect> {
        let x0 = self.x.0 + offset;
        if 0 <= x0 <= u16::MAX {
            Rect::spec_checked(self.spec_with_x0(x0 as u16))
        } else {
            None
        }
    }

    pub open spec fn spec_offset_y0(self, offset: int) -> Option<Rect> {
        let y0 = self.y.0 + offset;
        if 0 <= y0 <= u16::MAX {
            Rect::spec_checked(self.spec_with_y0(y0 as u16))
        } else {
            None
        }
    }

    /// Number of columns that the left half takes: the larger half for an odd width.
    pub open spec fn spec_first_half(n: int) -> int {
        n / 2 + n % 2
    }

    /// The left and right halves of a rectangle of at least two columns.
    pub open spec fn spec_vsplit(self) -> (Rect, Rect) {
        let left_x1 = (self.x.0 + Rect::spec_first_half(self.spec_width()) - 1) as u16;
        (
            Rect { x: (self.x.0, left_x1), y: self.y },
            Rect { x: ((left_x1 + 1) as u16, self.x.1), y: self.y },
        )
    }

    /// The top and bottom halves of a rectangle of at least two rows.
    pub open spec fn spec_hsplit(self) -> (Rect, Rect) {
        let top_y1 = (self.y.0 + Rect::spec_first_half(self.spec_height()) - 1) as u16;
        (
            Rect { x: self.x, y: (self.y.0, top_y1) },
            Rect { x: self.x, y: ((top_y1 + 1) as u16, self.y.1) },
        )
    }

    /// Create from size.
    ///
    /// Checks that width and height are greater than zero.
    pub fn from_size(pos: (u16, u16), size: (u16, u16)) -> (r: Option<Self>)
        requires
            size.0 > 0 && size.1 > 0 ==> pos.0 + size.0 <= u16::MAX && pos.1 + size.1
                <= u16::MAX,
        ensures
            r == (if size.0 > 0 && size.1 > 0 {
                Some(Rect::spec_from_size(pos, size))
            } else {
                None
            }),
    {
        if size.0 > 0 && size.1 > 0 {
            Some(Self::from_size_unchecked(pos, size))
        } else {
            None
        }
    }

    /// Create from size.
    ///
    /// Assumes width and height are greater than zero.
    /// If unsure, call the "checked" function.
    pub fn from_size_unchecked(pos: (u16, u16), size: (u16, u16)) -> (r: Self)
        requires
            1 <= pos.0 + size.0 <= u16::MAX,
            1 <= pos.1 + size.1 <= u16::MAX,
        ensures
            r == Rect::spec_from_size(pos, size),
    {
        let (x, y) = pos;
        let (width, height) = size;
        Self { x: (x, x + width - 1), y: (y, y + height - 1) }
    }

    /// Get width or number of columns
    pub fn width(&self) -> (w: u16)
        requires
            self.width_fits(),
        ensures
            w == self.spec_width(),
    {
        self.x.1 - self.x.0 + 1
    }

    /// Get height or number of rows
    pub fn height(&self) -> (h: u16)
        requires
            self.height_fits(),
        ensures
            h == self.spec_height(),
    {
        self.y.1 - self.y.0 + 1
    }

    /// Get width or number of columns
    pub fn cols(&self) -> (w: u16)
        requires
            self.width_fits(),
        ensures
            w == self.spec_width(),
    {
        self.width()
    }

    /// Get height or number of rows
    pub fn rows(&self) -> (h: u16)
        requires
            self.height_fits(),
        ensures
            h == self.spec_height(),
    {
        self.height()
    }

    /// Return an inner Rect.
    ///
    /// Checks that the inner rectangle will be valid.
    pub fn inner(&self) -> (r: Option<Self>)
        requires
            self.spec_valid() ==> self.width_fits(),
            self.spec_valid() && self.spec_width() >= 3 ==> self.height_fits(),
        ensures
            r == (if self.spec_valid() && self.spec_width() >= 3 && self.spec_height() >= 3 {
                Some(self.spec_inner())
            } else {
                None
            }),
    {
        if !self.valid() || self.width() < 3 || self.height() < 3 {
            None
        } else {
            Some(self.inner_unchecked())
        }
    }

    /// Return an inner Rect.
    ///
    /// It is assumed current width and height are at least 3.
    /// If unsure, use the "checked" version.
    pub fn inner_unchecked(&self) -> (r: Self)
        requires
            self.x.0 < u16::MAX,
            self.x.1 > 0,
            self.y.0 < u16::MAX,
            self.y.1 > 0,
        ensures
            r == self.spec_inner(),
    {
        Self { x: (self.x.0 + 1, self.x.1 - 1), y: (self.y.0 + 1, self.y.1 - 1) }
    }

    /// Return an inner X axis Rect.
    ///
    /// Checks that the inner rectangle will be valid.
    pub fn inner_x(&self) -> (r: Option<Self>)
        requires
            self.spec_valid() ==> self.width_fits(),
        ensures
            r == (if self.spec_valid() && self.spec_width() >= 3 {
                Some(self.spec_inner_x())
            } else {
                None
            }),
    {
        if !self.valid() || self.width() < 3 {
            None
        } else {
            Some(self.inner_x_unchecked())
        }
    }

    /// Return an inner X axis Rect.
    ///
    /// It is assumed current width is at least 3.
    /// If unsure, use the "checked" version.
    pub fn inner_x_unchecked(&self) -> (r: Self)
        requires
            self.x.0 < u16::MAX,
            self.x.1 > 0,
        ensures
            r == self.spec_inner_x(),
    {
        Self { x: (self.x.0 + 1, self.x.1 - 1), y: self.y }
    }

    /// Return an outer Rect.
    ///
    /// Checks that the outer rectangle will be valid.
    pub fn outer(&self) -> (r: Option<Self>)
        ensures
            r == (if self.spec_valid() && self.x.0 != 0 && self.y.0 != 0 && self.x.1 < u16::MAX
                && self.y.1 < u16::MAX {
                Some(self.spec_outer())
            } else {
                None
            }),
    {
        if !self.valid() || self.x.0 == 0 || self.y.0 == 0 || self.x.1 == u16::MAX || self.y.1
            == u16::MAX {
            None
        } else {
            Some(self.outer_unchecked())
        }
    }

    /// Return an outer Rect.
    ///
    /// It is assumed current x0 and y0 are not at origin (0,0) but offset by at least 1.
    /// If unsure, use the "checked" version.
    pub fn outer_unchecked(&self) -> (r: Self)
        requires
            self.x.0 > 0,
            self.y.0 > 0,
            self.x.1 < u16::MAX,
            self.y.1 < u16::MAX,
        ensures
            r == self.spec_outer(),
    {
        Self { x: (self.x.0 - 1, self.x.1 + 1), y: (self.y.0 - 1, self.y.1 + 1) }
    }

    /// Return itself if Rect is still valid, otherwise consume itself and return None.
    pub fn checked(self) -> (r: Option<Self>)
        ensures
            r == Rect::spec_checked(self),
    {
        if self.valid() {
            Some(self)
        } else {
            None
        }
    }

    /// Check if Self is a valid Rect.
    pub fn valid(&self) -> (b: bool)
        ensures
            b == self.spec_valid(),
    {
        self.x.0 <= self.x.1 && self.y.0 <= self.y.1
    }

    /// Check if Self is an invalid Rect.
    pub fn invalid(&self) -> (b: bool)
        ensures
            b == !self.spec_valid(),
    {
        self.x.0 > self.x.1 || self.y.0 > self.y.1
    }

    /// Get Rect with new x.0 value.
    ///
    /// Checks that the new rectangle will be valid.
    pub fn with_x0(&self, x0: u16) -> (r: Option<Self>)
        ensures
            r == Rect::spec_checked(self.spec_with_x0(x0)),
    {
        self.with_x0_unchecked(x0).checked()
    }

    /// Get Rect with new x.0 value.
    ///
    /// It is assumed current the new x0 value keeps the rectangle valid.
    /// If unsure, use the "checked" version.
    pub fn with_x0_unchecked(&self, x0: u16) -> (r: Self)
        ensures
            r == self.spec_with_x0(x0),
    {
        Self { x: (x0, self.x.1), y: self.y }
    }

    /// Get Rect with new y.0 value.
    ///
    /// Checks that the new rectangle will be valid.
    pub fn with_y0(&self, y0: u16) -> (r: Option<Self>)
        ensures
            r == Rect::spec_checked(self.spec_with_y0(y0)),
    {
        self.with_y0_unchecked(y0).checked()
    }

    /// Get Rect with new y.0 value.
    ///
    /// It is assumed current the new y0 value keeps the rectangle valid.
    /// If unsure, use the "checked" version.
    pub fn with_y0_unchecked(&self, y0: u16) -> (r: Self)
        ensures
            r == self.spec_with_y0(y0),
    {
        Self { x: self.x, y: (y0, self.y.1) }
    }

    /// Offset the y.0 value.
    ///
    /// Checks that the offset rectangle will be valid.
    pub fn offset_y0(&self, offset: i16) -> (r: Option<Self>)
        ensures
            r == self.spec_offset_y0(offset as int),
    {
        let y0: i32 = self.y.0 as i32 + offset as i32;
        match i32_to_u16(y0) {
            Some(y0) => self.with_y0_unchecked(y0).checked(),
            None => None,
        }
    }

    /// Offset the y.0 value.
    ///
    /// It is assumed current the offset value is within the y0 offset range.
    /// If unsure, use the "checked" version.
    /// Out of that range the begin row wraps around as `as u16` does.
    pub fn offset_y0_unchecked(&self, offset: i16) -> (r: Self)
        ensures
            r == self.spec_with_y0((self.y.0 + offset) as u16),
    {
        let y0: i32 = self.y.0 as i32 + offset as i32;
        self.with_y0_unchecked(y0 as u16)
    }

    /// Offset the x.0 value.
    ///
    /// Checks that the offset rectangle will be valid.
    pub fn offset_x0(&self, offset: i16) -> (r: Option<Self>)
        ensures
            r == self.spec_offset_x0(offset as int),
    {
        let x0: i32 = self.x.0 as i32 + offset as i32;
        match i32_to_u16(x0) {
            Some(x0) => self.with_x0_unchecked(x0).checked(),
            None => None,
        }
    }

    /// Offset the x.0 value.
    ///
    /// It is assumed current the offset value is within the x0 offset range.
    /// If unsure, use the "checked" version.
    /// Out of that range the begin column wraps around as `as u16` does.
    pub fn offset_x0_unchecked(&self, offset: i16) -> (r: Self)
        ensures
            r == self.spec_with_x0((self.x.0 + offset) as u16),
    {
        let x0: i32 = self.x.0 as i32 + offset as i32;
        self.with_x0_unchecked(x0 as u16)
    }

    /// Vertically split current Rect into two.
    ///
    /// In case the current width is odd, the left Rect takes the larger width.
    pub fn vsplit(self) -> (r: Option<(Rect, Rect)>)
        requires
            self.spec_valid() ==> self.width_fits(),
        ensures
            r == (if self.spec_valid() && self.spec_width() >= 2 {
                Some(self.spec_vsplit())
            } else {
                None
            }),
    {
        if self.invalid() || self.width() < 2 {
            return None;
        }
        let width = self.width();
        let left = Rect { x: (self.x.0, self.x.0 + (width / 2 + width % 2) - 1), y: self.y };
        let right = Rect { x: (left.x.1 + 1, self.x.1), y: self.y };
        Some((left, right))
    }

    /// Horizontally split current Rect into two.
    ///
    /// In case the current height is odd, the first/top Rect takes the larger height.
    pub fn hsplit(self) -> (r: Option<(Rect, Rect)>)
        requires
            self.spec_valid() ==> self.height_fits(),
        ensures
            r == (if self.spec_valid() && self.spec_height() >= 2 {
                Some(self.spec_hsplit())
            } else {
                None
            }),
    {
        if self.invalid() || self.height() < 2 {
            return None;
        }
        let height = self.height();
        let top = Rect { x: self.x, y: (self.y.0, self.y.0 + (height / 2 + height % 2) - 1) };
        let bottom = Rect { x: self.x, y: (top.y.1 + 1, self.y.1) };
        Some((top, bottom))
    }
}

/// A rectangle made from a position and a positive size has that position as its
/// top-left corner and exactly that many columns and rows.
pub proof fn law_from_size_dimensions(pos: (u16, u16), size: (u16, u16))
    requires
        size.0 > 0,
        size.1 > 0,
        pos.0 + size.0 <= u16::MAX,
        pos.1 + size.1 <= u16::MAX,
    ensures
        Rect::spec_from_size(pos, size).spec_valid(),
        Rect::spec_from_size(pos, size).x.0 == pos.0,
        Rect::spec_from_size(pos, size).y.0 == pos.1,
        Rect::spec_from_size(pos, size).spec_width() == size.0,
        Rect::spec_from_size(pos, size).spec_height() == size.1,
{
}

/// Growing the inner rectangle of a rectangle gives the rectangle back, and the inner
/// rectangle is two columns narrower and two rows shorter.
pub proof fn law_outer_of_inner(r: Rect)
    requires
        r.spec_valid(),
        r.spec_width() >= 3,
        r.spec_height() >= 3,
    ensures
        r.spec_inner().spec_valid(),
        r.spec_inner().x.0 != 0 && r.spec_inner().y.0 != 0,
        r.spec_inner().spec_width() == r.spec_width() - 2,
        r.spec_inner().spec_height() == r.spec_height() - 2,
        r.spec_inner().spec_outer() == r,
{
}

/// Shrinking the outer rectangle of a rectangle gives the rectangle back.
pub proof fn law_inner_of_outer(r: Rect)
    requires
        r.spec_valid(),
        r.x.0 != 0,
        r.y.0 != 0,
        r.x.1 < u16::MAX,
        r.y.1 < u16::MAX,
    ensures
        r.spec_outer().spec_valid(),
        r.spec_outer().spec_width() == r.spec_width() + 2,
        r.spec_outer().spec_height() == r.spec_height() + 2,
        r.spec_outer().spec_inner() == r,
{
}

/// A vertical split cuts a rectangle into two valid rectangles side by side that
/// together cover exactly its columns, the left one taking the larger half.
pub proof fn law_vsplit_partitions(r: Rect)
    requires
        r.spec_valid(),
        r.spec_width() >= 2,
    ensures
        ({
            let (left, right) = r.spec_vsplit();
            &&& left.spec_valid() && right.spec_valid()
            &&& left.x.0 == r.x.0 && right.x.1 == r.x.1
            &&& left.x.1 + 1 == right.x.0
            &&& left.y == r.y && right.y == r.y
            &&& left.spec_width() + right.spec_width() == r.spec_width()
            &&& left.spec_width() == right.spec_width() || left.spec_width() == right.spec_width() + 1
        }),
{
}

/// A horizontal split cuts a rectangle into two valid rectangles one above the other
/// that together cover exactly its rows, the top one taking the larger half.
pub proof fn law_hsplit_partitions(r: Rect)
    requires
        r.spec_valid(),
        r.spec_height() >= 2,
    ensures
        ({
            let (top, bottom) = r.spec_hsplit();
            &&& top.spec_valid() && bottom.spec_valid()
            &&& top.y.0 == r.y.0 && bottom.y.1 == r.y.1
            &&& top.y.1 + 1 == bottom.y.0
            &&& top.x == r.x && bottom.x == r.x
            &&& top.spec_height() + bottom.spec_height() == r.spec_height()
            &&& top.spec_height() == bottom.spec_height() || top.spec_height()
                == bottom.spec_height() + 1
        }),
{
}

/// Offsetting the begin row of a valid rectangle and then offsetting it back by the
/// opposite amount gives the rectangle back.
pub proof fn law_offset_y0_undone(r: Rect, offset: int)
    requires
        r.spec_valid(),
    ensures
        r.spec_offset_y0(offset) matches Some(moved) ==> moved.spec_offset_y0(-offset) == Some(r),
{
}

/// Offsetting the begin column of a valid rectangle and then offsetting it back by the
/// opposite amount gives the rectangle back.
pub proof fn law_offset_x0_undone(r: Rect, offset: int)
    requires
        r.spec_valid(),
    ensures
        r.spec_offset_x0(offset) matches Some(moved) ==> moved.spec_offset_x0(-offset) == Some(r),
{
}

} // verus!
