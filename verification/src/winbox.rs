use crate::command::ExContentStyle;
use crate::layout::{HorizontalAlignment, HorizontalMargin};
use crossterm::style::ContentStyle;
use vstd::prelude::*;

verus! {

/// WinBox is a rect with borders, for drawing it to a terminal grid.
#[derive(Debug, Clone)]
pub struct WinBox {
    pub style: ContentStyle,
    pub borders: BorderChars,
    /// Order in the vector means priority.
    pub top_hints: Vec<BoxHint>,
    /// Order in the vector means priority.
    pub bottom_hints: Vec<BoxHint>,
}

/// Box hints can be used to add a title to the window box, or other status around the borders.
#[derive(Debug, Clone)]
pub struct BoxHint {
    pub content: String,
    pub style: ContentStyle,
    pub margin: HorizontalMargin,
    pub alignment: HorizontalAlignment,
}

/// Border Chars
#[derive(Debug, Clone, PartialEq, Eq)]
pub struct BorderChars {
    pub upper_left: char,
    pub upper_right: char,
    pub lower_left: char,
    pub lower_right: char,
    pub horizontal: char,
    pub horizontal_up: char,
    pub horizontal_down: char,
    pub vertical: char,
    pub vertical_left: char,
    pub vertical_right: char,
}

impl BorderChars {
    /// Single-line box drawing characters.
    pub open spec fn spec_simple() -> BorderChars {
        BorderChars {
            upper_left: '\u{250c}',
            upper_right: '\u{2510}',
            lower_left: '\u{2514}',
            lower_right: '\u{2518}',
            horizontal: '\u{2500}',
            horizontal_up: '\u{2534}',
            horizontal_down: '\u{252c}',
            vertical: '\u{2502}',
            vertical_left: '\u{2524}',
            vertical_right: '\u{251c}',
        }
    }

    /// Double-line box drawing characters.
    pub open spec fn spec_double() -> BorderChars {
        BorderChars {
            upper_left: '\u{2554}',
            upper_right: '\u{2557}',
            lower_left: '\u{255a}',
            lower_right: '\u{255d}',
            horizontal: '\u{2550}',
            horizontal_up: '\u{2569}',
            horizontal_down: '\u{2566}',
            vertical: '\u{2551}',
            vertical_left: '\u{2563}',
            vertical_right: '\u{2560}',
        }
    }

    /// ASCII characters only.
    pub open spec fn spec_dashed() -> BorderChars {
        BorderChars {
            upper_left: '+',
            upper_right: '+',
            lower_left: '+',
            lower_right: '+',
            horizontal: '-',
            horizontal_up: '+',
            horizontal_down: '+',
            vertical: '|',
            vertical_left: '<',
            vertical_right: '>',
        }
    }

    /// Single-line corners and joints with ASCII lines.
    pub open spec fn spec_simple_dashed() -> BorderChars {
        BorderChars {
            upper_left: '\u{250c}',
            upper_right: '\u{2510}',
            lower_left: '\u{2514}',
            lower_right: '\u{2518}',
            horizontal: '-',
            horizontal_up: '\u{2534}',
            horizontal_down: '\u{252c}',
            vertical: '|',
            vertical_left: '\u{2524}',
            vertical_right: '\u{251c}',
        }
    }

    pub fn simple() -> (r: Self)
        ensures
            r == BorderChars::spec_simple(),
    {
        BorderChars {
            upper_left: '\u{250c}',
            upper_right: '\u{2510}',
            lower_left: '\u{2514}',
            lower_right: '\u{2518}',
            horizontal: '\u{2500}',
            horizontal_up: '\u{2534}',
            horizontal_down: '\u{252c}',
            vertical: '\u{2502}',
            vertical_left: '\u{2524}',
            vertical_right: '\u{251c}',
        }
    }

    pub fn double() -> (r: Self)
        ensures
            r == BorderChars::spec_double(),
    {
        BorderChars {
            upper_left: '\u{2554}',
            upper_right: '\u{2557}',
            lower_left: '\u{255a}',
            lower_right: '\u{255d}',
            horizontal: '\u{2550}',
            horizontal_up: '\u{2569}',
            horizontal_down: '\u{2566}',
            vertical: '\u{2551}',
            vertical_left: '\u{2563}',
            vertical_right: '\u{2560}',
        }
    }

    pub fn dashed() -> (r: Self)
        ensures
            r == BorderChars::spec_dashed(),
    {
        BorderChars {
            upper_left: '+',
            upper_right: '+',
            lower_left: '+',
            lower_right: '+',
            horizontal: '-',
            horizontal_up: '+',
            horizontal_down: '+',
            vertical: '|',
            vertical_left: '<',
            vertical_right: '>',
        }
    }

    pub fn simple_dashed() -> (r: Self)
        ensures
            r == BorderChars::spec_simple_dashed(),
    {
        BorderChars {
            upper_left: '\u{250c}',
            upper_right: '\u{2510}',
            lower_left: '\u{2514}',
            lower_right: '\u{2518}',
            horizontal: '-',
            horizontal_up: '\u{2534}',
            horizontal_down: '\u{252c}',
            vertical: '|',
            vertical_left: '\u{2524}',
            vertical_right: '\u{251c}',
        }
    }
}

} // verus!
