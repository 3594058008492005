use vstd::prelude::*;

verus! {

/// How line numbers of a table are counted.
#[derive(Debug, Clone, Copy, Eq, PartialEq, Structural)]
pub enum LineNumberMode {
    Normal,
    /// Relative to the cursor (the selected row).
    Relative,
}

#[derive(Debug, Clone, Copy, Eq, PartialEq, Structural)]
pub enum HorizontalAlignment {
    Left,
    Center,
    Right,
}

impl Default for HorizontalAlignment {
    fn default() -> (r: Self)
        ensures
            r == HorizontalAlignment::Left,
    {
        Self::Left
    }
}

#[derive(Default, Debug, Clone, Copy, PartialEq)]
pub struct Margin {
    top: usize,
    left: usize,
    right: usize,
    bottom: usize,
}

#[derive(Default, Debug, Clone, Copy, PartialEq)]
pub struct VerticalMargin {
    top: usize,
    bottom: usize,
}

#[derive(Default, Debug, Clone, Copy, PartialEq)]
pub struct HorizontalMargin {
    pub left: usize,
    pub right: usize,
}

} // verus!
