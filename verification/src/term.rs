use vstd::prelude::*;

verus! {

/// Terminal size and coordinate unit (columns or rows).
pub type TermUSize = u16;

/// Terminal properties kept in the UI context.
#[derive(Debug, Clone, Copy, Default, PartialEq, Eq)]
pub struct TermProps {
    pub width: TermUSize,
    pub height: TermUSize,
}

} // verus!
