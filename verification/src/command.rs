//! Terminal commands that the drawing functions produce.
use crossterm::style::ContentStyle;
use vstd::prelude::*;

verus! {

/// The style of crossterm (colors and attributes), carried through unchanged.
#[verifier::external_type_specification]
#[verifier::external_body]
pub struct ExContentStyle(ContentStyle);

/// `Clone::clone` of crossterm's `ContentStyle`, which derives `Copy` and `Clone`:
/// the clone equals the style cloned.
pub assume_specification[ <ContentStyle as Clone>::clone ](style: &ContentStyle) -> (r:
    ContentStyle)
    ensures
        r == *style,
;

/// One terminal command, in the order in which it is to be queued.
///
/// Coordinates are 0-based, except the column of `MoveToColumn`, which begins on one.
#[derive(Debug, Clone, PartialEq)]
pub enum Command {
    /// Move the cursor to (column, row).
    MoveTo(u16, u16),
    /// Move the cursor down by some rows.
    MoveDown(u16),
    /// Move the cursor right by some columns.
    MoveRight(u16),
    /// Move the cursor to a column of the current row, beginning on one.
    MoveToColumn(u16),
    /// Move the cursor to the beginning of a following row.
    MoveToNextLine(u16),
    /// Print text at the cursor, with a style, or without one (the default style).
    Print(Option<ContentStyle>, String),
}

/// What a command does, with the printed text as characters.
pub enum CommandView {
    MoveTo(u16, u16),
    MoveDown(u16),
    MoveRight(u16),
    MoveToColumn(u16),
    MoveToNextLine(u16),
    Print(Option<ContentStyle>, Seq<char>),
}

impl View for Command {
    type V = CommandView;

    open spec fn view(&self) -> CommandView {
        match self {
            Command::MoveTo(x, y) => CommandView::MoveTo(*x, *y),
            Command::MoveDown(n) => CommandView::MoveDown(*n),
            Command::MoveRight(n) => CommandView::MoveRight(*n),
            Command::MoveToColumn(n) => CommandView::MoveToColumn(*n),
            Command::MoveToNextLine(n) => CommandView::MoveToNextLine(*n),
            Command::Print(style, text) => CommandView::Print(*style, text@),
        }
    }
}

/// The commands of a buffer, as views.
pub open spec fn views(commands: Seq<Command>) -> Seq<CommandView> {
    commands.map_values(|c: Command| c@)
}

/// Append one command to a command buffer.
pub fn push_command(out: &mut Vec<Command>, command: Command)
    ensures
        views(final(out)@) == views(old(out)@).push(command@),
{
    let ghost before = out@;
    out.push(command);
    assert(views(out@) =~= views(before).push(command@));
}

/// Print `text` with `style` (the default style for `None`).
pub fn push_print(out: &mut Vec<Command>, style: Option<ContentStyle>, text: String)
    ensures
        views(final(out)@) == views(old(out)@).push(CommandView::Print(style, text@)),
{
    push_command(out, Command::Print(style, text));
}

} // verus!
