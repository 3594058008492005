//! The decisions of the terminal user interface: what an input event does, and how the
//! windows follow a resized terminal.
use crate::rect::Rect;
use crate::term::{TermProps, TermUSize};
use vstd::prelude::*;

verus! {

/// The key of a key press, as far as the browser tells keys apart.
#[derive(Debug, Clone, Copy, PartialEq, Eq, Structural)]
pub enum KeyInput {
    /// A character key.
    Char(char),
    /// Any other key.
    Other,
}

/// An input event of the terminal.
#[derive(Debug, Clone, Copy, PartialEq, Eq, Structural)]
pub enum UiEvent {
    /// A key press, with whether no modifier key was held.
    Key { code: KeyInput, no_modifiers: bool },
    /// Any mouse event.
    Mouse,
    /// The terminal was resized to (columns, rows).
    Resize(TermUSize, TermUSize),
}

/// What the event loop does for an event.
#[derive(Debug, Clone, Copy, PartialEq, Eq, Structural)]
pub enum EventAction {
    /// Leave the browser.
    Quit,
    /// Open the window of the selected change; the loop ends when one was opened.
    OpenChangeWindow,
    /// Resize the windows to the new terminal size, then draw again.
    Resize(TermUSize, TermUSize),
    /// Wait for the next event.
    Wait,
}

/// The action of an event: `q` quits and `l` opens the change window, both without
/// modifier keys; a resize resizes; anything else waits for the next event.
pub open spec fn spec_event_action(event: UiEvent) -> EventAction {
    match event {
        UiEvent::Key { code, no_modifiers } => if no_modifiers {
            match code {
                KeyInput::Char(c) => if c == 'q' {
                    EventAction::Quit
                } else if c == 'l' {
                    EventAction::OpenChangeWindow
                } else {
                    EventAction::Wait
                },
                KeyInput::Other => EventAction::Wait,
            }
        } else {
            EventAction::Wait
        },
        UiEvent::Mouse => EventAction::Wait,
        UiEvent::Resize(cols, rows) => EventAction::Resize(cols, rows),
    }
}

/// Decide what the event loop does for one event.
pub fn event_action(event: &UiEvent) -> (a: EventAction)
    ensures
        a == spec_event_action(*event),
{
    match event {
        UiEvent::Key { code, no_modifiers } => {
            if *no_modifiers {
                match code {
                    KeyInput::Char(c) => {
                        if *c == 'q' {
                            EventAction::Quit
                        } else if *c == 'l' {
                            EventAction::OpenChangeWindow
                        } else {
                            EventAction::Wait
                        }
                    },
                    KeyInput::Other => EventAction::Wait,
                }
            } else {
                EventAction::Wait
            }
        },
        UiEvent::Mouse => EventAction::Wait,
        UiEvent::Resize(cols, rows) => EventAction::Resize(*cols, *rows),
    }
}

/// The terminal has at least one column and one row to draw on.
pub open spec fn spec_canvas_drawable(term: TermProps) -> bool {
    term.width >= 1 && term.height >= 1
}

/// Whether anything can be drawn on the terminal.
pub fn is_canvas_drawable(term: &TermProps) -> (b: bool)
    ensures
        b == spec_canvas_drawable(*term),
{
    term.width >= 1 && term.height >= 1
}

/// Record the new terminal size, and give the rectangle that every window takes now: the
/// whole terminal, or `None` when the terminal has no room to draw on (the windows keep
/// their rectangles then).
pub fn resize(term: &mut TermProps, cols: TermUSize, rows: TermUSize) -> (r: Option<Rect>)
    ensures
        final(term).width == cols,
        final(term).height == rows,
        r == (if spec_canvas_drawable(*final(term)) {
            Some(Rect::spec_from_size((0, 0), (cols, rows)))
        } else {
            None
        }),
{
    term.width = cols;
    term.height = rows;
    if !is_canvas_drawable(term) {
        return None;
    }
    Some(Rect::from_size_unchecked((0, 0), (cols, rows)))
}

/// After a resize to a size with room to draw on, the windows cover the terminal
/// exactly: from its top-left corner, as many columns and rows as it has.
pub proof fn law_resize_fills_terminal(cols: TermUSize, rows: TermUSize)
    requires
        cols >= 1,
        rows >= 1,
    ensures
        Rect::spec_from_size((0, 0), (cols, rows)).spec_valid(),
        Rect::spec_from_size((0, 0), (cols, rows)).x.0 == 0,
        Rect::spec_from_size((0, 0), (cols, rows)).y.0 == 0,
        Rect::spec_from_size((0, 0), (cols, rows)).spec_width() == cols,
        Rect::spec_from_size((0, 0), (cols, rows)).spec_height() == rows,
{
    crate::rect::law_from_size_dimensions((0, 0), (cols, rows));
}

} // verus!
