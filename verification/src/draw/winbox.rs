use crate::command::{push_command, push_print, views, Command, CommandView, ExContentStyle};
use crate::draw::{cuts_cleanly, format_strip_align, spec_strip_align, strip_align_cuts_cleanly};
use crate::layout::HorizontalAlignment;
use crate::rect::Rect;
use crate::term::TermUSize;
use crate::text::{byte_len, char_to_string, repeat_char, repeated};
use crate::winbox::{BoxHint, WinBox};
use vstd::prelude::*;

verus! {

/// Border brackets around a hint take these many columns (one on each side).
pub open spec fn brackets_width() -> int {
    2
}

/// Columns of margin around a hint.
pub open spec fn margins(hint: BoxHint) -> int {
    hint.margin.left + hint.margin.right
}

/// The content widths that the hints from index `i` on get, once `used` columns of
/// `width` are taken: each hint takes its content (up to what is left) plus brackets and
/// margins; the first hint that does not find room for brackets, margins and one column
/// ends the list. `None` when adding up the margins of a hint overflows.
pub open spec fn spec_hint_widths_from(width: int, hints: Seq<BoxHint>, i: int, used: int) -> Option<
    Seq<usize>,
>
    decreases hints.len() - i,
{
    if i < 0 || i >= hints.len() {
        Some(Seq::empty())
    } else {
        let hint = hints[i];
        let m = margins(hint);
        if m + brackets_width() + 1 > usize::MAX {
            None
        } else if width - used < m + brackets_width() + 1 {
            Some(Seq::empty())
        } else {
            let available = width - used - brackets_width() - m;
            let content = byte_len(hint.content@) as int;
            let cw = if content < available {
                content
            } else {
                available
            };
            match spec_hint_widths_from(width, hints, i + 1, used + cw + brackets_width() + m) {
                Some(rest) => Some(seq![cw as usize] + rest),
                None => None,
            }
        }
    }
}

/// The content widths of the hints that fit in `width` columns.
pub open spec fn spec_hint_widths(width: int, hints: Seq<BoxHint>) -> Option<Seq<usize>> {
    spec_hint_widths_from(width, hints, 0, 0)
}

/// Columns taken by the first `k` hints with the given alignment.
pub open spec fn used_by(
    hints: Seq<BoxHint>,
    widths: Seq<usize>,
    k: int,
    alignment: HorizontalAlignment,
) -> int
    decreases k,
{
    if k <= 0 {
        0
    } else {
        used_by(hints, widths, k - 1, alignment) + if hints[k - 1].alignment == alignment {
            widths[k - 1] + brackets_width() + margins(hints[k - 1])
        } else {
            0
        }
    }
}

/// Columns taken by the first `k` hints, whatever their alignment.
pub open spec fn used_total(hints: Seq<BoxHint>, widths: Seq<usize>, k: int) -> int {
    used_by(hints, widths, k, HorizontalAlignment::Left) + used_by(
        hints,
        widths,
        k,
        HorizontalAlignment::Right,
    ) + used_by(hints, widths, k, HorizontalAlignment::Center)
}

/// `t / 2` rounded to the nearest integer, halves away from zero, and negative results
/// taken as zero: the column of a position counted in half columns.
pub open spec fn round_half(t: int) -> int {
    if t < 0 {
        0
    } else {
        (t + 1) / 2
    }
}

pub open spec fn max0(v: int) -> int {
    if v < 0 {
        0
    } else {
        v
    }
}

/// The column where hint `i` begins (its left bracket), before it is taken as a `u16`.
/// Left hints follow each other from the left end, right hints from the right end, and
/// center hints together are centered in the row, pushed aside where the left or right
/// hints reach over the center. `None` when the computation goes below zero.
pub open spec fn spec_hint_x(rect: Rect, hints: Seq<BoxHint>, widths: Seq<usize>, i: int) -> Option<
    int,
> {
    let hint = hints[i];
    let cw = widths[i] as int;
    match hint.alignment {
        HorizontalAlignment::Left => Some(
            rect.x.0 + used_by(hints, widths, i, HorizontalAlignment::Left) + hint.margin.left,
        ),
        HorizontalAlignment::Right => {
            let x = rect.x.1 + 1 - used_by(hints, widths, i, HorizontalAlignment::Right) - cw
                - brackets_width() - hint.margin.right;
            if x < 0 {
                None
            } else {
                Some(x)
            }
        },
        HorizontalAlignment::Center => {
            let w = rect.spec_width();
            let n = widths.len() as int;
            let total_center = used_by(hints, widths, n, HorizontalAlignment::Center);
            let total_left = used_by(hints, widths, n, HorizontalAlignment::Left);
            let total_right = used_by(hints, widths, n, HorizontalAlignment::Right);
            let ceil_half2 = 2 * ((total_center + 1) / 2);
            let x_pos = rect.x.0 + round_half(
                w - ceil_half2 + 2 * used_by(hints, widths, i, HorizontalAlignment::Center),
            ) + hint.margin.left;
            let center_x0 = rect.x.0 + round_half(w - ceil_half2);
            let center_x1 = rect.x.1 - round_half(w + total_center);
            let left_shift = max0(rect.x.0 + total_left - center_x0);
            let right_x0 = rect.x.1 - total_right;
            let right_shift = max0(center_x1 - right_x0);
            if center_x1 < 0 || right_x0 < 0 || x_pos + left_shift - right_shift < 0 {
                None
            } else {
                Some(x_pos + left_shift - right_shift)
            }
        },
    }
}

/// The hints of `hints` that fit can all be placed: their positions do not go below zero
/// and their contents are cut on character boundaries.
pub open spec fn hints_placeable(rect: Rect, hints: Seq<BoxHint>) -> bool {
    &&& rect.width_fits()
    &&& spec_hint_widths(rect.spec_width(), hints) is Some
    &&& forall|i: int|
        0 <= i < spec_hint_widths(rect.spec_width(), hints)->0.len() ==> {
            &&& (#[trigger] spec_hint_x(rect, hints, spec_hint_widths(rect.spec_width(), hints)->0, i))
                is Some
            &&& strip_align_cuts_cleanly(
                hints[i].content@,
                spec_hint_widths(rect.spec_width(), hints)->0[i] as nat,
            )
        }
}

/// The commands that draw hint `i` in row `y`: left bracket, content, right bracket.
pub open spec fn spec_hint_commands(
    winbox: WinBox,
    hint: BoxHint,
    x: int,
    y: u16,
    width: usize,
) -> Seq<CommandView> {
    seq![
        CommandView::MoveTo(x as u16, y),
        CommandView::Print(Some(winbox.style), seq![winbox.borders.vertical_left]),
        CommandView::Print(
            Some(hint.style),
            spec_strip_align(hint.content@, width as nat, HorizontalAlignment::Left),
        ),
        CommandView::Print(Some(winbox.style), seq![winbox.borders.vertical_right]),
    ]
}

/// The commands that draw the first `k` hints that fit.
pub open spec fn spec_hints_commands(
    winbox: WinBox,
    rect: Rect,
    hints: Seq<BoxHint>,
    widths: Seq<usize>,
    y: u16,
    k: int,
) -> Seq<CommandView>
    decreases k,
{
    if k <= 0 {
        Seq::empty()
    } else {
        spec_hints_commands(winbox, rect, hints, widths, y, k - 1) + spec_hint_commands(
            winbox,
            hints[k - 1],
            spec_hint_x(rect, hints, widths, k - 1)->0,
            y,
            widths[k - 1],
        )
    }
}

/// The commands that draw all the hints of `hints` that fit in `rect`, in row `y`.
pub open spec fn spec_boxhints_commands(
    winbox: WinBox,
    rect: Rect,
    hints: Seq<BoxHint>,
    y: u16,
) -> Seq<CommandView> {
    let widths = spec_hint_widths(rect.spec_width(), hints)->0;
    spec_hints_commands(winbox, rect, hints, widths, y, widths.len() as int)
}

/// The commands that draw the left and right borders of rows `from..=to`.
pub open spec fn spec_side_borders(winbox: WinBox, rect: Rect, from: int, to: int) -> Seq<
    CommandView,
>
    decreases to - from + 1,
{
    if to < from {
        Seq::empty()
    } else {
        spec_side_borders(winbox, rect, from, to - 1) + seq![
            CommandView::MoveTo(rect.x.0, to as u16),
            CommandView::Print(Some(winbox.style), seq![winbox.borders.vertical]),
            CommandView::MoveRight((rect.spec_width() - 2) as u16),
            CommandView::Print(Some(winbox.style), seq![winbox.borders.vertical]),
        ]
    }
}

/// A rectangle with room inside its borders.
pub open spec fn has_inner(rect: Rect) -> bool {
    rect.spec_valid() && rect.spec_width() >= 3 && rect.spec_height() >= 3
}

/// The commands that draw the four borders of a rectangle with room inside them.
pub open spec fn spec_borders(winbox: WinBox, rect: Rect) -> Seq<CommandView> {
    let horizontal = repeated(winbox.borders.horizontal, (rect.spec_width() - 2) as nat);
    seq![
        CommandView::MoveTo(rect.x.0, rect.y.0),
        CommandView::Print(Some(winbox.style), seq![winbox.borders.upper_left]),
        CommandView::Print(Some(winbox.style), horizontal),
        CommandView::Print(Some(winbox.style), seq![winbox.borders.upper_right]),
        CommandView::MoveTo(rect.x.0, rect.y.1),
        CommandView::Print(Some(winbox.style), seq![winbox.borders.lower_left]),
        CommandView::Print(Some(winbox.style), horizontal),
        CommandView::Print(Some(winbox.style), seq![winbox.borders.lower_right]),
    ] + spec_side_borders(winbox, rect, rect.y.0 + 1, rect.y.1 - 1)
}

/// The commands of a whole window box: the borders, then the top hints on the top border
/// row and the bottom hints on the bottom border row, placed within the columns inside
/// the side borders. Nothing is drawn for a rectangle without room inside.
pub open spec fn spec_draw_winbox(rect: Rect, winbox: WinBox) -> Seq<CommandView> {
    if has_inner(rect) {
        spec_borders(winbox, rect) + spec_boxhints_commands(
            winbox,
            rect.spec_inner_x(),
            winbox.top_hints@,
            rect.y.0,
        ) + spec_boxhints_commands(winbox, rect.spec_inner_x(), winbox.bottom_hints@, rect.y.1)
    } else {
        Seq::empty()
    }
}

/// `draw_winbox` can draw the box: its sizes fit and its hints can be placed.
pub open spec fn winbox_drawable(rect: Rect, winbox: WinBox) -> bool {
    &&& rect.spec_valid() ==> rect.width_fits()
    &&& rect.spec_valid() && rect.spec_width() >= 3 ==> rect.height_fits()
    &&& has_inner(rect) ==> hints_placeable(rect.spec_inner_x(), winbox.top_hints@)
        && hints_placeable(rect.spec_inner_x(), winbox.bottom_hints@)
}

/// Draw the Window Box widget in the Rect space.
///
/// It is the entrypoint function of this module.
pub fn draw_winbox(out: &mut Vec<Command>, args: (&Rect, &WinBox)) -> (r: Option<()>)
    requires
        winbox_drawable(*args.0, *args.1),
    ensures
        r is Some <==> has_inner(*args.0),
        views(final(out)@) == views(old(out)@) + spec_draw_winbox(*args.0, *args.1),
{
    let (rect, winbox) = args;
    let ghost before = views(out@);
    let r = draw_borders(out, (rect, winbox));
    if r.is_none() {
        assert(views(out@) =~= before + spec_draw_winbox(*rect, *winbox));
        return None;
    }
    let r = draw_hints(out, (rect, winbox));
    assert(views(out@) =~= before + spec_draw_winbox(*rect, *winbox));
    r
}

/// Basically, it just draws window borders around the Rect.
fn draw_borders(out: &mut Vec<Command>, args: (&Rect, &WinBox)) -> (r: Option<()>)
    requires
        args.0.spec_valid() ==> args.0.width_fits(),
        args.0.spec_valid() && args.0.spec_width() >= 3 ==> args.0.height_fits(),
    ensures
        r is Some <==> has_inner(*args.0),
        r is Some ==> views(final(out)@) == views(old(out)@) + spec_borders(*args.1, *args.0),
        r is None ==> views(final(out)@) == views(old(out)@),
{
    let (rect, winbox) = args;
    // Only draw if we have inner area, that is (rect size is >= 3)
    let inner = match rect.inner() {
        Some(inner) => inner,
        None => return None,
    };
    let ghost before = views(out@);

    // Horizontal character string
    let horizontal = repeat_char(winbox.borders.horizontal, inner.width() as usize);

    // Top border
    push_command(out, Command::MoveTo(rect.x.0, rect.y.0));
    push_print(out, Some(winbox.style), char_to_string(winbox.borders.upper_left));
    push_print(out, Some(winbox.style), horizontal.clone());
    push_print(out, Some(winbox.style), char_to_string(winbox.borders.upper_right));

    // Bottom border
    push_command(out, Command::MoveTo(rect.x.0, rect.y.1));
    push_print(out, Some(winbox.style), char_to_string(winbox.borders.lower_left));
    push_print(out, Some(winbox.style), horizontal);
    push_print(out, Some(winbox.style), char_to_string(winbox.borders.lower_right));
    let ghost top_bottom = views(out@);
    assert(top_bottom =~= before + spec_borders(*winbox, *rect).subrange(0, 8));

    // Left/Right borders
    let mut y: u16 = inner.y.0;
    while y <= inner.y.1
        invariant
            inner == rect.spec_inner(),
            has_inner(*rect),
            inner.y.0 <= y <= inner.y.1 + 1,
            views(out@) == top_bottom + spec_side_borders(*winbox, *rect, inner.y.0 as int, y - 1),
        decreases inner.y.1 + 1 - y,
    {
        push_command(out, Command::MoveTo(rect.x.0, y));
        push_print(out, Some(winbox.style), char_to_string(winbox.borders.vertical));
        push_command(out, Command::MoveRight(inner.cols()));
        push_print(out, Some(winbox.style), char_to_string(winbox.borders.vertical));
        assert(views(out@) =~= top_bottom + spec_side_borders(
            *winbox,
            *rect,
            inner.y.0 as int,
            y as int,
        ));
        y = y + 1;
    }
    assert(views(out@) =~= before + spec_borders(*winbox, *rect));

    // Successful draw
    Some(())
}

/// Draw the hints on the top and bottom borders.
fn draw_hints(out: &mut Vec<Command>, args: (&Rect, &WinBox)) -> (r: Option<()>)
    requires
        has_inner(*args.0),
        args.0.width_fits(),
        hints_placeable(args.0.spec_inner_x(), args.1.top_hints@),
        hints_placeable(args.0.spec_inner_x(), args.1.bottom_hints@),
    ensures
        r is Some,
        views(final(out)@) == views(old(out)@) + spec_boxhints_commands(
            *args.1,
            args.0.spec_inner_x(),
            args.1.top_hints@,
            args.0.y.0,
        ) + spec_boxhints_commands(
            *args.1,
            args.0.spec_inner_x(),
            args.1.bottom_hints@,
            args.0.y.1,
        ),
{
    let (rect, winbox) = args;
    let ghost before = views(out@);
    let inner_x = match rect.inner_x() {
        Some(inner_x) => inner_x,
        None => return None,
    };
    foreach_boxhint_compute_and_draw(out, winbox, &inner_x, &winbox.top_hints, rect.y.0);
    foreach_boxhint_compute_and_draw(out, winbox, &inner_x, &winbox.bottom_hints, rect.y.1);
    assert(views(out@) =~= before + spec_boxhints_commands(
        *winbox,
        rect.spec_inner_x(),
        winbox.top_hints@,
        rect.y.0,
    ) + spec_boxhints_commands(*winbox, rect.spec_inner_x(), winbox.bottom_hints@, rect.y.1));
    Some(())
}

/// Traverse the boxhints vector, compute where each hint goes and draw it.
///
/// For each boxhint the available width is calculated and the hint is drawn there.
/// When there is no more room in the screen, stop drawing.
pub fn foreach_boxhint_compute_and_draw(
    out: &mut Vec<Command>,
    winbox: &WinBox,
    rect: &Rect,
    boxhints: &Vec<BoxHint>,
    y_pos: TermUSize,
)
    requires
        hints_placeable(*rect, boxhints@),
    ensures
        views(final(out)@) == views(old(out)@) + spec_boxhints_commands(
            *winbox,
            *rect,
            boxhints@,
            y_pos,
        ),
{
    let ghost before = views(out@);
    let (hint_content_widths, total_left_width, total_right_width, total_center_width) =
        compute_boxhint_widths(rect, boxhints);
    let ghost widths = hint_content_widths@;
    let ghost n = widths.len() as int;
    proof {
        lemma_widths_suffix(rect.spec_width(), boxhints@, widths, n);
    }

    let mut used_left_width: usize = 0;
    let mut used_right_width: usize = 0;
    let mut used_center_width: usize = 0;

    let mut idx: usize = 0;
    while idx < hint_content_widths.len()
        invariant
            hints_placeable(*rect, boxhints@),
            widths == spec_hint_widths(rect.spec_width(), boxhints@)->0,
            widths == hint_content_widths@,
            n == widths.len(),
            n <= boxhints@.len(),
            total_left_width == used_by(boxhints@, widths, n, HorizontalAlignment::Left),
            total_right_width == used_by(boxhints@, widths, n, HorizontalAlignment::Right),
            total_center_width == used_by(boxhints@, widths, n, HorizontalAlignment::Center),
            used_total(boxhints@, widths, n) <= rect.spec_width(),
            0 <= idx <= n,
            used_left_width == used_by(boxhints@, widths, idx as int, HorizontalAlignment::Left),
            used_right_width == used_by(boxhints@, widths, idx as int, HorizontalAlignment::Right),
            used_center_width == used_by(
                boxhints@,
                widths,
                idx as int,
                HorizontalAlignment::Center,
            ),
            views(out@) == before + spec_hints_commands(
                *winbox,
                *rect,
                boxhints@,
                widths,
                y_pos,
                idx as int,
            ),
        decreases n - idx,
    {
        let hint = &boxhints[idx];
        let content_width = hint_content_widths[idx];
        proof {
            lemma_hint_fits(rect.spec_width(), boxhints@, widths, idx as int);
        }
        let margins = hint.margin.left + hint.margin.right;
        let x_pos = match hint_x(
            rect,
            boxhints,
            &hint_content_widths,
            idx,
            (used_left_width, used_right_width, used_center_width),
            (total_left_width, total_right_width, total_center_width),
        ) {
            Some(x) => x,
            None => {
                proof {
                    assert(spec_hint_x(*rect, boxhints@, widths, idx as int) is Some);
                }
                0
            },
        };

        push_command(out, Command::MoveTo(x_pos as TermUSize, y_pos));
        push_print(out, Some(winbox.style), char_to_string(winbox.borders.vertical_left));
        let actual_content = format_strip_align(
            &hint.content,
            content_width,
            &HorizontalAlignment::Left,
        );
        push_print(out, Some(hint.style), actual_content);
        push_print(out, Some(winbox.style), char_to_string(winbox.borders.vertical_right));
        proof {
            assert(views(out@) =~= before + spec_hints_commands(
                *winbox,
                *rect,
                boxhints@,
                widths,
                y_pos,
                idx + 1,
            ));
        }

        let used_width = content_width + 2 + margins;
        match hint.alignment {
            HorizontalAlignment::Left => used_left_width = used_left_width + used_width,
            HorizontalAlignment::Right => used_right_width = used_right_width + used_width,
            HorizontalAlignment::Center => used_center_width = used_center_width + used_width,
        }
        idx = idx + 1;
    }
}

/// The column where hint `idx` begins, given the columns that the hints before it and
/// all the hints that fit take, per alignment; `None` when the computation goes below
/// zero.
fn hint_x(
    rect: &Rect,
    boxhints: &Vec<BoxHint>,
    widths: &Vec<usize>,
    idx: usize,
    used: (usize, usize, usize),
    totals: (usize, usize, usize),
) -> (x: Option<usize>)
    requires
        rect.width_fits(),
        widths@ == spec_hint_widths(rect.spec_width(), boxhints@)->0,
        spec_hint_widths(rect.spec_width(), boxhints@) is Some,
        0 <= idx < widths@.len(),
        used.0 == used_by(boxhints@, widths@, idx as int, HorizontalAlignment::Left),
        used.1 == used_by(boxhints@, widths@, idx as int, HorizontalAlignment::Right),
        used.2 == used_by(boxhints@, widths@, idx as int, HorizontalAlignment::Center),
        totals.0 == used_by(boxhints@, widths@, widths@.len() as int, HorizontalAlignment::Left),
        totals.1 == used_by(boxhints@, widths@, widths@.len() as int, HorizontalAlignment::Right),
        totals.2 == used_by(boxhints@, widths@, widths@.len() as int, HorizontalAlignment::Center),
    ensures
        match x {
            Some(x) => spec_hint_x(*rect, boxhints@, widths@, idx as int) == Some(x as int),
            None => spec_hint_x(*rect, boxhints@, widths@, idx as int) is None,
        },
{
    proof {
        lemma_hint_fits(rect.spec_width(), boxhints@, widths@, idx as int);
        lemma_used_by_monotonic(boxhints@, widths@, idx as int, idx + 1);
        lemma_used_by_monotonic(boxhints@, widths@, idx as int, widths@.len() as int);
    }
    let hint = &boxhints[idx];
    let content_width = widths[idx];
    let (used_left_width, used_right_width, used_center_width) = used;
    let (total_left_width, total_right_width, total_center_width) = totals;
    match hint.alignment {
        HorizontalAlignment::Left => Some(rect.x.0 as usize + used_left_width + hint.margin.left),
        HorizontalAlignment::Right => {
            let end = rect.x.1 as usize + 1;
            let taken = used_right_width + content_width + 2 + hint.margin.right;
            if end < taken {
                None
            } else {
                Some(end - taken)
            }
        },
        HorizontalAlignment::Center => {
            let width = rect.width() as usize;
            let ceil_half2 = 2 * ((total_center_width + 1) / 2);
            let x_pos = rect.x.0 as usize + half_round(width + 2 * used_center_width, ceil_half2)
                + hint.margin.left;
            let center_x0 = rect.x.0 as usize + half_round(width, ceil_half2);
            let half_end = half_round(width + total_center_width, 0);
            if (rect.x.1 as usize) < half_end || (rect.x.1 as usize) < total_right_width {
                return None;
            }
            let center_x1 = rect.x.1 as usize - half_end;
            // Shift is for when the left/right hints have passed over the center
            let left_x1 = rect.x.0 as usize + total_left_width;
            let left_shift = if left_x1 > center_x0 {
                left_x1 - center_x0
            } else {
                0
            };
            let right_x0 = rect.x.1 as usize - total_right_width;
            let right_shift = if center_x1 > right_x0 {
                center_x1 - right_x0
            } else {
                0
            };
            if x_pos + left_shift < right_shift {
                None
            } else {
                Some(x_pos + left_shift - right_shift)
            }
        },
    }
}

/// Half of `a - b`, rounded half away from zero, and 0 when negative.
fn half_round(a: usize, b: usize) -> (r: usize)
    ensures
        r == round_half(a - b),
{
    if a < b {
        0
    } else {
        (a - b) / 2 + (a - b) % 2
    }
}

/// Adding up the first `k` hints: only the first `k` widths count.
proof fn lemma_used_by_prefix(
    hints: Seq<BoxHint>,
    w1: Seq<usize>,
    w2: Seq<usize>,
    k: int,
    a: HorizontalAlignment,
)
    requires
        0 <= k <= w1.len(),
        k <= w2.len(),
        forall|j: int| 0 <= j < k ==> w1[j] == w2[j],
    ensures
        used_by(hints, w1, k, a) == used_by(hints, w2, k, a),
    decreases k,
{
    if k > 0 {
        lemma_used_by_prefix(hints, w1, w2, k - 1, a);
    }
}

/// Columns used only grow with more hints.
proof fn lemma_used_by_monotonic(hints: Seq<BoxHint>, widths: Seq<usize>, i: int, j: int)
    requires
        0 <= i <= j,
    ensures
        forall|a: HorizontalAlignment|
            used_by(hints, widths, i, a) <= #[trigger] used_by(hints, widths, j, a),
    decreases j - i,
{
    if i < j {
        lemma_used_by_monotonic(hints, widths, i, j - 1);
        assert forall|a: HorizontalAlignment|
            used_by(hints, widths, i, a) <= #[trigger] used_by(hints, widths, j, a) by {
            assert(used_by(hints, widths, i, a) <= used_by(hints, widths, j - 1, a));
        }
    }
}

/// The widths from hint `k` on are what the computation gives after the first `k` hints.
proof fn lemma_widths_suffix(width: int, hints: Seq<BoxHint>, widths: Seq<usize>, k: int)
    requires
        spec_hint_widths(width, hints) == Some(widths),
        0 <= k <= widths.len(),
        0 <= width <= usize::MAX,
    ensures
        spec_hint_widths_from(width, hints, k, used_total(hints, widths, k)) == Some(
            widths.subrange(k, widths.len() as int),
        ),
        used_total(hints, widths, k) <= width,
        k <= hints.len(),
    decreases k,
{
    if k == 0 {
        assert(widths.subrange(0, widths.len() as int) =~= widths);
    } else {
        lemma_widths_suffix(width, hints, widths, k - 1);
        lemma_used_by_monotonic(hints, widths, 0, k - 1);
        let used = used_total(hints, widths, k - 1);
        let tail = widths.subrange(k - 1, widths.len() as int);
        assert(tail.len() > 0);
        let hint = hints[k - 1];
        let m = margins(hint);
        let available = width - used - brackets_width() - m;
        let content = byte_len(hint.content@) as int;
        let cw = if content < available {
            content
        } else {
            available
        };
        let rest = spec_hint_widths_from(width, hints, k, used + cw + brackets_width() + m);
        assert(rest == Some(tail.drop_first()));
        assert(tail[0] == widths[k - 1]);
        assert(tail =~= seq![cw as usize] + tail.drop_first());
        assert(widths[k - 1] as int == cw);
        assert(used_total(hints, widths, k) == used + cw + brackets_width() + m) by {
            match hint.alignment {
                HorizontalAlignment::Left => {},
                HorizontalAlignment::Right => {},
                HorizontalAlignment::Center => {},
            }
        }
        assert(tail.drop_first() =~= widths.subrange(k, widths.len() as int));
    }
}

/// The hint at index `i` of the computed widths found room: its width, brackets and
/// margins fit after the hints before it.
proof fn lemma_hint_fits(width: int, hints: Seq<BoxHint>, widths: Seq<usize>, i: int)
    requires
        spec_hint_widths(width, hints) == Some(widths),
        0 <= i < widths.len(),
        0 <= width <= usize::MAX,
    ensures
        i < hints.len(),
        margins(hints[i]) + brackets_width() + 1 <= usize::MAX,
        used_total(hints, widths, i + 1) <= width,
        widths[i] <= byte_len(hints[i].content@),
        used_total(hints, widths, widths.len() as int) <= width,
{
    lemma_widths_suffix(width, hints, widths, i);
    lemma_widths_suffix(width, hints, widths, i + 1);
    lemma_widths_suffix(width, hints, widths, widths.len() as int);
    let tail = widths.subrange(i, widths.len() as int);
    assert(tail[0] == widths[i]);
}

/// Whether the content widths of the hints can be computed in `width` columns: adding
/// up the margins of a hint that is reached does not overflow.
fn hint_widths_computable(width: usize, boxhints: &Vec<BoxHint>) -> (b: bool)
    ensures
        b == spec_hint_widths(width as int, boxhints@) is Some,
{
    let ghost hints = boxhints@;
    let mut used: usize = 0;
    let mut i: usize = 0;
    while i < boxhints.len()
        invariant
            hints == boxhints@,
            0 <= i <= hints.len(),
            used <= width,
            (spec_hint_widths(width as int, hints) is Some) == (spec_hint_widths_from(
                width as int,
                hints,
                i as int,
                used as int,
            ) is Some),
        decreases hints.len() - i,
    {
        let hint = &boxhints[i];
        let margins = match hint.margin.left.checked_add(hint.margin.right) {
            Some(m) => m,
            None => return false,
        };
        if margins > usize::MAX - 3 {
            return false;
        }
        if width - used < margins + 3 {
            return true;
        }
        let available = width - used - 2 - margins;
        let content = hint.content.as_str().as_bytes().len();
        let content_width = if content < available {
            content
        } else {
            available
        };
        used = used + content_width + 2 + margins;
        i = i + 1;
    }
    true
}

/// Whether the hints can all be placed in the row `rect` (see `hints_placeable`).
pub fn hints_placeable_check(rect: &Rect, boxhints: &Vec<BoxHint>) -> (b: bool)
    ensures
        b == hints_placeable(*rect, boxhints@),
{
    if !(rect.x.0 <= rect.x.1 && rect.x.1 - rect.x.0 < u16::MAX) {
        return false;
    }
    if !hint_widths_computable(rect.width() as usize, boxhints) {
        return false;
    }
    let (widths, total_left_width, total_right_width, total_center_width) = compute_boxhint_widths(
        rect,
        boxhints,
    );
    let ghost n = widths@.len() as int;
    proof {
        lemma_widths_suffix(rect.spec_width(), boxhints@, widths@, n);
    }
    let mut used_left_width: usize = 0;
    let mut used_right_width: usize = 0;
    let mut used_center_width: usize = 0;
    let mut idx: usize = 0;
    while idx < widths.len()
        invariant
            rect.width_fits(),
            spec_hint_widths(rect.spec_width(), boxhints@) is Some,
            widths@ == spec_hint_widths(rect.spec_width(), boxhints@)->0,
            n == widths@.len(),
            n <= boxhints@.len(),
            total_left_width == used_by(boxhints@, widths@, n, HorizontalAlignment::Left),
            total_right_width == used_by(boxhints@, widths@, n, HorizontalAlignment::Right),
            total_center_width == used_by(boxhints@, widths@, n, HorizontalAlignment::Center),
            0 <= idx <= n,
            used_left_width == used_by(boxhints@, widths@, idx as int, HorizontalAlignment::Left),
            used_right_width == used_by(boxhints@, widths@, idx as int, HorizontalAlignment::Right),
            used_center_width == used_by(
                boxhints@,
                widths@,
                idx as int,
                HorizontalAlignment::Center,
            ),
            forall|j: int|
                0 <= j < idx ==> {
                    &&& (#[trigger] spec_hint_x(*rect, boxhints@, widths@, j)) is Some
                    &&& strip_align_cuts_cleanly(boxhints@[j].content@, widths@[j] as nat)
                },
        decreases n - idx,
    {
        let hint = &boxhints[idx];
        proof {
            lemma_hint_fits(rect.spec_width(), boxhints@, widths@, idx as int);
        }
        if hint_x(
            rect,
            boxhints,
            &widths,
            idx,
            (used_left_width, used_right_width, used_center_width),
            (total_left_width, total_right_width, total_center_width),
        ).is_none() {
            return false;
        }
        if !cuts_cleanly(&hint.content, widths[idx]) {
            return false;
        }
        let used_width = widths[idx] + 2 + hint.margin.left + hint.margin.right;
        match hint.alignment {
            HorizontalAlignment::Left => used_left_width = used_left_width + used_width,
            HorizontalAlignment::Right => used_right_width = used_right_width + used_width,
            HorizontalAlignment::Center => used_center_width = used_center_width + used_width,
        }
        idx = idx + 1;
    }
    true
}

/// Whether `draw_winbox` can draw the box (see `winbox_drawable`).
pub fn winbox_drawable_check(rect: &Rect, winbox: &WinBox) -> (b: bool)
    ensures
        b == winbox_drawable(*rect, *winbox),
{
    let valid = rect.x.0 <= rect.x.1 && rect.y.0 <= rect.y.1;
    if !valid {
        return true;
    }
    if rect.x.1 - rect.x.0 >= u16::MAX {
        return false;
    }
    if rect.width() < 3 {
        return true;
    }
    if rect.y.1 - rect.y.0 >= u16::MAX {
        return false;
    }
    if rect.height() < 3 {
        return true;
    }
    let inner_x = rect.inner_x_unchecked();
    hints_placeable_check(&inner_x, &winbox.top_hints) && hints_placeable_check(
        &inner_x,
        &winbox.bottom_hints,
    )
}

/// Hints are shown by priority, in the order of their list: the hints that get room are
/// the first ones of the list, together they fit into the width with their brackets and
/// margins, none shows more than its content, and the first hint left out found no room
/// for its brackets, margins and one column of content.
pub proof fn law_hints_shown_by_priority(width: int, hints: Seq<BoxHint>)
    requires
        0 <= width <= usize::MAX,
        spec_hint_widths(width, hints) is Some,
    ensures
        ({
            let widths = spec_hint_widths(width, hints)->0;
            &&& widths.len() <= hints.len()
            &&& used_total(hints, widths, widths.len() as int) <= width
            &&& forall|i: int|
                0 <= i < widths.len() ==> #[trigger] widths[i] <= byte_len(hints[i].content@)
            &&& widths.len() < hints.len() ==> width - used_total(hints, widths, widths.len() as int)
                < margins(hints[widths.len() as int]) + brackets_width() + 1
        }),
{
    let widths = spec_hint_widths(width, hints)->0;
    let n = widths.len() as int;
    lemma_widths_suffix(width, hints, widths, n);
    assert forall|i: int| 0 <= i < widths.len() implies #[trigger] widths[i] <= byte_len(
        hints[i].content@,
    ) by {
        lemma_hint_fits(width, hints, widths, i);
    }
    assert(widths.subrange(n, n) =~= Seq::<usize>::empty());
}

/// A hint aligned left or right is placed within the row, its margins, brackets and
/// content included, and the left hints end before the right hints begin.
pub proof fn law_side_hints_inside(rect: Rect, hints: Seq<BoxHint>, i: int, j: int)
    requires
        rect.width_fits(),
        spec_hint_widths(rect.spec_width(), hints) is Some,
        0 <= i < spec_hint_widths(rect.spec_width(), hints)->0.len(),
        0 <= j < spec_hint_widths(rect.spec_width(), hints)->0.len(),
        hints[i].alignment == HorizontalAlignment::Left,
        hints[j].alignment == HorizontalAlignment::Right,
    ensures
        ({
            let widths = spec_hint_widths(rect.spec_width(), hints)->0;
            let left = spec_hint_x(rect, hints, widths, i);
            let right = spec_hint_x(rect, hints, widths, j);
            &&& left is Some && right is Some
            &&& rect.x.0 + hints[i].margin.left <= left->0
            &&& rect.x.0 + hints[j].margin.left <= right->0
            &&& right->0 + widths[j] + brackets_width() + hints[j].margin.right <= rect.x.1 + 1
            &&& left->0 + widths[i] + brackets_width() + hints[i].margin.right <= right->0
                - hints[j].margin.left
        }),
{
    let widths = spec_hint_widths(rect.spec_width(), hints)->0;
    let n = widths.len() as int;
    lemma_hint_fits(rect.spec_width(), hints, widths, i);
    lemma_hint_fits(rect.spec_width(), hints, widths, j);
    lemma_used_by_monotonic(hints, widths, i + 1, n);
    lemma_used_by_monotonic(hints, widths, j + 1, n);
    lemma_used_by_monotonic(hints, widths, 0, i);
    lemma_used_by_monotonic(hints, widths, 0, j);
    assert(used_by(hints, widths, i + 1, HorizontalAlignment::Left) == used_by(
        hints,
        widths,
        i,
        HorizontalAlignment::Left,
    ) + widths[i] + brackets_width() + margins(hints[i]));
    assert(used_by(hints, widths, j + 1, HorizontalAlignment::Right) == used_by(
        hints,
        widths,
        j,
        HorizontalAlignment::Right,
    ) + widths[j] + brackets_width() + margins(hints[j]));
    assert(used_by(hints, widths, n, HorizontalAlignment::Left) + used_by(
        hints,
        widths,
        n,
        HorizontalAlignment::Right,
    ) <= rect.spec_width()) by {
        lemma_used_by_monotonic(hints, widths, 0, n);
        assert(used_by(hints, widths, n, HorizontalAlignment::Center) >= 0);
    }
    assert(used_by(hints, widths, i, HorizontalAlignment::Left) >= 0);
    assert(used_by(hints, widths, j, HorizontalAlignment::Right) >= 0);
    assert(used_by(hints, widths, j + 1, HorizontalAlignment::Right) <= used_by(
        hints,
        widths,
        n,
        HorizontalAlignment::Right,
    ));
    assert(used_by(hints, widths, i + 1, HorizontalAlignment::Left) <= used_by(
        hints,
        widths,
        n,
        HorizontalAlignment::Left,
    ));
}

/// The side borders of rows `from..=to` take four commands per row, the row `y` ones
/// beginning at index `4 * (y - from)`.
proof fn lemma_side_borders_rows(winbox: WinBox, rect: Rect, from: int, to: int)
    requires
        from <= to + 1,
    ensures
        spec_side_borders(winbox, rect, from, to).len() == 4 * (to - from + 1),
        forall|y: int|
            from <= y <= to ==> {
                &&& #[trigger] spec_side_borders(winbox, rect, from, to)[4 * (y - from)]
                    == CommandView::MoveTo(rect.x.0, y as u16)
                &&& spec_side_borders(winbox, rect, from, to)[4 * (y - from) + 1]
                    == CommandView::Print(Some(winbox.style), seq![winbox.borders.vertical])
                &&& spec_side_borders(winbox, rect, from, to)[4 * (y - from) + 2]
                    == CommandView::MoveRight((rect.spec_width() - 2) as u16)
                &&& spec_side_borders(winbox, rect, from, to)[4 * (y - from) + 3]
                    == CommandView::Print(Some(winbox.style), seq![winbox.borders.vertical])
            },
    decreases to - from + 1,
{
    if from <= to {
        lemma_side_borders_rows(winbox, rect, from, to - 1);
    }
}

/// A drawn window box has a left and a right border on every row strictly between its
/// top and bottom rows: after the eight commands of the top and bottom borders, row `y`
/// gets a move to the left edge `(x.0, y)`, the vertical border, a move over the inner
/// width and the vertical border again, one row after the other from the top; the hints
/// come after all of them.
pub proof fn law_winbox_side_borders_on_every_row(rect: Rect, winbox: WinBox, y: int)
    requires
        has_inner(rect),
        rect.y.0 < y < rect.y.1,
    ensures
        ({
            let out = spec_draw_winbox(rect, winbox);
            let i = 8 + 4 * (y - rect.y.0 - 1);
            &&& out.len() >= 8 + 4 * (rect.spec_height() - 2)
            &&& out[i] == CommandView::MoveTo(rect.x.0, y as u16)
            &&& out[i + 1] == CommandView::Print(Some(winbox.style), seq![winbox.borders.vertical])
            &&& out[i + 2] == CommandView::MoveRight((rect.spec_width() - 2) as u16)
            &&& out[i + 3] == CommandView::Print(Some(winbox.style), seq![winbox.borders.vertical])
        }),
{
    let from = rect.y.0 + 1;
    lemma_side_borders_rows(winbox, rect, from, rect.y.1 - 1);
    let sides = spec_side_borders(winbox, rect, from, rect.y.1 - 1);
    assert(sides[4 * (y - from)] == CommandView::MoveTo(rect.x.0, y as u16));
    let borders = spec_borders(winbox, rect);
    let out = spec_draw_winbox(rect, winbox);
    let i = 8 + 4 * (y - from);
    assert(borders.len() == 8 + sides.len());
    assert(out[i] == borders[i]);
    assert(out[i + 1] == borders[i + 1]);
    assert(out[i + 2] == borders[i + 2]);
    assert(out[i + 3] == borders[i + 3]);
    assert(borders[i] == sides[4 * (y - from)]);
    assert(borders[i + 1] == sides[4 * (y - from) + 1]);
    assert(borders[i + 2] == sides[4 * (y - from) + 2]);
    assert(borders[i + 3] == sides[4 * (y - from) + 3]);
}

/// Hints aligned to one side follow each other in list order without overlapping: left
/// hints from the left end rightwards, right hints from the right end leftwards, each
/// with its margins, brackets and content.
pub proof fn law_side_hints_follow(rect: Rect, hints: Seq<BoxHint>, i: int, j: int)
    requires
        hints_placeable(rect, hints),
        0 <= i < j < spec_hint_widths(rect.spec_width(), hints)->0.len(),
        hints[i].alignment == hints[j].alignment,
        hints[i].alignment != HorizontalAlignment::Center,
    ensures
        ({
            let widths = spec_hint_widths(rect.spec_width(), hints)->0;
            let xi = spec_hint_x(rect, hints, widths, i)->0;
            let xj = spec_hint_x(rect, hints, widths, j)->0;
            &&& hints[i].alignment == HorizontalAlignment::Left ==> xi + widths[i]
                + brackets_width() + hints[i].margin.right <= xj - hints[j].margin.left
            &&& hints[i].alignment == HorizontalAlignment::Right ==> xj + widths[j]
                + brackets_width() + hints[j].margin.right <= xi - hints[i].margin.left
        }),
{
    let widths = spec_hint_widths(rect.spec_width(), hints)->0;
    let a = hints[i].alignment;
    assert(spec_hint_x(rect, hints, widths, i) is Some);
    assert(spec_hint_x(rect, hints, widths, j) is Some);
    lemma_hint_fits(rect.spec_width(), hints, widths, i);
    lemma_used_by_monotonic(hints, widths, i + 1, j);
    assert(used_by(hints, widths, i + 1, a) == used_by(hints, widths, i, a) + widths[i]
        + brackets_width() + margins(hints[i]));
}

/// Centered hints that fit follow each other in list order and do not overlap: a later
/// centered hint begins no sooner than an earlier one ends, its content, two brackets
/// and right margin included.
pub proof fn law_center_hints_follow(rect: Rect, hints: Seq<BoxHint>, i: int, j: int)
    requires
        hints_placeable(rect, hints),
        0 <= i < j < spec_hint_widths(rect.spec_width(), hints)->0.len(),
        hints[i].alignment == HorizontalAlignment::Center,
        hints[j].alignment == HorizontalAlignment::Center,
    ensures
        ({
            let widths = spec_hint_widths(rect.spec_width(), hints)->0;
            spec_hint_x(rect, hints, widths, i)->0 + widths[i] + brackets_width()
                + hints[i].margin.right <= spec_hint_x(rect, hints, widths, j)->0
        }),
{
    let widths = spec_hint_widths(rect.spec_width(), hints)->0;
    let n = widths.len() as int;
    let c = HorizontalAlignment::Center;
    assert(spec_hint_x(rect, hints, widths, i) is Some);
    assert(spec_hint_x(rect, hints, widths, j) is Some);
    lemma_hint_fits(rect.spec_width(), hints, widths, i);
    lemma_hint_fits(rect.spec_width(), hints, widths, j);
    lemma_used_by_monotonic(hints, widths, 0, n);
    lemma_used_by_monotonic(hints, widths, 0, i);
    lemma_used_by_monotonic(hints, widths, i + 1, j);
    assert(used_by(hints, widths, i + 1, c) == used_by(hints, widths, i, c) + widths[i]
        + brackets_width() + margins(hints[i]));
    let w = rect.spec_width();
    let total_center = used_by(hints, widths, n, c);
    assert(total_center <= w);
    let a = w - 2 * ((total_center + 1) / 2);
    assert(a >= -1);
    let ui = used_by(hints, widths, i, c);
    let uj = used_by(hints, widths, j, c);
    assert(round_half(a + 2 * ui) == ui + (a + 1) / 2);
    assert(round_half(a + 2 * uj) == uj + (a + 1) / 2);
}

/// The content widths of the hints that fit, and the columns that the left, right and
/// center hints take in total.
pub fn compute_boxhint_widths(rect: &Rect, boxhints: &Vec<BoxHint>) -> (r: (
    Vec<usize>,
    usize,
    usize,
    usize,
))
    requires
        rect.width_fits(),
        spec_hint_widths(rect.spec_width(), boxhints@) is Some,
    ensures
        r.0@ == spec_hint_widths(rect.spec_width(), boxhints@)->0,
        r.1 == used_by(boxhints@, r.0@, r.0@.len() as int, HorizontalAlignment::Left),
        r.2 == used_by(boxhints@, r.0@, r.0@.len() as int, HorizontalAlignment::Right),
        r.3 == used_by(boxhints@, r.0@, r.0@.len() as int, HorizontalAlignment::Center),
        used_total(boxhints@, r.0@, r.0@.len() as int) <= rect.spec_width(),
{
    let ghost hints = boxhints@;
    let ghost all = spec_hint_widths(rect.spec_width(), hints)->0;
    let width = rect.width() as usize;
    let mut hint_content_widths: Vec<usize> = Vec::new();
    let mut used_left_width: usize = 0;
    let mut used_right_width: usize = 0;
    let mut used_center_width: usize = 0;

    let mut i: usize = 0;
    while i < boxhints.len()
        invariant
            hints == boxhints@,
            width == rect.spec_width(),
            all == spec_hint_widths(width as int, hints)->0,
            0 <= i <= hints.len(),
            hint_content_widths@.len() == i,
            spec_hint_widths_from(
                width as int,
                hints,
                i as int,
                used_left_width + used_right_width + used_center_width,
            ) is Some,
            all == hint_content_widths@ + spec_hint_widths_from(
                width as int,
                hints,
                i as int,
                used_left_width + used_right_width + used_center_width,
            )->0,
            used_left_width == used_by(hints, hint_content_widths@, i as int, HorizontalAlignment::Left),
            used_right_width == used_by(hints, hint_content_widths@, i as int, HorizontalAlignment::Right),
            used_center_width == used_by(hints, hint_content_widths@, i as int, HorizontalAlignment::Center),
            used_left_width + used_right_width + used_center_width <= width,
        ensures
            all == hint_content_widths@,
            used_left_width == used_by(hints, hint_content_widths@, hint_content_widths@.len() as int, HorizontalAlignment::Left),
            used_right_width == used_by(hints, hint_content_widths@, hint_content_widths@.len() as int, HorizontalAlignment::Right),
            used_center_width == used_by(hints, hint_content_widths@, hint_content_widths@.len() as int, HorizontalAlignment::Center),
            used_left_width + used_right_width + used_center_width <= width,
        decreases hints.len() - i,
    {
        let hint = &boxhints[i];
        let margins = hint.margin.left + hint.margin.right;
        let minimum_width = margins + 2 + 1;
        let available_width = width - used_left_width - used_right_width - used_center_width;
        if available_width < minimum_width {
            assert(all =~= hint_content_widths@);
            break;
        }
        let available_hint_width = available_width - 2 - margins;
        let content_len = hint.content.as_str().as_bytes().len();
        let content_width = if content_len < available_hint_width {
            content_len
        } else {
            available_hint_width
        };
        let ghost prev = hint_content_widths@;
        hint_content_widths.push(content_width);
        proof {
            assert(all =~= hint_content_widths@ + spec_hint_widths_from(
                width as int,
                hints,
                i + 1,
                used_left_width + used_right_width + used_center_width + content_width + 2
                    + margins,
            )->0);
            lemma_used_by_prefix(hints, prev, hint_content_widths@, i as int, HorizontalAlignment::Left);
            lemma_used_by_prefix(hints, prev, hint_content_widths@, i as int, HorizontalAlignment::Right);
            lemma_used_by_prefix(hints, prev, hint_content_widths@, i as int, HorizontalAlignment::Center);
        }
        let used_width = content_width + 2 + margins;
        match hint.alignment {
            HorizontalAlignment::Left => used_left_width = used_left_width + used_width,
            HorizontalAlignment::Right => used_right_width = used_right_width + used_width,
            HorizontalAlignment::Center => used_center_width = used_center_width + used_width,
        }
        i = i + 1;
    }
    (hint_content_widths, used_left_width, used_right_width, used_center_width)
}

} // verus!
