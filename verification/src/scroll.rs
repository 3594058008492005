//! A vertical scroll bar.
use crate::command::{push_command, push_print, views, Command, CommandView, ExContentStyle};
use crate::style::{
    content_style, plain, plain_with, plain_with2, spec_content_style, style_new, with_attribute,
    TextAttribute,
};
use crate::text::char_to_string;
use crossterm::style::ContentStyle;
use vstd::prelude::*;

verus! {

#[derive(Debug, Clone, Copy)]
pub struct CharStyle {
    pub char: char,
    pub style: ContentStyle,
}

pub struct ScrollBarChars {
    pub up: CharStyle,
    pub up_clicked: CharStyle,
    pub up_disabled: CharStyle,
    pub bar: CharStyle,
    pub bar_clicked: CharStyle,
    pub down: CharStyle,
    pub down_clicked: CharStyle,
    pub down_disabled: CharStyle,
    pub space: CharStyle,
    pub space_clicked: CharStyle,
}

impl ScrollBarChars {
    /// The characters of a scroll bar, in the order of the fields: up (plain, clicked,
    /// disabled), bar (plain, clicked), down (plain, clicked, disabled), space (plain,
    /// clicked).
    pub open spec fn chars(self) -> Seq<char> {
        seq![
            self.up.char,
            self.up_clicked.char,
            self.up_disabled.char,
            self.bar.char,
            self.bar_clicked.char,
            self.down.char,
            self.down_clicked.char,
            self.down_disabled.char,
            self.space.char,
            self.space_clicked.char,
        ]
    }

    /// The styles of a scroll bar, in the order of the fields.
    pub open spec fn styles(self) -> Seq<ContentStyle> {
        seq![
            self.up.style,
            self.up_clicked.style,
            self.up_disabled.style,
            self.bar.style,
            self.bar_clicked.style,
            self.down.style,
            self.down_clicked.style,
            self.down_disabled.style,
            self.space.style,
            self.space_clicked.style,
        ]
    }

    /// The styles of both symbol sets: arrows in bold, dim and bold when disabled, plain
    /// when clicked; the bar plain, bold when clicked; the track plain, dim when clicked.
    pub open spec fn spec_styles() -> Seq<ContentStyle> {
        seq![
            spec_content_style(plain_with(TextAttribute::Bold)),
            spec_content_style(plain()),
            spec_content_style(plain_with2(TextAttribute::Dim, TextAttribute::Bold)),
            spec_content_style(plain()),
            spec_content_style(plain_with(TextAttribute::Bold)),
            spec_content_style(plain_with(TextAttribute::Bold)),
            spec_content_style(plain()),
            spec_content_style(plain_with2(TextAttribute::Dim, TextAttribute::Bold)),
            spec_content_style(plain()),
            spec_content_style(plain_with(TextAttribute::Dim)),
        ]
    }

    /// Arrows, a full block and a middle dot.
    pub fn modern() -> (r: Self)
        ensures
            r.chars() == seq![
                '\u{2191}',
                '\u{2191}',
                '\u{2191}',
                '\u{2588}',
                '\u{2588}',
                '\u{2193}',
                '\u{2193}',
                '\u{2193}',
                ' ',
                '\u{b7}',
            ],
            r.styles() == ScrollBarChars::spec_styles(),
    {
        Self {
            up: CharStyle { char: '\u{2191}', style: content_style(with_attribute(style_new(), TextAttribute::Bold)) },
            up_clicked: CharStyle { char: '\u{2191}', style: content_style(style_new()) },
            up_disabled: CharStyle {
                char: '\u{2191}',
                style: content_style(with_attribute(
                    with_attribute(style_new(), TextAttribute::Dim),
                    TextAttribute::Bold,
                )),
            },
            bar: CharStyle { char: '\u{2588}', style: content_style(style_new()) },
            bar_clicked: CharStyle {
                char: '\u{2588}',
                style: content_style(with_attribute(style_new(), TextAttribute::Bold)),
            },
            down: CharStyle {
                char: '\u{2193}',
                style: content_style(with_attribute(style_new(), TextAttribute::Bold)),
            },
            down_clicked: CharStyle { char: '\u{2193}', style: content_style(style_new()) },
            down_disabled: CharStyle {
                char: '\u{2193}',
                style: content_style(with_attribute(
                    with_attribute(style_new(), TextAttribute::Dim),
                    TextAttribute::Bold,
                )),
            },
            space: CharStyle { char: ' ', style: content_style(style_new()) },
            space_clicked: CharStyle {
                char: '\u{b7}',
                style: content_style(with_attribute(style_new(), TextAttribute::Dim)),
            },
        }
    }

    /// ASCII characters only.
    pub fn simple() -> (r: Self)
        ensures
            r.chars() == seq!['^', '^', '^', '*', '*', 'v', 'v', 'v', '|', '|'],
            r.styles() == ScrollBarChars::spec_styles(),
    {
        Self {
            up: CharStyle { char: '^', style: content_style(with_attribute(style_new(), TextAttribute::Bold)) },
            up_clicked: CharStyle { char: '^', style: content_style(style_new()) },
            up_disabled: CharStyle {
                char: '^',
                style: content_style(with_attribute(
                    with_attribute(style_new(), TextAttribute::Dim),
                    TextAttribute::Bold,
                )),
            },
            bar: CharStyle { char: '*', style: content_style(style_new()) },
            bar_clicked: CharStyle { char: '*', style: content_style(with_attribute(style_new(), TextAttribute::Bold)) },
            down: CharStyle { char: 'v', style: content_style(with_attribute(style_new(), TextAttribute::Bold)) },
            down_clicked: CharStyle { char: 'v', style: content_style(style_new()) },
            down_disabled: CharStyle {
                char: 'v',
                style: content_style(with_attribute(
                    with_attribute(style_new(), TextAttribute::Dim),
                    TextAttribute::Bold,
                )),
            },
            space: CharStyle { char: '|', style: content_style(style_new()) },
            space_clicked: CharStyle { char: '|', style: content_style(with_attribute(style_new(), TextAttribute::Dim)) },
        }
    }
}

pub struct ScrollBar {
    pub x: u16,
    pub y: u16,
    pub height: u16,
    pub symbols: ScrollBarChars,
}

pub struct RangeTotal {
    pub begin: usize,
    pub end: usize,
    pub total: usize,
}

/// Where the bar of a scroll bar goes: its symbol, the scroll position and its largest
/// value, and the rows of the track between the arrows (`rows` rows from `top`).
/// The row is `begin / max_begin` of the way down the track.
#[derive(Debug, Clone, Copy)]
pub struct BarSlot {
    pub x: u16,
    pub top: u16,
    pub rows: u16,
    pub begin: usize,
    pub max_begin: usize,
    pub symbol: CharStyle,
}

/// The command that prints a symbol in its style.
pub open spec fn print_symbol(symbol: CharStyle) -> CommandView {
    CommandView::Print(Some(symbol.style), seq![symbol.char])
}

impl ScrollBar {
    /// A scroll bar is drawn when it has at least one row and not everything is shown.
    pub open spec fn shown(self, range: RangeTotal) -> bool {
        self.height >= 1 && range.end - range.begin < range.total
    }

    /// The largest first shown index.
    pub open spec fn max_begin(range: RangeTotal) -> int {
        range.total - (range.end - range.begin)
    }

    /// The up arrow: disabled at the top, else clicked or plain.
    pub open spec fn up_symbol(self, range: RangeTotal, up_arrow_click: bool) -> CharStyle {
        if range.begin == 0 {
            self.symbols.up_disabled
        } else if up_arrow_click {
            self.symbols.up_clicked
        } else {
            self.symbols.up
        }
    }

    /// The down arrow: disabled at the bottom, else clicked or plain.
    pub open spec fn down_symbol(self, range: RangeTotal, down_arrow_click: bool) -> CharStyle {
        if range.begin == ScrollBar::max_begin(range) {
            self.symbols.down_disabled
        } else if down_arrow_click {
            self.symbols.down_clicked
        } else {
            self.symbols.down
        }
    }

    pub open spec fn space_symbol(self, bar_clicking: bool) -> CharStyle {
        if bar_clicking {
            self.symbols.space_clicked
        } else {
            self.symbols.space
        }
    }

    pub open spec fn bar_symbol(self, bar_clicking: bool) -> CharStyle {
        if bar_clicking {
            self.symbols.bar_clicked
        } else {
            self.symbols.bar
        }
    }

    /// The track cells of rows `from..to`.
    pub open spec fn spec_track(self, symbol: CharStyle, from: int, to: int) -> Seq<CommandView>
        decreases to - from,
    {
        if to <= from {
            Seq::empty()
        } else {
            self.spec_track(symbol, from, to - 1) + seq![
                CommandView::MoveTo(self.x, (to - 1) as u16),
                print_symbol(symbol),
            ]
        }
    }

    /// The commands of a shown scroll bar: the track below the up arrow, the up arrow on
    /// the first row and the down arrow one row below the last.
    pub open spec fn spec_draw(
        self,
        range: RangeTotal,
        bar_clicking: bool,
        up_arrow_click: bool,
        down_arrow_click: bool,
    ) -> Seq<CommandView> {
        if self.shown(range) {
            self.spec_track(self.space_symbol(bar_clicking), self.y + 1, self.y + self.height)
                + seq![
                CommandView::MoveTo(self.x, self.y),
                print_symbol(self.up_symbol(range, up_arrow_click)),
                CommandView::MoveTo(self.x, (self.y + self.height) as u16),
                print_symbol(self.down_symbol(range, down_arrow_click)),
            ]
        } else {
            Seq::empty()
        }
    }

    /// Draw the scroll bar of a list showing the range `begin..end` of `total` items.
    ///
    /// Nothing is drawn without a row or when everything is shown. The bar itself goes at
    /// a row computed in floating point; when the bar has room (more than one row), its
    /// place is returned to be drawn after the other symbols.
    pub fn draw(
        &self,
        out: &mut Vec<Command>,
        range_shown: RangeTotal,
        bar_clicking: bool,
        up_arrow_click: bool,
        down_arrow_click: bool,
    ) -> (r: Option<BarSlot>)
        requires
            self.height >= 1 ==> range_shown.begin <= range_shown.end,
            self.shown(range_shown) ==> self.y + self.height <= u16::MAX,
        ensures
            views(final(out)@) == views(old(out)@) + self.spec_draw(
                range_shown,
                bar_clicking,
                up_arrow_click,
                down_arrow_click,
            ),
            r is Some <==> self.shown(range_shown) && self.height > 1,
            r matches Some(slot) ==> {
                &&& slot.x == self.x
                &&& slot.top == self.y + 1
                &&& slot.rows == self.height - 2
                &&& slot.begin == range_shown.begin
                &&& slot.max_begin == ScrollBar::max_begin(range_shown)
                &&& slot.max_begin > 0
                &&& slot.symbol == self.bar_symbol(bar_clicking)
            },
    {
        let ghost before = views(out@);
        // verifications
        if self.height < 1 {
            assert(views(out@) =~= before);
            return None;
        }
        let visible_count = range_shown.end - range_shown.begin;
        if visible_count >= range_shown.total {
            assert(views(out@) =~= before);
            return None;
        }
        let max_begin = range_shown.total - visible_count;

        let up = if range_shown.begin == 0 {
            self.symbols.up_disabled
        } else if up_arrow_click {
            self.symbols.up_clicked
        } else {
            self.symbols.up
        };
        let down = if range_shown.begin == max_begin {
            self.symbols.down_disabled
        } else if down_arrow_click {
            self.symbols.down_clicked
        } else {
            self.symbols.down
        };
        let bar = if bar_clicking {
            self.symbols.bar_clicked
        } else {
            self.symbols.bar
        };
        let space = if bar_clicking {
            self.symbols.space_clicked
        } else {
            self.symbols.space
        };

        // SPACE
        let mut y = self.y + 1;
        while y < self.y + self.height
            invariant
                self.y + self.height <= u16::MAX,
                self.y + 1 <= y <= self.y + self.height,
                space == self.space_symbol(bar_clicking),
                views(out@) == before + self.spec_track(space, self.y + 1, y as int),
            decreases self.y + self.height - y,
        {
            push_command(out, Command::MoveTo(self.x, y));
            push_print(out, Some(space.style), char_to_string(space.char));
            y = y + 1;
            assert(views(out@) =~= before + self.spec_track(space, self.y + 1, y as int));
        }
        // UP
        push_command(out, Command::MoveTo(self.x, self.y));
        push_print(out, Some(up.style), char_to_string(up.char));
        // DOWN
        push_command(out, Command::MoveTo(self.x, self.y + self.height));
        push_print(out, Some(down.style), char_to_string(down.char));
        assert(views(out@) =~= before + self.spec_draw(
            range_shown,
            bar_clicking,
            up_arrow_click,
            down_arrow_click,
        ));
        // BAR
        if self.height > 1 {
            Some(
                BarSlot {
                    x: self.x,
                    top: self.y + 1,
                    rows: self.height - 2,
                    begin: range_shown.begin,
                    max_begin,
                    symbol: bar,
                },
            )
        } else {
            None
        }
    }
}

} // verus!
