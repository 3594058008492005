//! This module contains the functions to draw the UI widgets.
use crate::layout::HorizontalAlignment;
use crate::text::{byte_len, lemma_byte_len_at_least_len, lemma_ascii_byte_prefix, push_char, push_repeated, repeated};
use vstd::prelude::*;
use vstd::utf8::*;

// Exported draw functions:
pub use table::draw_table;
pub use winbox::draw_winbox;

pub mod table;
pub mod winbox;
pub mod box_table;

verus! {

broadcast use vstd::utf8::encode_utf8_decode_utf8;

/// `content` filled up with spaces to `width` characters, on the side(s) that the
/// alignment leaves free; unchanged when it already has `width` characters or more.
pub open spec fn spec_width_align(
    content: Seq<char>,
    width: nat,
    alignment: HorizontalAlignment,
) -> Seq<char> {
    if content.len() >= width {
        content
    } else {
        let pad = (width - content.len()) as nat;
        match alignment {
            HorizontalAlignment::Left => content + repeated(' ', pad),
            HorizontalAlignment::Right => repeated(' ', pad) + content,
            HorizontalAlignment::Center => repeated(' ', pad / 2) + content + repeated(
                ' ',
                (pad - pad / 2) as nat,
            ),
        }
    }
}

/// The characters of the first `n` bytes of the encoding of `content`.
pub open spec fn byte_prefix(content: Seq<char>, n: int) -> Seq<char> {
    decode_utf8(encode_utf8(content).subrange(0, n))
}

/// `content` fitted into `width` columns: empty for no space; when its byte length
/// exceeds `width`, its first `width - 1` bytes and '…', aligned in `width - 1` columns;
/// otherwise aligned in `width` columns.
pub open spec fn spec_strip_align(
    content: Seq<char>,
    width: nat,
    alignment: HorizontalAlignment,
) -> Seq<char> {
    if width == 0 {
        Seq::empty()
    } else if byte_len(content) > width {
        spec_width_align(
            byte_prefix(content, width - 1).push('\u{2026}'),
            (width - 1) as nat,
            alignment,
        )
    } else {
        spec_width_align(content, width, alignment)
    }
}

/// `format_strip_align` does not split a character: when it cuts `content`, the cut
/// falls on a character boundary.
pub open spec fn strip_align_cuts_cleanly(content: Seq<char>, width: nat) -> bool {
    width > 0 && byte_len(content) > width ==> is_char_boundary(
        encode_utf8(content),
        width - 1,
    )
}

/// Format the string according to the available printable space.
///
/// Example:
/// content: "abc",   width: 5, alignment: Left,   output: "abc  "
/// content: "abc",   width: 5, alignment: Center, output: " abc "
/// content: "abc",   width: 5, alignment: Right,  output: "  abc"
/// content: "abc",   width: 3, alignment: *,      output: "abc"
/// content: "abcde", width: 3, alignment: *,      output: "ab…"
pub fn format_strip_align(
    content: &String,
    width: usize,
    alignment: &HorizontalAlignment,
) -> (r: String)
    requires
        strip_align_cuts_cleanly(content@, width as nat),
    ensures
        r@ == spec_strip_align(content@, width as nat, *alignment),
{
    if width == 0 {
        String::new()
    } else if content.as_str().as_bytes().len() > width {
        // Cut the string and append a etc. symbol to the end
        let (content_split, _) = content.as_str().split_at(width - 1);
        let mut cut = content_split.to_owned();
        push_char(&mut cut, '\u{2026}');
        proof {
            assert(content_split@ == byte_prefix(content@, width - 1));
        }
        format_width_align(&cut, width - 1, alignment)
    } else {
        // Fill blank with space character
        format_width_align(content, width, alignment)
    }
}

/// Whether `format_strip_align` can fit `content` into `width` columns without splitting
/// a character.
pub fn cuts_cleanly(content: &String, width: usize) -> (b: bool)
    ensures
        b == strip_align_cuts_cleanly(content@, width as nat),
{
    width == 0 || content.as_str().as_bytes().len() <= width || content.as_str().is_char_boundary(
        width - 1,
    )
}

/// Format content with minimum width and desired horizontal alignment.
///
/// Additional space (the character) is added to fill up the width.
pub fn format_width_align(content: &String, width: usize, alignment: &HorizontalAlignment) -> (r:
    String)
    ensures
        r@ == spec_width_align(content@, width as nat, *alignment),
{
    let len = content.as_str().unicode_len();
    if len >= width {
        return content.clone();
    }
    let pad = width - len;
    let mut out = String::new();
    match alignment {
        HorizontalAlignment::Left => {
            out.append(content.as_str());
            push_repeated(&mut out, ' ', pad);
        },
        HorizontalAlignment::Center => {
            push_repeated(&mut out, ' ', pad / 2);
            out.append(content.as_str());
            push_repeated(&mut out, ' ', pad - pad / 2);
        },
        HorizontalAlignment::Right => {
            push_repeated(&mut out, ' ', pad);
            out.append(content.as_str());
        },
    }
    assert(out@ =~= spec_width_align(content@, width as nat, *alignment));
    out
}

/// An aligned text is never shorter than the width asked for, and is exactly that wide
/// when the content fits.
pub proof fn law_width_align_length(content: Seq<char>, width: nat, alignment: HorizontalAlignment)
    ensures
        spec_width_align(content, width, alignment).len() == if content.len() >= width {
            content.len()
        } else {
            width
        },
{
}

/// Aligning keeps the content: it stands in the result, surrounded by spaces only.
pub proof fn law_width_align_keeps_content(
    content: Seq<char>,
    width: nat,
    alignment: HorizontalAlignment,
)
    ensures
        exists|left: nat, right: nat|
            spec_width_align(content, width, alignment) == repeated(' ', left) + content
                + repeated(' ', right),
{
    let r = spec_width_align(content, width, alignment);
    if content.len() >= width {
        assert(r =~= repeated(' ', 0) + content + repeated(' ', 0));
    } else {
        let pad = (width - content.len()) as nat;
        match alignment {
            HorizontalAlignment::Left => {
                assert(r =~= repeated(' ', 0) + content + repeated(' ', pad));
            },
            HorizontalAlignment::Right => {
                assert(r =~= repeated(' ', pad) + content + repeated(' ', 0));
            },
            HorizontalAlignment::Center => {
                assert(r =~= repeated(' ', pad / 2) + content + repeated(
                    ' ',
                    (pad - pad / 2) as nat,
                ));
            },
        }
    }
}

/// An ASCII text fitted into some columns takes exactly that many columns; when it does
/// not fit, it is cut and ends with '…'.
pub proof fn law_strip_align_ascii(content: Seq<char>, width: nat, alignment: HorizontalAlignment)
    requires
        is_ascii_chars(content),
    ensures
        spec_strip_align(content, width, alignment).len() == width,
        content.len() > width > 0 ==> spec_strip_align(content, width, alignment) == content.subrange(
            0,
            width - 1,
        ).push('\u{2026}'),
{
    lemma_ascii_byte_prefix(content, 0);
    if width > 0 && content.len() > width {
        lemma_ascii_byte_prefix(content, width - 1);
    }
}

/// A fitted text never takes more columns than it was given, when its cut (if any)
/// falls on a character boundary.
pub proof fn law_strip_align_within_width(
    content: Seq<char>,
    width: nat,
    alignment: HorizontalAlignment,
)
    requires
        strip_align_cuts_cleanly(content, width),
    ensures
        spec_strip_align(content, width, alignment).len() <= width,
{
    lemma_byte_len_at_least_len(content);
    if width > 0 && byte_len(content) > width {
        let bytes = encode_utf8(content);
        let prefix_bytes = bytes.subrange(0, width - 1);
        encode_utf8_valid_utf8(content);
        valid_utf8_split(bytes, width - 1);
        decode_utf8_encode_utf8(prefix_bytes);
        lemma_byte_len_at_least_len(decode_utf8(prefix_bytes));
    }
}

} // verus!
