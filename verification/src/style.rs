//! Text styles: a foreground color and the bold, dim and reverse attributes, and the
//! crossterm style that shows them.
use crate::command::ExContentStyle;
use crossterm::style::{Attribute, Attributes, Color, ContentStyle};
use vstd::prelude::*;

verus! {

/// The text attributes that the browser puts on its styles.
#[derive(Debug, Clone, Copy, PartialEq, Eq, Structural)]
pub enum TextAttribute {
    Bold,
    Dim,
    Reverse,
}

/// The foreground colors that the browser puts on its styles.
#[derive(Debug, Clone, Copy, PartialEq, Eq, Structural)]
pub enum TextColor {
    Green,
    Yellow,
    DarkGrey,
    Magenta,
    Cyan,
    DarkCyan,
}

/// A text style: an optional foreground color (the terminal's color when there is
/// none), and whether the text is bold, dim and in reverse video.
#[derive(Debug, Clone, Copy, PartialEq, Eq, Structural)]
pub struct TextStyle {
    pub foreground: Option<TextColor>,
    pub bold: bool,
    pub dim: bool,
    pub reverse: bool,
}

/// The style without color and attributes.
pub open spec fn plain() -> TextStyle {
    TextStyle { foreground: None, bold: false, dim: false, reverse: false }
}

/// `style` with an attribute added.
pub open spec fn spec_with_attribute(style: TextStyle, attribute: TextAttribute) -> TextStyle {
    match attribute {
        TextAttribute::Bold => TextStyle { bold: true, ..style },
        TextAttribute::Dim => TextStyle { dim: true, ..style },
        TextAttribute::Reverse => TextStyle { reverse: true, ..style },
    }
}

/// `style` with its foreground color set.
pub open spec fn spec_with_foreground(style: TextStyle, color: TextColor) -> TextStyle {
    TextStyle { foreground: Some(color), ..style }
}

/// The plain style with one attribute.
pub open spec fn plain_with(attribute: TextAttribute) -> TextStyle {
    spec_with_attribute(plain(), attribute)
}

/// The plain style with two attributes.
pub open spec fn plain_with2(first: TextAttribute, second: TextAttribute) -> TextStyle {
    spec_with_attribute(plain_with(first), second)
}

/// A style with a foreground color and two attributes.
pub open spec fn colored_with2(color: TextColor, first: TextAttribute, second: TextAttribute) -> TextStyle {
    spec_with_attribute(spec_with_attribute(spec_with_foreground(plain(), color), first), second)
}

/// The attributes that a text style sets, in the order bold, dim, reverse.
pub open spec fn attribute_list(style: TextStyle) -> Seq<TextAttribute> {
    (if style.bold { seq![TextAttribute::Bold] } else { Seq::empty() }) + (if style.dim {
        seq![TextAttribute::Dim]
    } else {
        Seq::empty()
    }) + (if style.reverse { seq![TextAttribute::Reverse] } else { Seq::empty() })
}

/// The crossterm style with a foreground color and a list of attributes.
pub uninterp spec fn spec_content_style_of(
    foreground: Option<TextColor>,
    attributes: Seq<TextAttribute>,
) -> ContentStyle;

/// The crossterm style that shows a text style.
pub open spec fn spec_content_style(style: TextStyle) -> ContentStyle {
    spec_content_style_of(style.foreground, attribute_list(style))
}

/// The style without color and attributes.
pub fn style_new() -> (r: TextStyle)
    ensures
        r == plain(),
{
    TextStyle { foreground: None, bold: false, dim: false, reverse: false }
}

/// `style` with an attribute added.
pub fn with_attribute(style: TextStyle, attribute: TextAttribute) -> (r: TextStyle)
    ensures
        r == spec_with_attribute(style, attribute),
{
    match attribute {
        TextAttribute::Bold => TextStyle { bold: true, ..style },
        TextAttribute::Dim => TextStyle { dim: true, ..style },
        TextAttribute::Reverse => TextStyle { reverse: true, ..style },
    }
}

/// `style` with its foreground color set.
pub fn with_foreground(style: TextStyle, color: TextColor) -> (r: TextStyle)
    ensures
        r == spec_with_foreground(style, color),
{
    TextStyle { foreground: Some(color), ..style }
}

/// The crossterm `ContentStyle` with the given foreground color, no background color,
/// and `Attributes::from` the given attributes; each color and attribute is mapped to
/// crossterm's variant of the same name. The result is named by the arguments alone.
#[verifier::external_body]
fn content_style_of(foreground: Option<TextColor>, attributes: &[TextAttribute]) -> (r: ContentStyle)
    ensures
        r == spec_content_style_of(foreground, attributes@),
{
    let foreground_color = foreground.map(|color| match color {
        TextColor::Green => Color::Green, TextColor::Yellow => Color::Yellow,
        TextColor::DarkGrey => Color::DarkGrey, TextColor::Magenta => Color::Magenta,
        TextColor::Cyan => Color::Cyan, TextColor::DarkCyan => Color::DarkCyan,
    });
    let attributes: Vec<Attribute> = attributes.iter().map(|attribute| match attribute {
        TextAttribute::Bold => Attribute::Bold, TextAttribute::Dim => Attribute::Dim,
        TextAttribute::Reverse => Attribute::Reverse,
    }).collect();
    ContentStyle { foreground_color, background_color: None, attributes: Attributes::from(attributes.as_slice()) }
}

/// The crossterm style that shows a text style: its foreground color and the
/// attributes that it sets.
pub(crate) fn content_style(style: TextStyle) -> (r: ContentStyle)
    ensures
        r == spec_content_style(style),
{
    let mut attributes: Vec<TextAttribute> = Vec::new();
    if style.bold {
        attributes.push(TextAttribute::Bold);
    }
    if style.dim {
        attributes.push(TextAttribute::Dim);
    }
    if style.reverse {
        attributes.push(TextAttribute::Reverse);
    }
    assert(attributes@ =~= attribute_list(style));
    content_style_of(style.foreground, attributes.as_slice())
}

} // verus!
