//! The ratatui styling surface the explorer relies on.
//!
//! `Style`, `Color` and `HighlightSpacing` are plain public data and are
//! declared transparently, so contracts can state which colors a style sets.
//! `Modifier` (a bitflags type with a private field), `Block` and `Line`
//! (private fields) stay opaque and are only carried through.

use ratatui::style::Color;
use ratatui::style::Modifier;
use ratatui::style::Style;
use ratatui::widgets::Block;
use ratatui::widgets::HighlightSpacing;
use vstd::prelude::*;

verus! {

#[verifier::external_type_specification]
pub struct ExStyle(Style);

#[verifier::external_type_specification]
pub struct ExColor(Color);

#[verifier::external_type_specification]
pub struct ExHighlightSpacing(HighlightSpacing);

#[verifier::external_type_specification]
#[verifier::external_body]
pub struct ExModifier(Modifier);

#[verifier::external_type_specification]
#[verifier::external_body]
pub struct ExBlock<'a>(Block<'a>);

#[verifier::external_type_specification]
#[verifier::external_body]
pub struct ExLine<'a>(ratatui::text::Line<'a>);

/// A style that styles nothing: no foreground, background or underline color
/// set. (What the modifier fields hold is carried by the opaque bitflags
/// type and stays unstated.)
pub open spec fn no_colors(s: Style) -> bool {
    &&& s.fg is None
    &&& s.bg is None
    &&& s.underline_color is None
}

/// Relies on ratatui's `Style::new`: a style with no colors set and empty
/// modifier sets.
#[verifier::external_body]
pub(crate) fn style_new() -> (r: Style)
    ensures
        no_colors(r),
{
    Style::new()
}

/// Relies on ratatui's `Style::fg`: the given style with its foreground
/// color replaced and every other field carried over.
#[verifier::external_body]
pub(crate) fn style_fg(s: Style, c: Color) -> (r: Style)
    ensures
        r.fg == Some(c),
        r.bg == s.bg,
        r.underline_color == s.underline_color,
        r.add_modifier == s.add_modifier,
        r.sub_modifier == s.sub_modifier,
{
    s.fg(c)
}

/// Relies on ratatui's `Style::bg`: the given style with its background
/// color replaced and every other field carried over.
#[verifier::external_body]
pub(crate) fn style_bg(s: Style, c: Color) -> (r: Style)
    ensures
        r.bg == Some(c),
        r.fg == s.fg,
        r.underline_color == s.underline_color,
        r.add_modifier == s.add_modifier,
        r.sub_modifier == s.sub_modifier,
{
    s.bg(c)
}

/// Relies on ratatui's `Block::bordered`: a default block with all four
/// borders set.
#[verifier::external_body]
pub(crate) fn bordered_block() -> Block<'static> {
    Block::bordered()
}

/// Relies on ratatui's derived `Clone` for `Style`: a field-for-field copy
/// (the type is `Copy`).
pub assume_specification[ <Style as Clone>::clone ](s: &Style) -> (r: Style)
    ensures
        r == *s,
;

/// Relies on ratatui's derived `Clone` for `HighlightSpacing`: returns the
/// same variant of a fieldless enum.
pub assume_specification[ <HighlightSpacing as Clone>::clone ](s: &HighlightSpacing) -> (r:
    HighlightSpacing)
    ensures
        r == *s,
;

/// Relies on ratatui's derived `Clone` for `Block`: a field-for-field copy
/// of plain data (styles, flags, padding, and title lines).
pub assume_specification<'a>[ <Block<'a> as Clone>::clone ](b: &Block<'a>) -> (r: Block<'a>)
    ensures
        r == *b,
;

/// Relies on ratatui's derived `Clone` for `Line`: a field-for-field copy of
/// plain data (spans, style, alignment).
pub assume_specification<'a>[ <ratatui::text::Line<'a> as Clone>::clone ](
    l: &ratatui::text::Line<'a>,
) -> (r: ratatui::text::Line<'a>)
    ensures
        r == *l,
;

} // verus!
