//! The logo of the welcome screen, of which only the space it kept is left.
//!
//! No layout draws artwork. These functions answer the layouts' questions about it, so that none
//! of them needs a branch of its own.

use vstd::prelude::*;

verus! {

/// A cell buffer of `ratatui`.
#[verifier::external_type_specification]
#[verifier::external_body]
pub struct ExBuffer(ratatui::buffer::Buffer);

/// A rectangle of `ratatui`.
#[verifier::external_type_specification]
#[verifier::external_body]
pub struct ExRect(ratatui::layout::Rect);

/// The lines that the logo takes.
pub fn logo_line_count(_window_height: u16) -> (lines: u16)
    ensures
        lines == 0,
{
    0
}

/// The columns kept for the logo, so that the welcome column keeps its least width.
pub fn logo_visual_width(_window_height: u16) -> (columns: u16)
    ensures
        columns == 24,
{
    24
}

/// Draws the logo: nothing.
pub fn render_logo<T>(
    _area: ratatui::layout::Rect,
    _buf: &mut ratatui::buffer::Buffer,
    _theme: &T,
    _window_height: u16,
)
    ensures
        *final(_buf) == *old(_buf),
{
}

/// The lines that the full logo takes.
pub fn full_logo_line_count() -> (lines: u16)
    ensures
        lines == 0,
{
    0
}

/// The columns that the full logo takes.
pub fn full_logo_visual_width() -> (columns: u16)
    ensures
        columns == 0,
{
    0
}

/// Draws the full logo: nothing.
pub fn render_full_logo<T>(
    _area: ratatui::layout::Rect,
    _buf: &mut ratatui::buffer::Buffer,
    _theme: &T,
)
    ensures
        *final(_buf) == *old(_buf),
{
}

/// The lines that the compact logo takes.
pub fn compact_logo_line_count() -> (lines: u16)
    ensures
        lines == 0,
{
    0
}

/// Draws the compact logo: nothing.
pub fn render_compact_logo<T>(
    _area: ratatui::layout::Rect,
    _buf: &mut ratatui::buffer::Buffer,
    _theme: &T,
)
    ensures
        *final(_buf) == *old(_buf),
{
}

} // verus!
