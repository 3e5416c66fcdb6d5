use codex_pager::logo::{
    compact_logo_line_count, full_logo_line_count, full_logo_visual_width, logo_line_count,
    logo_visual_width, render_compact_logo, render_full_logo, render_logo,
};
use ratatui::buffer::Buffer;
use ratatui::layout::Rect;

#[test]
fn logo_is_absent_from_every_welcome_layout() {
    for height in [0, 22, 26, u16::MAX] {
        assert_eq!(logo_line_count(height), 0);
        assert_eq!(logo_visual_width(height), 24);
    }
    assert_eq!(full_logo_line_count(), 0);
    assert_eq!(full_logo_visual_width(), 0);
    assert_eq!(compact_logo_line_count(), 0);
}

#[test]
fn drawing_the_logo_leaves_the_buffer_alone() {
    let area = Rect::new(0, 0, 8, 3);
    let mut buffer = Buffer::empty(area);
    buffer.set_string(0, 0, "welcome", ratatui::style::Style::default());
    let before = buffer.clone();
    render_logo(area, &mut buffer, &(), 40);
    render_full_logo(area, &mut buffer, &());
    render_compact_logo(area, &mut buffer, &());
    assert_eq!(buffer, before);
}
