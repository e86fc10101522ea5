pub mod glyph_layout_view;
pub mod glyph_read_view;
pub mod glyph_edit_view;
pub mod glyph_page;
pub mod glyph_viewer;
pub mod entrance_page;
