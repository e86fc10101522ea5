pub mod directory_list;
pub mod number_field;
pub mod option_menu;
pub mod text_editor;
pub mod text_field;
