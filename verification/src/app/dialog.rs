pub mod confirm_dialog;
pub mod search_entry_dialog;
pub mod text_input_dialog;
