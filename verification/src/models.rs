pub mod entry;
pub mod layout;
pub mod section;
