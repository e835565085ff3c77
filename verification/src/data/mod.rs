pub mod format;
pub mod list;
