pub mod form;
pub mod list;
pub mod table;
