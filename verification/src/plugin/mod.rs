pub mod parser;
pub mod reader;
