pub mod channel;
pub mod dialog;
pub mod format;
pub mod group;
pub mod matching;
pub mod plans;
pub mod sheet;
