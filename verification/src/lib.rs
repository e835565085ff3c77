use vstd::prelude::*;

pub mod data;
pub mod input;
pub mod manager;
pub mod pattern;
pub mod plugin;
pub mod text;
pub mod utils;

verus! {
} // verus!
