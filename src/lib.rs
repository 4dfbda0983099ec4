use vstd::prelude::*;

pub mod config;
pub mod hints;
pub mod keys;
pub mod labels;
pub mod navigation;
pub mod parse;
pub mod tiling;
