//! Portable product-state reducers for a terminal workspace shell.

use vstd::prelude::*;

pub mod appearance;
pub mod application;
pub mod benchmark;
pub mod block;
pub mod chrome;
pub mod client;
pub mod chrome_depth;
pub mod chrome_laws;
pub mod chrome_palette;
pub mod composer;
pub mod control;
pub mod config;
pub mod fixtures;
pub mod host_abi;
pub mod ids;
pub mod input_policy;
pub mod live_tail;
pub mod palette;
pub mod palette_laws;
pub mod poll;
pub mod presentation;
pub mod product;
pub mod receive;
pub mod settings;
pub mod shell;
pub mod text;
pub mod toml;

verus! {
} // verus!
