//! Verified core of lint-lang: model configuration, discovery, prompts and
//! output cleanup for a local grammar linter.
use vstd::prelude::*;

pub mod text;
pub mod tui;
pub mod tui_model_list;
pub mod units;
pub mod bundled;
pub mod cli;
pub mod config;
pub mod dirs;
pub mod discovery;
pub mod doctor;
pub mod download;
pub mod inference;
pub mod layout;
pub mod lint;
pub mod models;
pub mod path;
pub mod prompt;
pub mod ollama;
pub mod order;

verus! {

} // verus!
