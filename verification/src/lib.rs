//! Decision logic of the RSI launcher maintenance tool: paths of a Wine
//! prefix, the launcher metadata parser, the configuration model, the
//! download and runner state machines and the application's event handling.
use vstd::prelude::*;

pub mod app_state;
pub mod bundle;
pub mod config;
pub mod config_editor;
pub mod download;
pub mod i18n;
pub mod launcher;
pub mod laws;
pub mod pages;
pub mod paths;
pub mod progress;
pub mod runner;
pub mod text;

verus! {

} // verus!
