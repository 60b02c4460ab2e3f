//! Verified core of the herdr terminal multiplexer's helper logic.
use vstd::prelude::*;

pub mod assoc;
pub mod browser;
pub mod build_info;
pub mod clipboard_history;
pub mod fleet_ops;
pub mod github;
pub mod ipc;
pub mod order;
pub mod pane_template;
pub mod pi_sessions;
pub mod settings_catalog;
pub mod settings_config;
pub mod settings_input;
pub mod settings_mouse;
pub mod settings_persist;
pub mod settings_rows;
pub mod settings_state;
pub mod spinner;
pub mod tab;
pub mod template;
pub mod text;
pub mod timestamp;

verus! {

} // verus!
