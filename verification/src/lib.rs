//! Incremental-search overlay for a terminal application: a query buffer, a
//! key-sequence matcher, a search-backend abstraction, a result navigator and
//! the controller that ties them together.

pub mod action;
pub mod bindings;
pub mod key_event;
pub mod key_map;
pub mod mode;
pub mod plugin;
pub mod plugin_action;
pub mod sfs_telescope;
pub mod simple_input_machine;
pub mod telescope_backend;
pub mod telescope_commands;
pub mod telescope_query;
pub mod telescope_window;

pub use crate::plugin::{get_default_bindings, get_functionalities, Telescope};
pub use crate::telescope_window::{default_popup_action, open_sfs, popup_key_map, TelescopeWindow};
