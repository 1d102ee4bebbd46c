//! Application settings and the switchable feature modules.

pub mod config;
pub mod persistence;
pub mod ui_settings;
mod module_registry;

pub use module_registry::{known_module_ids, module_registry_view, ModuleEntry, ModuleRegistry};
