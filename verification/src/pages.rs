//! The entries of each settings page, in page order.

pub mod general;
pub mod appearance;
pub mod keymap;
pub mod editor;
pub mod language_settings;
pub mod languages_and_tools;
pub mod search_and_files;
pub mod window_and_layout;
pub mod panels;
pub mod debugger;
pub mod terminal;
pub mod version_control;
pub mod collaboration;
pub mod ai;
pub mod network;
pub mod developer;
