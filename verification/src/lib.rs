//! Decision logic behind the tab switcher, the task picker and the
//! tool-permission settings page, stated over plain values.

pub mod modal_editing;
pub mod text;
pub mod ordering;
pub mod label_order;
pub mod tab_switcher;
pub mod tasks_modal;
pub mod tool_permissions;
pub mod permission_settings;
pub mod rule_preview;
pub mod settings_pages;
pub mod page_model;
pub mod pages;
pub mod setting_writes;
