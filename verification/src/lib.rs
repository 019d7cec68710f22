//! Local-first core of the desktop companion: record kinds and contracts,
//! the widget grid, read projections, and the decisions of the sync engine.

pub mod text;
pub mod kinds;
pub mod json;
pub mod ids;
pub mod time;
pub mod models;
pub mod contract;
pub mod widget_catalog;
pub mod layout;
pub mod projections;
pub mod desktop_layout;
pub mod sort;
pub mod commands;
pub mod sync_error;
pub mod pull;
pub mod drain;
pub mod push;
pub mod config;
pub mod session;
pub mod oauth;
pub mod device;
pub mod local_prefs;
pub mod mcp;
pub mod companion;
pub mod store;
pub mod shell;
