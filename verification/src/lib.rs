//! Verified core of the Faderpunk controller firmware: channel layouts, app
//! parameter handling, storage addressing, signal routing, clock handling and
//! the pure note/pattern logic of the built-in apps.

pub mod app;
pub mod apps;
pub mod config;
pub mod fpapp_runtime;
pub mod fpapps;
pub mod layout;
pub mod routing;
pub mod scaling;
pub mod state;
pub mod storage;
pub mod tables;
pub mod types;
