//! Jobless core: configuration, paths, secrets, the browser-worker wire
//! protocol and the lifecycle decisions of the desktop client.

pub mod config;
pub mod credentials;
pub mod frame;
pub mod manager;
pub mod paths;
pub mod protocol;
pub mod runtime;
pub mod secrets;
pub mod sqlite;
pub mod storage;
pub mod text;
pub mod transport;
pub mod ui;
