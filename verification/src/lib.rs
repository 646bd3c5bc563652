//! Control-plane library for a supervised network-proxy engine.
//!
//! The library turns subscription feeds and manually entered proxy
//! endpoints into a validated engine configuration, models the
//! engine's process lifecycle as an explicit state machine, and plans
//! the self-upgrade of the running executable.  All I/O — HTTP,
//! processes, files — is performed by the surrounding application;
//! this crate holds the decisions and the data, and every function in
//! it is verified.

pub mod descriptor;
pub mod engine_config;
pub mod persisted;
pub mod probe;
pub mod selection;
pub mod subscription;
pub mod supervisor;
pub mod synthesis;
pub mod text;
pub mod upgrade;
pub mod version;
