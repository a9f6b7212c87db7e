//! Verified core of the Cloudreve desktop client: configuration, platform
//! abstractions, the sync planner and the decision logic behind the platform
//! integrations.

pub mod text;
pub mod config;
pub mod drive_types;
pub mod drive_config;
pub mod platform;
pub mod inventory;
pub mod paths;
pub mod remote;
pub mod sync_plan;
pub mod fs_events;
pub mod fetch;
pub mod ipc;
pub mod macos;
pub mod commands;
pub mod sync_run;
pub mod remote_walk;
pub mod shell;
pub mod windows;
pub mod placeholders;
pub mod upload;
pub mod links;
pub mod tasks;
pub mod runtime;
