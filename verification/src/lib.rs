//! Verified core of the Prose Pod Server: configuration rules and
//! defaults, analytics event processing, JIDs, the lifecycle state machine,
//! error responses, service account secrets, the Workspace profile,
//! backup listing and progress, and the first steps of bootstrapping.

pub mod analytics;
pub mod app_config;
pub mod auth;
pub mod avatar;
pub mod backups;
pub mod defaults;
pub mod duration;
pub mod errors;
pub mod jid;
pub mod json;
pub mod lifecycle;
pub mod pod_api;
pub mod presets;
pub mod secrets;
pub mod startup;
pub mod state;
pub mod text;
pub mod users;
pub mod workspace;
