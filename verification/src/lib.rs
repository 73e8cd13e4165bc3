//! The verified core of the Ever-Living menu-bar assistant: its preferences,
//! its shell decisions, and the procedures that start, stop and sweep away
//! its sidecar service.
pub mod text;
pub mod listing;
pub mod paths;
pub mod preferences;
pub mod shell;
pub mod sidecar;
pub mod search;
pub mod lifecycle_model;
pub mod lifecycle;
pub mod lifecycle_laws;
