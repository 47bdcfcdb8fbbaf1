//! Request authorization and partial-update core of a task-tracking service.
pub mod error;
pub mod text;
pub mod listing;
pub mod json;
pub mod patch;
pub mod model;
pub mod apply;
pub mod credential;
pub mod token;
pub mod access;
pub mod session;
