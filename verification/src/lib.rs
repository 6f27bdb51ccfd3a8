//! Polling weather client: duration strings, location tokens, a per-category
//! cache of provider documents, and the decisions of the refresh/notify loop.

pub mod api;
pub mod daemon;
pub mod document;
pub mod location;
pub mod notification;
pub mod report;
pub mod text;
pub mod utils;
