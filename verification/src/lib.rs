pub mod event_core;
pub mod observer_error;
pub mod retry;
pub mod progress_map;
pub mod stream_sync;
pub mod receive_sync;
pub mod text;
pub mod decimal;
pub mod numeric;
pub mod swap;
pub mod auth;
pub mod app_error;
pub mod upload;
pub mod trade;
pub mod milestone;
pub mod metadata;
pub mod receive;
pub mod middleware;
pub mod cors;
pub mod query;
pub mod builder;
pub mod project;
