pub mod alignment;
pub mod api;
pub mod auth;
pub mod cache;
pub mod calendar;
pub mod config;
pub mod display;
pub mod hyperlink;
pub mod lookup;
pub mod record_table;
pub mod style;
pub mod text;
