//! Verified core of a terminal translation and dictionary tool.
pub mod text;
pub mod width;
pub mod json;
pub mod error;
pub mod dict;
pub mod google;
pub mod microsoft;
pub mod theme;
pub mod history;
pub mod cache;
pub mod layout;
pub mod keys;
pub mod app_state;
pub mod cli;
pub mod view;
pub mod screen;
pub mod card;
