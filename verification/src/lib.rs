//! Nami: the verified core of a keyboard-driven terminal web browser.
pub mod text;
pub mod input;
pub mod sort;
pub mod clock;
pub mod config;
pub mod history;
pub mod bookmarks;
pub mod url_util;
pub mod content_blocking;
pub mod dom;
pub mod css;
pub mod render;
pub mod tabs;
pub mod fetch;
pub mod browser;
pub mod transform;
pub mod sink;
pub mod scripting;
pub mod layout;
