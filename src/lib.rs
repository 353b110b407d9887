//! Engine abstraction and view multiplexing for embedded browsing surfaces.

pub mod image;
pub mod keyboard;
pub mod mouse;
pub mod engine;
pub mod views;
pub mod ultralight;
pub mod startpage;
pub mod webview;
pub mod menu;
pub mod widget;
