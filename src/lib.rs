//! Desktop wallpaper layer: locating the shell's background container, injecting a
//! content surface into it, and routing system-wide pointer input between that
//! surface and the native desktop-icon layer.

pub mod handle;
pub mod pointer;
pub mod relay;
pub mod ownership;
pub mod double_click;
pub mod class_name;
pub mod error;
pub mod locator;
pub mod hook;
pub mod lifecycle;
pub mod injector;
pub mod leave;
pub mod text;
pub mod url_parts;
pub mod validation;
pub mod version;
pub mod media;
pub mod monitor;
pub mod events;
pub mod commands;
pub mod layer_mode;
