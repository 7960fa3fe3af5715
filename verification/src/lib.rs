//! Reactive bridge between a window manager's event bus and its command
//! interface: it watches focus and layout notifications and toggles the
//! tiling orientation of the focused window by its aspect ratio
//! (tall window -> vertical split, wide window -> horizontal split).

pub mod commands;
pub mod container;
pub mod decode;
pub mod dispatch;
pub mod event;
pub mod policy;
pub mod resolver;
