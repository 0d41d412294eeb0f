//! Core of a system tray icon library: identifier allocation, validated icon
//! bitmaps, tray event values, routing of tray events to a handler or a queue,
//! and the builder that gathers a tray icon's attributes.
pub mod counter;
pub mod dispatch;
pub mod error;
pub mod event;
pub mod icon;
pub mod tray;
pub mod tray_icon_id;

pub use counter::Counter;
pub use dispatch::{EventChannel, EventDispatcher, Routing};
pub use error::{os_error_message, Error};
pub use event::{MouseButton, MouseButtonState, Position, Rect, Size, TrayIconEvent};
pub use icon::{BadIcon, Icon};
pub use tray::{PlatformTray, TrayIcon, TrayIconAttributes, TrayIconBuilder};
pub use tray_icon_id::TrayIconId;
