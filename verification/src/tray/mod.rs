//! The tray icon's menus and windows.
pub mod dialog;
pub mod dpi;
pub mod i18n;
pub mod menu;
pub mod popup;
pub mod popup_window;
pub mod sections;
pub mod traits;
