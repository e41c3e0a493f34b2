//! A verified model of the command/event bridge between a front end and a
//! native application host: encoded values and typed codecs, the host call
//! gateway, resource handles, channels, event subscriptions and the local
//! callback registry, together with the plain data types of the feature
//! modules (windows, menus, dialogs, notifications, sizes and positions).
pub mod value;
pub mod codec;
pub mod error;
pub mod gateway;
pub mod registry;
pub mod channel;
pub mod event;
pub mod dpi;
pub mod application;
pub mod notification;
pub mod dialog;
pub mod menu;
pub mod window;
pub mod updater;
