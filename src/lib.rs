//! A small windowing core: the events a window reports, the platform's
//! virtual-key codes, and the decisions behind the window's message pump,
//! its construction and teardown, and swap-interval control.

pub mod controls;
pub mod event;
pub mod key;
pub mod lifecycle;
pub mod message;
pub mod pump;
pub mod surface;

pub use event::Event;
