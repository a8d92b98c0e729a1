//! Status-area companion for a remote time tracker: the tray icon compositor,
//! the elapsed-time presentation cache, the event-stream decoder and the
//! hotkey toggle state machine.
pub mod api;
pub mod canvas;
pub mod compositor;
pub mod hotkey;
pub mod model;
pub mod presentation;
pub mod rate;
pub mod shape;
pub mod stream;
pub mod text;
pub mod textmatch;

pub use shape::is_inside_rounded_rect;
