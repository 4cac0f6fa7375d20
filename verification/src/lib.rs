//! Backend logic of the HiroTrack desktop time tracker.
//!
//! The application persists a two-field credential record (server URL and
//! API token) in a key-value document, forwards notifications to the OS,
//! and wires a system-tray icon with a three-item menu (Show, Hide, Quit)
//! to the visibility of the single main window.
//!
//! This crate holds the decision logic of that surface: the credential
//! document semantics, the window-visibility transitions, and the tray
//! event dispatch. The host framework performs the actual file, window
//! and tray operations; it hands this crate plain values and carries the
//! returned states and actions back out.

pub mod errors;
pub mod greet;
pub mod notify;
pub mod store;
pub mod tray;
pub mod window;
