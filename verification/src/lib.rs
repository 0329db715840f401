//! Bookkeeping for the floating panel windows of a desktop application.
//!
//! The application keeps a list of the secondary windows that it has made:
//! [`registry::WindowRegistry`]. The windows themselves belong to a window
//! host, which builds, moves, resizes and closes them. The commands in
//! [`service`] take what the host answered and say what the caller gets back
//! and what becomes of the list; [`laws`] states what holds of every run of
//! them.

pub mod decimal;
pub mod error;
pub mod greeting;
pub mod history;
pub mod host;
pub mod ident;
pub mod laws;
pub mod registry;
pub mod service;
