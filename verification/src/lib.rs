//! Decisions behind the commands of a single-window desktop shell: closing the
//! window, showing a notification, and pinning the window as a strip along one
//! edge of the screen.
//!
//! Nothing here touches a window. Each command is given as the calls a host has
//! to make on its window and as the result that follows from how those calls
//! went, so that a host only performs calls and reports outcomes.

pub mod close;
pub mod edge;
pub mod error;
pub mod geometry;
pub mod notification;
pub mod quoting;
pub mod reposition;
pub mod startup;
pub mod text;
pub mod window;
