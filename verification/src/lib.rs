//! Verified core of a small desktop application shell.
//!
//! The shell shows one window, gives it the translucency that the host
//! platform offers, and lets the interface in that window write and read
//! whole files as text. The windowing runtime and the file system do the
//! work; this crate holds what the shell decides: which bytes a write puts
//! into a file, which text a read takes out of it, which effect the window
//! gets on which platform, where the log goes, and with which diagnostic the
//! process ends when the host reports a failure.

pub mod fatal;
pub mod files;
pub mod logging;
pub mod text;
pub mod window;
