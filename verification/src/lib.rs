//! Single-instance lifecycle core of the desktop shell: where the lock record
//! lives, what it holds, how a stale server is reaped, and how shutdown tears
//! the supervised child down.

pub mod config;
pub mod decimal;
pub mod failure;
pub mod lock_file;
pub mod path;
pub mod reaper;
pub mod relay;
pub mod supervisor;
pub mod text;
pub mod ui;
pub mod whitespace;
