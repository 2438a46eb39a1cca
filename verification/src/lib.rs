//! The configuration of an interactive shell session. Its core is the
//! variable store: named values of nested structure, looked up by dotted
//! paths and spliced into command lines in place of placeholders. Around it
//! stand the session's settings, their summary as a table, and the command
//! lines of two token scenarios.

pub mod config;
pub mod laws;
pub mod path;
pub mod store;
pub mod table;
pub mod template;
pub mod value;
pub mod xudt;
