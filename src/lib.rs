//! Core logic of a desktop shell that serves a local application bundle over a
//! loopback HTTP endpoint and configures the window that displays it.
pub mod text;
pub mod content_type;
pub mod manifest;
pub mod server;
pub mod geometry;
pub mod commands;
pub mod bootstrap;
