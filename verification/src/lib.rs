//! Core logic of the `giggles` command-line tool: credential storage,
//! input classification, upload request framing, login polling decisions
//! and batch reporting.

pub mod text;
pub mod config;
pub mod resolve;
pub mod http;
pub mod upload;
pub mod login;
pub mod shell;
pub mod flow;
