//! Human-in-the-loop hand-off for an MCP tool server: the JSON-RPC dispatcher,
//! the interaction fallback chain, the terminal launcher and the response
//! synchronizer, with the configuration model they read.

pub mod chat;
pub mod cli;
pub mod client;
pub mod colors;
pub mod config;
pub mod display;
pub mod errors;
pub mod escape;
pub mod helpers;
pub mod init;
pub mod interaction;
pub mod json;
pub mod launch;
pub mod logger;
pub mod markdown;
pub mod memory;
pub mod popup;
pub mod probe;
pub mod server;
pub mod storage;
pub mod sync;
pub mod terminal;
pub mod text;
pub mod types;
pub mod ui;
