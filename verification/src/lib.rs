//! The decision logic of an MCP server that generates videos through the
//! Grok video API.

pub mod config;
pub mod download;
pub mod encoding;
pub mod laws;
pub mod media;
pub mod outside;
pub mod path;
pub mod poll;
pub mod request;
pub mod server;
pub mod status;
pub mod text;
pub mod validate;
