//! A line-delimited JSON-RPC 2.0 server for the Model Context Protocol, with
//! the Kagi search, summarizer, FastGPT and enrichment tools behind it.
pub mod json;
pub mod text;
pub mod protocol;
pub mod server;
pub mod transport;
pub mod laws;
pub mod kagi;
pub mod format;
pub mod tools;
pub mod extension;
