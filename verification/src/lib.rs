//! The decision logic of a language server for Tan sources: translating byte
//! offsets into protocol positions, turning parser errors into diagnostics,
//! extracting typed parameters from protocol messages, answering requests and
//! driving the server's life cycle.
//!
//! Everything here computes on values; reading from and writing to the
//! client, and reading files, is left to the program that embeds the library.

pub mod characters;
pub mod decode;
pub mod diagnostics;
pub mod dispatch;
pub mod extract;
pub mod message;
pub mod params;
pub mod position;
pub mod server;
