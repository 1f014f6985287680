//! A minimal UDP request/response utility, split into a verified core and a
//! thin I/O shell.  The core covers the fixed-size buffer framing convention
//! (zero fill, trailing-fill trimming), the server's reply template, and the
//! client's single-endpoint resolution rule.

pub mod buffer;
pub mod codec;
pub mod endpoint;
pub mod reply;
pub mod server;
