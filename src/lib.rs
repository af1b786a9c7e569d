// A SOCKS4, SOCKS4a and SOCKS5 proxy: wire codec, address model, session
// coordinator and the decisions of each client connection.

pub mod error;
pub mod handler;
pub mod parse;
pub mod server;
pub mod socks;
pub mod wire;
