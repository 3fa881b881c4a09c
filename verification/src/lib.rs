pub mod error;
pub mod addr;
pub mod socks5;
pub mod codec_laws;
pub mod chain;
pub mod config;
pub mod handshake;
pub mod handshake_laws;
pub mod chain_laws;
pub mod session;
pub mod config_text;
pub mod config_laws;
