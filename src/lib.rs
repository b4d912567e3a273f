//! A TCP reverse-tunneling service: its wire framing and messages, the
//! server's tunnel registry, data-connection pool and port allocator, the
//! decisions both ends take on their control links, and the configuration.

pub mod config;
pub mod frame;
pub mod local;
pub mod message;
pub mod pool;
pub mod ports;
pub mod registry;
pub mod server;
pub mod text;
