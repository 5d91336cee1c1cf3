//! A local font-service companion library.
//!
//! The library holds the verified core of a small HTTPS daemon that lets one
//! fixed web origin enumerate the fonts installed on the machine and fetch
//! font-file bytes. Everything that talks to the operating system (the native
//! font-config calls, sockets, TLS, file reads) lives outside this crate and
//! hands the library plain values.

pub mod bootstrap;
pub mod dto;
pub mod middleware;
pub mod provider;
pub mod query;
pub mod route;
pub mod serverstate;

pub use serverstate::ServerState;
pub use serverstate::ServerStateErr;
