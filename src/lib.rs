//! A client-side core for the TACACS+ protocol: the wire codec for headers
//! and accounting bodies, the MD5 body obfuscation, and the bookkeeping of
//! sessions multiplexed over one connection.

pub mod bytes;
pub mod command;
pub mod driver;
pub mod enumerations;
pub mod error;
pub mod flags;
pub mod header;
pub mod obfuscation;
pub mod accounting_reply;
pub mod accounting_request;
pub mod packet;
pub mod session;
pub mod session_manager;
