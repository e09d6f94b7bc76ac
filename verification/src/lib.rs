//! Verified core of an NFC anti-counterfeit service: signed one-time scan
//! tokens for static NDEF tags, AES-CMAC authenticated counters for dynamic
//! tags, and the decisions that turn lookups into verdicts.

pub mod text;
pub mod bytes;
pub mod crypto;
pub mod time;
pub mod error;
pub mod scan_tokens;
pub mod tags;
pub mod config;
pub mod server_config;
pub mod location;
pub mod person;
pub mod laws;
pub mod auth;
