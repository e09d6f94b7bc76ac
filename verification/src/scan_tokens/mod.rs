//! Signed one-time scan tokens for static NDEF tags.
pub mod entities;
pub mod codec;
pub mod usecases;
pub mod store;
pub mod dtos;
pub mod records;
