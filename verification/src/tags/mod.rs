//! Tags, dynamic AES-CMAC verification and tag administration.
pub mod entities;
pub mod provision;
pub mod cmac;
pub mod verify;
pub mod admin;
pub mod store;
pub mod dtos;
pub mod catalog;
pub mod records;
