//! Countries, regions and postal addresses.
pub mod country;
pub mod address;
