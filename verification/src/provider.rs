//! Font enumeration, classification, and the in-memory font database.

pub mod fontdatabase;
pub mod fontprovider;
pub mod platform;
