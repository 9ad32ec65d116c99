//! Error types shared across the governed pipeline, and the contract version marker.
pub mod errors;
pub mod types;
pub mod version;
