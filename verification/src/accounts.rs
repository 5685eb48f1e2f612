//! Compact layouts of the configuration and payment records, with their fixed sizes.
pub mod config;
pub mod payment;
