//! The data the program keeps in its accounts.
pub mod config;
pub mod merchant;
pub mod payment;
pub mod treasury;
pub mod vault;
