//! The program's instructions: for each, the accounts it takes, the check of
//! their addresses, and the handler that carries it out.
pub mod fee;
pub mod initialize_config;
pub mod initialize_treasury;
pub mod pay_with_sol;
pub mod pay_with_token;
pub mod register_merchant;
pub mod withdraw_sol;
pub mod withdraw_token;
