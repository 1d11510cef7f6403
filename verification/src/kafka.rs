pub mod client_config;
pub mod consumer_mod;
pub mod kafka;
pub mod producer_mod;
