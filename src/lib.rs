pub mod config;
pub mod netio;
pub mod protocol;
pub mod proxy;
