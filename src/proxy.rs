pub mod http;
pub mod laws;
