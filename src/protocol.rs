pub mod head;
pub mod http;
pub mod icap;
