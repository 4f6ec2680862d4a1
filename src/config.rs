pub mod config_json;
pub mod local_json;
