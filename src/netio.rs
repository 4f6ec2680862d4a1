pub mod work;
