pub mod key;
pub mod types;
