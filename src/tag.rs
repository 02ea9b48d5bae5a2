pub mod types;
pub mod values;
