pub mod label;
