pub mod a3953;
pub mod common;
