pub mod create;
pub mod file;
pub mod remove;
