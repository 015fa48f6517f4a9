pub mod execution;
pub mod output;
pub mod process;
pub mod laws;
