//! Decoding of log lines and the state they drive.

pub mod helpers;
pub mod json;
pub mod parser;
pub mod process_logs;
pub mod run;
pub mod text;
pub mod types;
