//! Decoder and activity tracker for the structured build log of the Nix tools.
//!
//! A line of the log is decoded into a message ([`nix_logs::parser`]), the
//! message is applied to the state of the run ([`nix_logs::process_logs`]),
//! and at the end the state is turned into a report
//! ([`nix_tracker::types`]).

pub mod nix_logs;
pub mod nix_tracker;
