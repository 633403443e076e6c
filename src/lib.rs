//! Sensing layer of a honeypot: capture filters built from the host's own
//! addresses, classification of captured frames into typed packets, and the
//! per-session decisions of a capture loop.

pub mod address;
pub mod classify;
pub mod config;
pub mod filter;
pub mod packet;
pub mod session;
