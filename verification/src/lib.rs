//! Control policy for a pool of fixed-size swap files: when to add a file,
//! when to take one away, and what has to be done on the host for either.
//!
//! The crate decides; it performs no system call.  A caller samples memory,
//! hands the sample to the [`controller::Controller`], and carries out the
//! operations that come back, in the order given.

pub mod config;
pub mod controller;
pub mod files;
pub mod host;
pub mod memory;
pub mod ops;
