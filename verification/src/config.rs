//! The thresholds and sizes that the controller is configured with.

use vstd::prelude::*;

verus! {

/// Size of the zero-filled buffer written at a time while a file is filled.
pub const SWAPFC_BUF_SIZE: usize = 4194304;

/// Free percentage below which the pool grows.
pub const SWAPFC_FREE_PERC: u8 = 15;

/// Free swap percentage below which the pool shrinks.
pub const SWAPFC_REMOVE_FREE_PERC: u8 = 55;

/// Size of one swap file in bytes.
pub const SWAPFC_CHUNK_SIZE: usize = 268435456;

/// Largest number of swap files the pool may hold.
pub const SWAPFC_MAX_COUNT: u8 = 32;

/// Number of swap files created at startup and kept from then on.
pub const SWAPFC_MIN_COUNT: u8 = 0;

/// Seconds between two samples.
pub const SAMPLE_INTERVAL_SECS: u64 = 1;

/// The configuration of a controller.
#[derive(Clone, Copy, Debug, PartialEq, Eq, Structural)]
pub struct Config {
    /// Growth threshold: applied to free RAM while the pool is empty and to
    /// free swap once it holds a file.
    pub free_perc: u8,
    /// Shrink threshold, strictly above `free_perc`.
    pub remove_free_perc: u8,
    /// Floor of the pool: created at startup, never shrunk below.
    pub min_count: u8,
    /// Ceiling of the pool.
    pub max_count: u8,
    /// Bytes per swap file.
    pub chunk_size: usize,
    /// Bytes per write while a file is filled; not zero.
    pub buf_size: usize,
}

/// Why a configuration is rejected.
#[derive(Clone, Copy, Debug, PartialEq, Eq, Structural)]
pub enum ConfigError {
    /// The shrink threshold is not above the growth threshold.
    ThresholdsNotOrdered,
    /// The floor is above the ceiling.
    FloorAboveCeiling,
    /// The write buffer is empty.
    EmptyBuffer,
}

impl Config {
    /// What makes a configuration usable.
    pub open spec fn valid(self) -> bool {
        &&& self.free_perc < self.remove_free_perc
        &&& self.min_count <= self.max_count
        &&& self.buf_size > 0
    }

    /// The first defect of a configuration, in the order thresholds, bounds,
    /// buffer; `None` for a valid one.
    pub open spec fn defect(self) -> Option<ConfigError> {
        if self.free_perc >= self.remove_free_perc {
            Some(ConfigError::ThresholdsNotOrdered)
        } else if self.min_count > self.max_count {
            Some(ConfigError::FloorAboveCeiling)
        } else if self.buf_size == 0 {
            Some(ConfigError::EmptyBuffer)
        } else {
            None
        }
    }

    /// Checks a configuration and names its first defect.
    pub fn check(&self) -> (res: Result<(), ConfigError>)
        ensures
            res is Ok <==> self.valid(),
            res == (match self.defect() {
                Some(e) => Err::<(), ConfigError>(e),
                None => Ok(()),
            }),
    {
        if self.free_perc >= self.remove_free_perc {
            Err(ConfigError::ThresholdsNotOrdered)
        } else if self.min_count > self.max_count {
            Err(ConfigError::FloorAboveCeiling)
        } else if self.buf_size == 0 {
            Err(ConfigError::EmptyBuffer)
        } else {
            Ok(())
        }
    }
}

impl Default for Config {
    /// The stock configuration.
    fn default() -> (config: Config)
        ensures
            config == (Config {
                free_perc: SWAPFC_FREE_PERC,
                remove_free_perc: SWAPFC_REMOVE_FREE_PERC,
                min_count: SWAPFC_MIN_COUNT,
                max_count: SWAPFC_MAX_COUNT,
                chunk_size: SWAPFC_CHUNK_SIZE,
                buf_size: SWAPFC_BUF_SIZE,
            }),
            config.valid(),
    {
        Config {
            free_perc: SWAPFC_FREE_PERC,
            remove_free_perc: SWAPFC_REMOVE_FREE_PERC,
            min_count: SWAPFC_MIN_COUNT,
            max_count: SWAPFC_MAX_COUNT,
            chunk_size: SWAPFC_CHUNK_SIZE,
            buf_size: SWAPFC_BUF_SIZE,
        }
    }
}

} // verus!
