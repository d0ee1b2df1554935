//! The tuning configuration handed through to the underlying engine. The
//! store treats every field as opaque beyond passing it on.

use vstd::prelude::*;

verus! {

/// Default number of background flush jobs.
pub const BACKGROUND_FLUSHES: i32 = 2;

/// Default number of background compaction jobs.
pub const BACKGROUND_COMPACTIONS: i32 = 2;

/// Default write buffer size in bytes.
pub const WRITE_BUFFER_SIZE: usize = 4 * 64 * 1024 * 1024;

/// Compaction tuning handed through to the engine. The engine's
/// floating-point level-size multiplier is not held here; the embedding
/// that talks to the engine carries that knob itself.
#[derive(Clone, Copy, Debug, PartialEq)]
pub struct Compaction {
    /// Target file size of the first compaction level.
    pub target_file_size_base: u64,
    /// Maximum number of concurrent background compaction jobs.
    pub max_background_compactions: Option<i32>,
}

impl Default for Compaction {
    fn default() -> (c: Compaction)
        ensures
            c.target_file_size_base == 64 * 1024 * 1024,
            c.max_background_compactions is None,
    {
        Compaction { target_file_size_base: 64 * 1024 * 1024, max_background_compactions: None }
    }
}

/// Store configuration.
#[derive(Clone, Copy, Debug)]
pub struct Config {
    /// Whether writes go through the engine's write-ahead log.
    pub wal: bool,
    /// Number of categories to pre-create as engine columns; no numbered
    /// columns are created when absent.
    pub category_num: Option<u32>,
    /// Number of files the engine may hold open.
    pub max_open_files: i32,
    /// Compaction tuning.
    pub compaction: Compaction,
    /// Parallelism hint; a good value is the number of cores.
    pub increase_parallelism: Option<i32>,
}

impl Config {
    /// A configuration with default parameters and the given number of
    /// categories.
    pub fn with_category_num(category_num: Option<u32>) -> (c: Config)
        ensures
            c.category_num == category_num,
            c.wal == true,
            c.max_open_files == 512,
            c.compaction.target_file_size_base == 64 * 1024 * 1024,
            c.compaction.max_background_compactions is None,
            c.increase_parallelism is None,
    {
        let mut config = Config::default();
        config.category_num = category_num;
        config
    }
}

impl Default for Config {
    fn default() -> (c: Config)
        ensures
            c.wal == true,
            c.category_num is None,
            c.max_open_files == 512,
            c.compaction.target_file_size_base == 64 * 1024 * 1024,
            c.compaction.max_background_compactions is None,
            c.increase_parallelism is None,
    {
        Config {
            wal: true,
            category_num: None,
            max_open_files: 512,
            compaction: Compaction::default(),
            increase_parallelism: None,
        }
    }
}

} // verus!
