//! The numeric knobs of a list instance.

use vstd::prelude::*;

verus! {

/// Settings of one list instance. All of them are plain numbers.
#[derive(Clone, Copy, Debug, PartialEq, Eq, Structural)]
pub struct Config {
    /// How many items one edge crossing adds.
    pub paging_batch_size: usize,
    /// How many items the window holds at mount.
    pub initial_fill_size: usize,
    /// Width of the guard band at either end of the content. An offset at or
    /// inside the band triggers a load, and no corrected offset rests in the top band.
    pub edge_margin: i64,
    /// How many items are evicted from the far end after a grow.
    pub eviction_count: usize,
}

/// The settings used where the host gives none: pages of 5, a first fill of 15,
/// a guard band of 50 units, and 5 evictions for each grow.
pub open spec fn default_config() -> Config {
    Config { paging_batch_size: 5, initial_fill_size: 15, edge_margin: 50, eviction_count: 5 }
}

impl Config {
    /// The first offset above the guard band must be representable.
    pub open spec fn valid(self) -> bool {
        self.edge_margin < i64::MAX
    }

    /// Whether a grow is always undone in full by the eviction that follows it.
    pub open spec fn evicts_whole_batches(self) -> bool {
        self.eviction_count >= self.paging_batch_size
    }

    /// Tests `valid`.
    pub fn is_valid(&self) -> (ok: bool)
        ensures
            ok == self.valid(),
    {
        self.edge_margin < i64::MAX
    }

    /// The default settings with another guard band.
    pub fn with_edge_margin(edge_margin: i64) -> (config: Config)
        ensures
            config == (Config { edge_margin, ..default_config() }),
    {
        Config { paging_batch_size: 5, initial_fill_size: 15, edge_margin, eviction_count: 5 }
    }
}

impl Default for Config {
    fn default() -> (config: Config)
        ensures
            config == default_config(),
            config.valid(),
    {
        Config { paging_batch_size: 5, initial_fill_size: 15, edge_margin: 50, eviction_count: 5 }
    }
}

} // verus!
