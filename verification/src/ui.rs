//! The state behind the generation-settings panel: the terrain size the user
//! picked and, optionally, a fixed seed to generate from.

use vstd::prelude::*;

verus! {

/// Settings chosen in the generation panel.
pub struct UI {
    width: u8,
    height: u8,
    seed: u64,
    define_seed: bool,
}

impl UI {
    /// The chosen terrain width, in tiles.
    pub closed spec fn width(&self) -> u8 {
        self.width
    }

    /// The chosen terrain height, in tiles.
    pub closed spec fn height(&self) -> u8 {
        self.height
    }

    /// The seed to generate from, meaningful only while a seed is defined.
    pub closed spec fn seed(&self) -> u64 {
        self.seed
    }

    /// Whether generation should use the fixed seed instead of entropy.
    pub closed spec fn defines_seed(&self) -> bool {
        self.define_seed
    }

    /// Creates the panel state with its defaults: a five-by-five terrain and
    /// no fixed seed.
    pub fn new() -> (ui: UI)
        ensures
            ui.width() == 5,
            ui.height() == 5,
            ui.seed() == 0,
            !ui.defines_seed(),
    {
        UI { width: 5, height: 5, seed: 0, define_seed: false }
    }
}

} // verus!
