//! Engine start-up options: the window settings the surrounding
//! application hands to its windowing backend.

use vstd::prelude::*;

verus! {

/// Window settings for the engine's surface, as plain values.
#[derive(Debug)]
pub struct EngineOptions {
    /// The window title.
    pub title: String,
    /// Smallest window size the user may resize to, in pixels.
    pub min_size: (u32, u32),
    /// Largest window size, in pixels, if bounded.
    pub max_size: Option<(u32, u32)>,
    /// Size the window opens with, in pixels, if fixed.
    pub initial_size: Option<(u32, u32)>,
    /// Whether the window has no decorations.
    pub borderless: bool,
}

impl EngineOptions {
    /// The default options: an "Engine" window of at least 100 by 100
    /// pixels, decorated, with no size caps.
    pub fn new() -> (o: EngineOptions)
        ensures
            o.title@ =~= "Engine"@,
            o.min_size == (100u32, 100u32),
            o.max_size is None,
            o.initial_size is None,
            !o.borderless,
    {
        EngineOptions {
            title: "Engine".to_string(),
            min_size: (100, 100),
            max_size: None,
            initial_size: None,
            borderless: false,
        }
    }
}

impl Default for EngineOptions {
    /// Same as [`EngineOptions::new`].
    fn default() -> (o: EngineOptions)
        ensures
            o.title@ =~= "Engine"@,
            o.min_size == (100u32, 100u32),
            o.max_size is None,
            o.initial_size is None,
            !o.borderless,
    {
        EngineOptions::new()
    }
}

} // verus!
