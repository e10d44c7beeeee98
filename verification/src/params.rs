//! Application-level parameters: window title and dimensions.

use vstd::prelude::*;

verus! {

/// Name and window size the renderer is started with.
pub struct AppParameters {
    pub name: String,
    pub window_width: i32,
    pub window_height: i32,
}

impl AppParameters {
    /// A parameter set is usable when both window dimensions are positive.
    pub open spec fn wf(&self) -> bool {
        0 < self.window_width && 0 < self.window_height
    }
}

impl Default for AppParameters {
    /// The stock configuration: a 1280 by 720 window.
    fn default() -> (r: Self)
        ensures
            r.name@ == "Rulkan"@,
            r.window_width == 1280,
            r.window_height == 720,
            r.wf(),
    {
        Self {
            name: "Rulkan".to_string(),
            window_width: 1280,
            window_height: 720,
        }
    }
}

} // verus!
