//! Main gameplay scene.

use vstd::prelude::*;

use crate::ui::gameplay::top_bar::TopBar;

verus! {

/// Main gameplay scene.
#[derive(Debug)]
pub struct MainScene {
    /// Bar at the top of the scene.
    pub top_bar: TopBar,
}

impl MainScene {
    /// Create the main scene.
    pub fn new() -> (res: Self)
        ensures
            res.top_bar == (TopBar {  }),
    {
        Self { top_bar: TopBar::new() }
    }
}

} // verus!
