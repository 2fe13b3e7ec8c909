//! Bar at the top of the gameplay screen.

use vstd::prelude::*;

verus! {

/// Bar at the top of the gameplay screen, with the date and speed controls.
#[derive(Debug)]
pub struct TopBar {}

impl TopBar {
    /// Create the top bar.
    pub fn new() -> (res: Self)
        ensures
            res == (TopBar {  }),
    {
        Self {  }
    }
}

} // verus!
