//! Panel with the player's civilisation.

use vstd::prelude::*;

verus! {

/// Panel with the name, population and needs of the player's civilisation.
#[derive(Debug)]
pub struct LeftPanel {}

} // verus!
