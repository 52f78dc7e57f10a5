//! The page of the channels.

use vstd::prelude::*;

verus! {

/// The state of the page of the channels, which has none yet.
pub struct Logic {}

impl Logic {
    pub fn new() -> (logic: Self) {
        Logic {  }
    }
}

} // verus!
