use vstd::prelude::*;

verus! {

/// Hook run once before the first frame; there is nothing to prepare.
pub fn setup() {
}

} // verus!
