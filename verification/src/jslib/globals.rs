//! Global definitions for the script environment.

use vstd::prelude::*;

verus! {

/// Defines the environment's global objects; there are none yet.
#[allow(non_snake_case)]
pub fn defineAllGlobals() {
}

} // verus!
