//! A diagnostic hook that is registered with the scheduler but currently
//! switched off: its pass reads nothing and changes nothing.

use vstd::prelude::*;

use crate::scene::Scene;

verus! {

/// A per-frame diagnostic pass, currently a no-op.
pub struct DebugSystem;

impl DebugSystem {
    /// Look at the scene and do nothing with it.
    pub fn run(&self, _scene: &Scene) {
    }
}

} // verus!
