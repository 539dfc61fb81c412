//! The marker component for the underground-base entity. The base's door
//! animations hang off the entity's parent scene node; the control system
//! looks the parent up through this marker.

use vstd::prelude::*;

verus! {

/// Marks the root entity of the underground base.
pub struct UndergroundBase;

} // verus!
