//! Verified input handling, surface bookkeeping and instance layout for a
//! small wgpu scene with a free-look and an orbiting camera.
use vstd::prelude::*;

pub mod camera;
pub mod events;
pub mod input;
pub mod instances;
pub mod orbit;
pub mod surface;

verus! {

} // verus!
