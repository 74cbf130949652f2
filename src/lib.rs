use vstd::prelude::*;

pub mod color;
pub mod intersect;
pub mod framebuffer;
pub mod render;

verus! {

} // verus!
