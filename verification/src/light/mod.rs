//! Lights.

use vstd::prelude::*;
use crate::vector::Vector3;

pub mod directional;

verus! {

/// A light as a shader sees it: a place, and the name of the uniform that
/// receives it.
#[derive(Debug)]
pub struct Directional {
    pub position: Vector3,
    pub name: String,
}

impl Directional {
    /// The light at `position` whose uniform is called `name`.
    pub fn new(name: String, position: Vector3) -> (d: Directional)
        ensures
            d.name == name,
            d.position == position,
    {
        Directional { name, position }
    }
}

} // verus!
