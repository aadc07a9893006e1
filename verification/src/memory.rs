//! The world: every cube that has been placed.

use crate::cube::{Cube, CubeView};
use crate::face::face_table;
use vstd::prelude::*;

verus! {

/// The cubes of the world, in the order in which they were placed.
pub struct Memory {
    pub cubes: Vec<Cube>,
}

impl View for Memory {
    type V = Seq<CubeView>;

    open spec fn view(&self) -> Seq<CubeView> {
        self.cubes@.map_values(|cube: Cube| cube@)
    }
}

impl Memory {
    /// A world that holds one cube, at the origin.
    pub fn new() -> (memory: Memory)
        ensures
            memory@ == seq![(CubeView { coord: (0int, 0int, 0int), faces: face_table() })],
    {
        let mut cubes: Vec<Cube> = Vec::new();
        cubes.push(Cube::new([0, 0, 0]));
        let memory = Memory { cubes };
        assert(memory@ =~= seq![(CubeView { coord: (0int, 0int, 0int), faces: face_table() })]);
        memory
    }
}

} // verus!
