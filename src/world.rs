use vstd::prelude::*;
use crate::groups::CollisionGroups;

verus! {

/// What the game rules read of one entity: its tags, whether it is still
/// simulated on its own, its collision groups, its parent, if any, and the
/// id of the material it is drawn with.
#[derive(Clone, Copy, Debug, PartialEq, Eq, Structural)]
pub struct Body {
    pub entity: u64,
    pub player: bool,
    pub doodad: bool,
    pub rigid_body: bool,
    pub groups: Option<CollisionGroups>,
    pub parent: Option<u64>,
    pub material: u64,
}

/// Whether `e` is one of the bodies, and tagged as a doodad.
pub open spec fn is_tagged_doodad(bodies: Seq<Body>, e: u64) -> bool {
    exists|j: int| 0 <= j < bodies.len() && (#[trigger] bodies[j]).entity == e && bodies[j].doodad
}

/// Looks `e` up among the bodies and tells whether it carries the doodad tag.
pub fn tagged_doodad(bodies: &Vec<Body>, e: u64) -> (r: bool)
    ensures
        r == is_tagged_doodad(bodies@, e),
{
    let mut j: usize = 0;
    while j < bodies.len()
        invariant
            0 <= j <= bodies@.len(),
            forall|k: int| 0 <= k < j ==> !((#[trigger] bodies@[k]).entity == e && bodies@[k].doodad),
        decreases bodies@.len() - j,
    {
        if bodies[j].entity == e && bodies[j].doodad {
            return true;
        }
        j = j + 1;
    }
    false
}

} // verus!
