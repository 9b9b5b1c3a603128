use vstd::prelude::*;
use crate::assets::MeshAssets;
use crate::physics::{collider_bundle_of, ColliderBundle, Placement};
use crate::world::{is_tagged_doodad, tagged_doodad, Body};

verus! {

/// Tag of a free doodad.
#[derive(Clone, Copy, Debug, PartialEq, Eq, Structural)]
pub struct Doodad;

/// One spawn attempt per second.
pub const SPAWN_PERIOD_US: u64 = 1_000_000;

/// Horizontal position of the spawn point.
pub const SPAWN_X: i32 = 100;

/// Vertical position of the spawn point.
pub const SPAWN_Y: i32 = 0;

/// Drawing depth of a new doodad.
pub const SPAWN_Z: i32 = 10;

/// Side length of a doodad: the unit square scaled by this on each axis.
pub const DOODAD_SCALE: u32 = 20;

/// A repeating timer over microseconds.
#[derive(Clone, Copy, Debug, PartialEq, Eq, Structural)]
pub struct SpawnTimer {
    pub period_us: u64,
    pub elapsed_us: u64,
}

impl SpawnTimer {
    pub open spec fn wf(self) -> bool {
        0 < self.period_us && self.elapsed_us < self.period_us
    }

    /// A timer that has just been started.
    pub fn new(period_us: u64) -> (r: SpawnTimer)
        requires
            period_us > 0,
        ensures
            r.wf(),
            r.period_us == period_us,
            r.elapsed_us == 0,
    {
        SpawnTimer { period_us, elapsed_us: 0 }
    }

    /// Advances the timer; it fires when a period is completed, and starts
    /// again with whatever time passed beyond the period's end.
    pub fn tick(&mut self, delta_us: u64) -> (fired: bool)
        requires
            old(self).wf(),
        ensures
            final(self).wf(),
            final(self).period_us == old(self).period_us,
            fired == (old(self).elapsed_us + delta_us >= old(self).period_us),
            final(self).elapsed_us == (old(self).elapsed_us + delta_us) % (old(self).period_us as int),
    {
        let left = self.period_us - self.elapsed_us;
        if delta_us >= left {
            let over = delta_us - left;
            proof {
                let p = self.period_us as int;
                let e = self.elapsed_us as int;
                let d = delta_us as int;
                assert(e + d == (over as int) + p);
                vstd::arithmetic::div_mod::lemma_mod_add_multiples_vanish(over as int, p);
            }
            self.elapsed_us = over % self.period_us;
            true
        } else {
            proof {
                vstd::arithmetic::div_mod::lemma_small_mod(
                    (self.elapsed_us + delta_us) as nat,
                    self.period_us as nat,
                );
            }
            self.elapsed_us = self.elapsed_us + delta_us;
            false
        }
    }
}

/// Where new doodads appear.
pub open spec fn spawn_placement() -> Placement {
    Placement { x: SPAWN_X, y: SPAWN_Y, z: SPAWN_Z, scale_x: DOODAD_SCALE, scale_y: DOODAD_SCALE }
}

pub fn spawn_point() -> (r: Placement)
    ensures
        r == spawn_placement(),
{
    Placement { x: SPAWN_X, y: SPAWN_Y, z: SPAWN_Z, scale_x: DOODAD_SCALE, scale_y: DOODAD_SCALE }
}

/// Whether a doodad is among the shapes found at the spawn point.
pub open spec fn spawn_blocked(bodies: Seq<Body>, hits: Seq<u64>) -> bool {
    exists|i: int| 0 <= i < hits.len() && is_tagged_doodad(bodies, #[trigger] hits[i])
}

/// The doodad a successful attempt creates.
pub open spec fn spawned_doodad(assets: MeshAssets) -> ColliderBundle {
    ColliderBundle { placement: spawn_placement(), ..collider_bundle_of(assets.square) }
}

/// The spawn attempt made when the timer has fired. `hits` are the entities
/// whose shapes meet a unit square at the spawn point, and `bodies` tells
/// which of them are doodads. When no doodad is in the way the doodad to
/// create is returned; otherwise nothing is, and the next attempt waits for
/// the next firing.
pub fn spawn_at_free_point(
    hits: &Vec<u64>,
    bodies: &Vec<Body>,
    assets: &MeshAssets,
) -> (r: Option<ColliderBundle>)
    ensures
        r == (if !spawn_blocked(bodies@, hits@) {
            Some(spawned_doodad(*assets))
        } else {
            None::<ColliderBundle>
        }),
{
    let mut i: usize = 0;
    while i < hits.len()
        invariant
            0 <= i <= hits@.len(),
            forall|k: int| 0 <= k < i ==> !is_tagged_doodad(bodies@, #[trigger] hits@[k]),
        decreases hits@.len() - i,
    {
        if tagged_doodad(bodies, hits[i]) {
            return None;
        }
        i = i + 1;
    }
    let bundle = ColliderBundle::from(&assets.square).with_transform(spawn_point());
    Some(bundle)
}

/// One frame of the spawner: the timer advances, and when it fires the
/// attempt of `spawn_at_free_point` is made over `hits` and `bodies`.
pub fn spawn_doodads(
    timer: &mut SpawnTimer,
    delta_us: u64,
    hits: &Vec<u64>,
    bodies: &Vec<Body>,
    assets: &MeshAssets,
) -> (r: Option<ColliderBundle>)
    requires
        old(timer).wf(),
    ensures
        final(timer).wf(),
        final(timer).period_us == old(timer).period_us,
        final(timer).elapsed_us == (old(timer).elapsed_us + delta_us) % (old(timer).period_us as int),
        r == (if old(timer).elapsed_us + delta_us >= old(timer).period_us && !spawn_blocked(bodies@, hits@) {
            Some(spawned_doodad(*assets))
        } else {
            None::<ColliderBundle>
        }),
{
    if timer.tick(delta_us) {
        spawn_at_free_point(hits, bodies, assets)
    } else {
        None
    }
}

/// While a doodad that the query at the spawn point reports still carries
/// its tag, the spawner is blocked: no attempt creates a second doodad there.
pub proof fn lemma_occupied_point_blocks_spawn(bodies: Seq<Body>, hits: Seq<u64>, occupant: u64)
    requires
        hits.contains(occupant),
        is_tagged_doodad(bodies, occupant),
    ensures
        spawn_blocked(bodies, hits),
{
    let i = choose|i: int| 0 <= i < hits.len() && hits[i] == occupant;
    assert(is_tagged_doodad(bodies, hits[i]));
}

} // verus!
