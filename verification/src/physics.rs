//! Collision groups of the physics world, and the simulation rate that is
//! lowered under heavy load and restored once the load is light again.

use vstd::prelude::*;

verus! {

/// Group bits, one per kind of collider.
pub const PLANT_GROUP: u32 = 1;
pub const ZOMBIE_GROUP: u32 = 2;
/// Reserved for path projectiles, which have no collider.
pub const NORMAL_PROJECTILE_GROUP: u32 = 4;
pub const PHYSICS_PROJECTILE_GROUP: u32 = 8;
pub const WORLD_BOUNDARY_GROUP: u32 = 16;
pub const MOWER_GROUP: u32 = 32;
pub const TORCHWOOD_GROUP: u32 = 64;

/// The groups a collider belongs to and the groups it may interact with.
#[derive(Clone, Copy, Debug, PartialEq, Eq, Structural)]
pub struct CollisionGroups {
    pub memberships: u32,
    pub filters: u32,
}

/// Whether two colliders interact: each belongs to a group the other
/// accepts. This is the physics engine's test for groups built from
/// `CollisionGroups`.
pub open spec fn interacts(a: CollisionGroups, b: CollisionGroups) -> bool {
    (a.memberships & b.filters) != 0 && (b.memberships & a.filters) != 0
}

/// Plants: in the plant group, accepting zombies and mowers.
pub fn plant_groups() -> (r: CollisionGroups)
    ensures
        r == (CollisionGroups { memberships: PLANT_GROUP, filters: ZOMBIE_GROUP | MOWER_GROUP }),
{
    CollisionGroups { memberships: PLANT_GROUP, filters: ZOMBIE_GROUP | MOWER_GROUP }
}

/// Zombies: in the zombie group, accepting physics projectiles.
pub fn zombie_groups() -> (r: CollisionGroups)
    ensures
        r == (CollisionGroups { memberships: ZOMBIE_GROUP, filters: PHYSICS_PROJECTILE_GROUP }),
{
    CollisionGroups { memberships: ZOMBIE_GROUP, filters: PHYSICS_PROJECTILE_GROUP }
}

/// Physics projectiles: accepting zombies, each other, the world's
/// boundary and the torchwood's flame zone.
pub fn physics_projectile_groups() -> (r: CollisionGroups)
    ensures
        r == (CollisionGroups {
            memberships: PHYSICS_PROJECTILE_GROUP,
            filters: ZOMBIE_GROUP | PHYSICS_PROJECTILE_GROUP | WORLD_BOUNDARY_GROUP | TORCHWOOD_GROUP,
        }),
{
    CollisionGroups {
        memberships: PHYSICS_PROJECTILE_GROUP,
        filters: ZOMBIE_GROUP | PHYSICS_PROJECTILE_GROUP | WORLD_BOUNDARY_GROUP | TORCHWOOD_GROUP,
    }
}

/// The torchwood's flame zone: accepting physics projectiles only.
pub fn torchwood_groups() -> (r: CollisionGroups)
    ensures
        r == (CollisionGroups { memberships: TORCHWOOD_GROUP, filters: PHYSICS_PROJECTILE_GROUP }),
{
    CollisionGroups { memberships: TORCHWOOD_GROUP, filters: PHYSICS_PROJECTILE_GROUP }
}

/// The world's floor and walls: accepting physics projectiles only.
pub fn world_groups() -> (r: CollisionGroups)
    ensures
        r == (CollisionGroups { memberships: WORLD_BOUNDARY_GROUP, filters: PHYSICS_PROJECTILE_GROUP }),
{
    CollisionGroups { memberships: WORLD_BOUNDARY_GROUP, filters: PHYSICS_PROJECTILE_GROUP }
}

proof fn lemma_group_bits()
    by (bit_vector)
    ensures
        (2u32 | 8u32 | 16u32 | 64u32) == 90u32,
        (2u32 | 32u32) == 34u32,
        (8u32 & 8u32) != 0u32,
        (2u32 & 90u32) != 0u32,
        (8u32 & 90u32) != 0u32,
        (16u32 & 90u32) != 0u32,
        (64u32 & 90u32) != 0u32,
        (1u32 & 8u32) == 0u32,
        (1u32 & 90u32) == 0u32,
        (2u32 & 8u32) == 0u32,
        (16u32 & 8u32) == 0u32,
        (64u32 & 8u32) == 0u32,
{
}

/// Who interacts with whom: physics projectiles with zombies, with each
/// other, with the world's boundary and with the torchwood's flame zone;
/// zombies, the boundary and the flame zone with nothing else among these;
/// and plants with none of them (zombies accept only physics projectiles).
pub proof fn law_collision_matrix()
    ensures
        interacts(physics_projectile_groups_spec(), zombie_groups_spec()),
        interacts(physics_projectile_groups_spec(), physics_projectile_groups_spec()),
        interacts(physics_projectile_groups_spec(), world_groups_spec()),
        interacts(physics_projectile_groups_spec(), torchwood_groups_spec()),
        !interacts(plant_groups_spec(), zombie_groups_spec()),
        !interacts(plant_groups_spec(), physics_projectile_groups_spec()),
        !interacts(zombie_groups_spec(), zombie_groups_spec()),
        !interacts(zombie_groups_spec(), world_groups_spec()),
        !interacts(world_groups_spec(), world_groups_spec()),
        !interacts(torchwood_groups_spec(), zombie_groups_spec()),
{
    lemma_group_bits();
}

/// Interacting is symmetric.
pub proof fn law_interaction_is_symmetric(a: CollisionGroups, b: CollisionGroups)
    ensures
        interacts(a, b) == interacts(b, a),
{
}

pub open spec fn plant_groups_spec() -> CollisionGroups {
    CollisionGroups { memberships: PLANT_GROUP, filters: ZOMBIE_GROUP | MOWER_GROUP }
}

pub open spec fn zombie_groups_spec() -> CollisionGroups {
    CollisionGroups { memberships: ZOMBIE_GROUP, filters: PHYSICS_PROJECTILE_GROUP }
}

pub open spec fn physics_projectile_groups_spec() -> CollisionGroups {
    CollisionGroups {
        memberships: PHYSICS_PROJECTILE_GROUP,
        filters: ZOMBIE_GROUP | PHYSICS_PROJECTILE_GROUP | WORLD_BOUNDARY_GROUP | TORCHWOOD_GROUP,
    }
}

pub open spec fn torchwood_groups_spec() -> CollisionGroups {
    CollisionGroups { memberships: TORCHWOOD_GROUP, filters: PHYSICS_PROJECTILE_GROUP }
}

pub open spec fn world_groups_spec() -> CollisionGroups {
    CollisionGroups { memberships: WORLD_BOUNDARY_GROUP, filters: PHYSICS_PROJECTILE_GROUP }
}

/// Physics projectiles at or above which the rate is lowered.
pub const REDUCE_RATE_PROJECTILE_COUNT: usize = 2_500;

/// Physics projectiles at or below which the rate may be restored.
pub const RESTORE_RATE_PROJECTILE_COUNT: usize = 1_800;

/// The fixed-update rate: normal (60 Hz) or reduced (30 Hz).
#[derive(Clone, Copy, Debug, PartialEq, Eq, Structural)]
pub struct SimulationRate {
    pub reduced: bool,
}

/// The rate after a frame: a reduced rate is restored only when both the
/// projectile count and the step time are low again; a normal rate is
/// reduced as soon as either is high.
pub open spec fn next_rate_reduced(reduced: bool, projectile_count: usize, step_time_low: bool, step_time_high: bool) -> bool {
    if reduced {
        !(projectile_count <= RESTORE_RATE_PROJECTILE_COUNT && step_time_low)
    } else {
        projectile_count >= REDUCE_RATE_PROJECTILE_COUNT || step_time_high
    }
}

impl Default for SimulationRate {
    /// The normal rate.
    fn default() -> (r: SimulationRate)
        ensures
            !r.reduced,
    {
        SimulationRate { reduced: false }
    }
}

impl SimulationRate {
    /// Whether the rate is the reduced one.
    pub fn is_reduced(&self) -> (r: bool)
        ensures
            r == self.reduced,
    {
        self.reduced
    }

    /// Adapts the rate to the frame's load: the number of physics
    /// projectiles, whether the last step took at most the restore time
    /// (6 ms) and whether it took at least the reduce time (10 ms). Returns
    /// whether the rate changed.
    pub fn adapt(&mut self, projectile_count: usize, step_time_low: bool, step_time_high: bool) -> (changed: bool)
        ensures
            final(self).reduced == next_rate_reduced(old(self).reduced, projectile_count, step_time_low, step_time_high),
            changed == (final(self).reduced != old(self).reduced),
    {
        let target = if self.reduced {
            !(projectile_count <= RESTORE_RATE_PROJECTILE_COUNT && step_time_low)
        } else {
            projectile_count >= REDUCE_RATE_PROJECTILE_COUNT || step_time_high
        };
        if target != self.reduced {
            self.reduced = target;
            true
        } else {
            false
        }
    }
}

/// Between the two thresholds the rate keeps what it was: a load that is
/// neither high nor low changes nothing.
pub proof fn law_rate_has_hysteresis(reduced: bool, projectile_count: usize)
    requires
        RESTORE_RATE_PROJECTILE_COUNT < projectile_count < REDUCE_RATE_PROJECTILE_COUNT,
    ensures
        next_rate_reduced(reduced, projectile_count, false, false) == reduced,
{
}

} // verus!
