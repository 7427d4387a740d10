//! What a projectile hit does: each target is hit at most once per
//! projectile, only plant projectiles deal damage, and the hit policy decides
//! whether the projectile is spent or pierces on; the kinds of pea and zombie
//! decide chills, thaws, the fire splash and torchwood ignition. Entities are
//! given by their bits.

use std::collections::HashSet;

use vstd::prelude::*;

use crate::combat::Team;
use crate::kinds::{ProjectileKind, ZombieKind};

verus! {

broadcast use vstd::std_specs::hash::group_hash_axioms;

/// How a projectile behaves when it hits.
#[derive(Clone, Copy, Debug, PartialEq, Eq, Structural)]
pub struct HitPolicy {
    /// Whether the first hit spends the projectile.
    pub destroy_on_hit: bool,
    /// Targets it may still pierce; `u8::MAX` means without limit.
    pub remaining_pierces: u8,
}

/// The targets a projectile has already hit.
#[derive(Debug)]
pub struct HitRegistry {
    hit: HashSet<u64>,
}

impl View for HitRegistry {
    type V = Set<u64>;

    closed spec fn view(&self) -> Set<u64> {
        self.hit@
    }
}

impl HitRegistry {
    /// No target hit yet.
    pub fn new() -> (r: HitRegistry)
        ensures
            r@ == Set::<u64>::empty(),
    {
        HitRegistry { hit: HashSet::new() }
    }

    /// Whether the target has been hit.
    pub fn contains(&self, target: u64) -> (r: bool)
        ensures
            r == self@.contains(target),
    {
        self.hit.contains(&target)
    }

    /// Records the target; returns whether it was new.
    pub fn insert(&mut self, target: u64) -> (new: bool)
        ensures
            new == !old(self)@.contains(target),
            final(self)@ == old(self)@.insert(target),
    {
        self.hit.insert(target)
    }
}

/// What came of one hit.
#[derive(Clone, Copy, Debug, PartialEq, Eq, Structural)]
pub enum HitOutcome {
    /// No damage: the projectile was spent already this frame, had hit this
    /// target before, or does not belong to the plants.
    Ignored,
    /// The projectile damages the target; `despawn` tells whether it is spent.
    Damage { despawn: bool },
}

/// The projectiles spent during the current frame.
#[derive(Debug)]
pub struct HitResolver {
    consumed: HashSet<u64>,
}

impl View for HitResolver {
    type V = Set<u64>;

    closed spec fn view(&self) -> Set<u64> {
        self.consumed@
    }
}

/// The outcome of a hit of `projectile` on `target`, given the frame's spent
/// projectiles, the projectile's team, policy and registry.
pub open spec fn hit_outcome(consumed: Set<u64>, projectile: u64, target: u64, team: Team, policy: HitPolicy, registry: Set<u64>) -> HitOutcome {
    if consumed.contains(projectile) || registry.contains(target) || team != Team::Plants {
        HitOutcome::Ignored
    } else {
        HitOutcome::Damage { despawn: policy.destroy_on_hit || policy.remaining_pierces == 0 }
    }
}

impl HitResolver {
    /// A new frame: no projectile spent.
    pub fn new() -> (r: HitResolver)
        ensures
            r@ == Set::<u64>::empty(),
    {
        HitResolver { consumed: HashSet::new() }
    }

    /// Starts a new frame.
    pub fn clear(&mut self)
        ensures
            final(self)@ == Set::<u64>::empty(),
    {
        self.consumed.clear();
    }

    /// Resolves a hit of `projectile` on `target`. A projectile already spent
    /// this frame does nothing. Otherwise the target is recorded in the
    /// registry; a target hit before, or a projectile not of the plants, deals
    /// no damage. A damaging hit spends the projectile when its policy says
    /// so or no pierce is left; otherwise it uses up one pierce (none when
    /// pierces are without limit).
    pub fn resolve(
        &mut self,
        projectile: u64,
        target: u64,
        team: Team,
        policy: &mut HitPolicy,
        registry: &mut HitRegistry,
    ) -> (outcome: HitOutcome)
        ensures
            outcome == hit_outcome(old(self)@, projectile, target, team, *old(policy), old(registry)@),
            final(registry)@ == if old(self)@.contains(projectile) {
                old(registry)@
            } else {
                old(registry)@.insert(target)
            },
            final(self)@ == if outcome == (HitOutcome::Damage { despawn: true }) {
                old(self)@.insert(projectile)
            } else {
                old(self)@
            },
            *final(policy) == if outcome == (HitOutcome::Damage { despawn: false }) && old(policy).remaining_pierces != u8::MAX {
                HitPolicy { remaining_pierces: (old(policy).remaining_pierces - 1) as u8, ..*old(policy) }
            } else {
                *old(policy)
            },
    {
        if self.consumed.contains(&projectile) {
            return HitOutcome::Ignored;
        }
        if !registry.insert(target) {
            return HitOutcome::Ignored;
        }
        if team != Team::Plants {
            return HitOutcome::Ignored;
        }
        if policy.destroy_on_hit || policy.remaining_pierces == 0 {
            self.consumed.insert(projectile);
            HitOutcome::Damage { despawn: true }
        } else {
            if policy.remaining_pierces != u8::MAX {
                policy.remaining_pierces = policy.remaining_pierces - 1;
            }
            HitOutcome::Damage { despawn: false }
        }
    }
}

/// A projectile deals its damage to a target at most once: a second hit on
/// the same target, after the first was recorded, is ignored.
pub proof fn law_each_target_damaged_once(
    consumed: Set<u64>,
    projectile: u64,
    target: u64,
    team: Team,
    policy: HitPolicy,
    registry: Set<u64>,
    later_consumed: Set<u64>,
    later_policy: HitPolicy,
)
    ensures
        hit_outcome(later_consumed, projectile, target, team, later_policy, registry.insert(target)) == HitOutcome::Ignored,
{
}

/// Once a projectile is spent, nothing else it hits in the same frame is
/// damaged.
pub proof fn law_spent_projectile_hits_nothing(
    consumed: Set<u64>,
    projectile: u64,
    target: u64,
    team: Team,
    policy: HitPolicy,
    registry: Set<u64>,
)
    ensures
        hit_outcome(consumed.insert(projectile), projectile, target, team, policy, registry) == HitOutcome::Ignored,
{
}

/// A hit read from the physics engine: which projectile hit which target.
#[derive(Clone, Copy, Debug, PartialEq, Eq, Structural)]
pub struct ProjectileHit {
    pub projectile: u64,
    pub target: u64,
}

/// Reads a collision between `a` and `b` as a hit: a physics projectile
/// touching a zombie, whichever of the two came first.
pub fn collision_as_hit(
    a: u64,
    b: u64,
    a_is_physics_projectile: bool,
    a_is_zombie: bool,
    b_is_physics_projectile: bool,
    b_is_zombie: bool,
) -> (r: Option<ProjectileHit>)
    ensures
        r == if a_is_physics_projectile && b_is_zombie {
            Some(ProjectileHit { projectile: a, target: b })
        } else if b_is_physics_projectile && a_is_zombie {
            Some(ProjectileHit { projectile: b, target: a })
        } else {
            None
        },
{
    if a_is_physics_projectile && b_is_zombie {
        Some(ProjectileHit { projectile: a, target: b })
    } else if b_is_physics_projectile && a_is_zombie {
        Some(ProjectileHit { projectile: b, target: a })
    } else {
        None
    }
}

/// Whether the kind carries a barrier in front of it (a screen door or a
/// ladder) that stands between it and a pea.
pub open spec fn has_front_barrier(kind: ZombieKind) -> bool {
    kind == ZombieKind::ScreenDoor || kind == ZombieKind::Ladder
}

/// Whether an ice pea's direct hit chills the target: always, unless the
/// target carries a front barrier; then only once that barrier is known to
/// be broken (`barrier_intact` is `Some(false)`). A barrier kind whose
/// barrier is not known (`None`) counts as shielded.
pub open spec fn ice_pea_chills_target(kind: ZombieKind, barrier_intact: Option<bool>) -> bool {
    !has_front_barrier(kind) || barrier_intact == Some(false)
}

/// Whether an ice pea's direct hit chills a zombie of `kind` whose barrier
/// is `barrier_intact` (see `ice_pea_chills_target`).
pub fn ice_pea_chills(kind: ZombieKind, barrier_intact: Option<bool>) -> (r: bool)
    ensures
        r == ice_pea_chills_target(kind, barrier_intact),
{
    let shielded = match kind {
        ZombieKind::ScreenDoor | ZombieKind::Ladder => true,
        _ => false,
    };
    !shielded || match barrier_intact {
        Some(intact) => !intact,
        None => false,
    }
}

/// What a damaging direct hit does to the target's chill.
#[derive(Clone, Copy, Debug, PartialEq, Eq, Structural)]
pub enum ChillEffect {
    /// The target is chilled afresh (its chill starts over).
    Chill,
    /// The target's chill, if any, ends.
    Thaw,
    /// The chill stays as it was.
    Unchanged,
}

/// The chill effect of a damaging direct hit: an ice pea chills the target
/// as `ice_pea_chills_target` says; a fire pea thaws it; other peas leave it.
pub open spec fn chill_effect(projectile: ProjectileKind, target: ZombieKind, barrier_intact: Option<bool>) -> ChillEffect {
    match projectile {
        ProjectileKind::IcePea => if ice_pea_chills_target(target, barrier_intact) {
            ChillEffect::Chill
        } else {
            ChillEffect::Unchanged
        },
        ProjectileKind::FirePea => ChillEffect::Thaw,
        _ => ChillEffect::Unchanged,
    }
}

/// The chill effect of a damaging direct hit (see `chill_effect`).
pub fn direct_hit_chill(projectile: ProjectileKind, target: ZombieKind, barrier_intact: Option<bool>) -> (r: ChillEffect)
    ensures
        r == chill_effect(projectile, target, barrier_intact),
{
    match projectile {
        ProjectileKind::IcePea => if ice_pea_chills(target, barrier_intact) {
            ChillEffect::Chill
        } else {
            ChillEffect::Unchanged
        },
        ProjectileKind::FirePea => ChillEffect::Thaw,
        _ => ChillEffect::Unchanged,
    }
}

/// Whether a fire pea's direct hit on a zombie of `kind` sets off the
/// splash: not when a front barrier takes the hit.
pub fn fire_splash_triggers(kind: ZombieKind) -> (r: bool)
    ensures
        r == !has_front_barrier(kind),
{
    match kind {
        ZombieKind::ScreenDoor | ZombieKind::Ladder => false,
        _ => true,
    }
}

/// Whether a fire pea's splash reaches a zombie of `kind` standing nearby in
/// the lane: not one behind a front barrier.
pub fn fire_splash_affects(kind: ZombieKind) -> (r: bool)
    ensures
        r == !has_front_barrier(kind),
{
    match kind {
        ZombieKind::ScreenDoor | ZombieKind::Ladder => false,
        _ => true,
    }
}

/// What a pea becomes when it passes through a torchwood's flames: a plain
/// pea is set alight and becomes a fire pea; any other pea passes as it is
/// (`None`).
pub fn ignited_kind(kind: ProjectileKind) -> (r: Option<ProjectileKind>)
    ensures
        r == (if kind == ProjectileKind::Pea {
            Some(ProjectileKind::FirePea)
        } else {
            None::<ProjectileKind>
        }),
{
    match kind {
        ProjectileKind::Pea => Some(ProjectileKind::FirePea),
        _ => None,
    }
}

/// A fire pea's direct hit always thaws, whatever the barrier; an ice pea
/// never chills through an intact front barrier, and always chills a zombie
/// that has none.
pub proof fn law_chill_rules(target: ZombieKind, barrier_intact: Option<bool>, later_barrier: Option<bool>)
    ensures
        chill_effect(ProjectileKind::FirePea, target, later_barrier) == ChillEffect::Thaw,
        has_front_barrier(target) && barrier_intact == Some(true) ==> chill_effect(
            ProjectileKind::IcePea,
            target,
            barrier_intact,
        ) == ChillEffect::Unchanged,
        !has_front_barrier(target) ==> chill_effect(ProjectileKind::IcePea, target, barrier_intact) == ChillEffect::Chill,
{
}

} // verus!
