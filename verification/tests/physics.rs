use bevy_rapier2d::prelude::{CollisionGroups as RapierGroups, Group};
use bevy_rapier2d::rapier::geometry::InteractionGroups;
use lawn_defense::physics::{
    physics_projectile_groups, plant_groups, torchwood_groups, world_groups, zombie_groups,
    CollisionGroups,
};

fn engine_interacts(a: CollisionGroups, b: CollisionGroups) -> bool {
    let to_engine = |groups: CollisionGroups| -> InteractionGroups {
        RapierGroups::new(
            Group::from_bits_truncate(groups.memberships),
            Group::from_bits_truncate(groups.filters),
        )
        .into()
    };
    to_engine(a).test(to_engine(b))
}

fn model_interacts(a: CollisionGroups, b: CollisionGroups) -> bool {
    (a.memberships & b.filters) != 0 && (b.memberships & a.filters) != 0
}

#[test]
fn the_group_model_agrees_with_the_physics_engine() {
    let all = [
        plant_groups(),
        zombie_groups(),
        physics_projectile_groups(),
        torchwood_groups(),
        world_groups(),
    ];
    for a in all {
        for b in all {
            assert_eq!(engine_interacts(a, b), model_interacts(a, b), "{a:?} / {b:?}");
        }
    }
    assert!(engine_interacts(physics_projectile_groups(), zombie_groups()));
    assert!(!engine_interacts(plant_groups(), zombie_groups()));
}
