use physics_scene::geometry::{Mesh, Vec3i};
use physics_scene::light::light_rotation;
use physics_scene::scene::{ModelAsset, ModelMesh, World};

fn v(x: i64, y: i64, z: i64) -> Vec3i {
    Vec3i { x, y, z }
}

fn built_world() -> World {
    let mut w = World::new();
    let prims = vec![Mesh { positions: vec![v(0, 0, 0), v(1, 0, 0), v(0, 1, 0)], indices: vec![0, 1, 2] }];
    w.build_scene(&ModelAsset { default_scene: Some(3), meshes: vec![ModelMesh { primitives: prims }] })
        .unwrap();
    w
}

#[test]
fn altitudes_empty_world() {
    assert!(World::new().altitudes().is_empty());
}

#[test]
fn one_altitude_per_rigid_body() {
    let w = built_world();
    let alts = w.altitudes();
    let rigid = w.entities.iter().filter(|e| e.body.is_some()).count();
    assert_eq!(alts.len(), rigid);
    assert_eq!(alts, vec![1500]);
}

#[test]
fn altitudes_follow_entity_order() {
    let mut w = built_world();
    let mut second = w.entities[3];
    second.transform.translation.y = -250;
    w.entities.push(second);
    assert_eq!(w.altitudes(), vec![1500, -250]);
}

#[test]
fn animate_lights_turns_only_lights() {
    let mut w = built_world();
    let before = w.entities.clone();
    w.animate_lights(7500);
    assert_eq!(w.entities[1].transform.rotation, light_rotation(7500));
    assert_eq!(w.entities[1].transform.rotation.second, 270000);
    assert_eq!(w.entities[1].transform.translation, before[1].transform.translation);
    for j in [0usize, 2, 3, 4] {
        assert_eq!(w.entities[j], before[j]);
    }
    let once = w.entities.clone();
    w.animate_lights(7500);
    assert_eq!(w.entities, once);
}
