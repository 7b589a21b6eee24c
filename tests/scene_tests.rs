use physics_scene::geometry::{ColliderError, Mesh, Vec3i};
use physics_scene::scene::{
    BodyKind, BuildError, EntityKind, ModelAsset, ModelMesh, World, PLATFORM_COLOR,
};
use physics_scene::transform::{EulerOrder, Rotation, Transform};

fn v(x: i64, y: i64, z: i64) -> Vec3i {
    Vec3i { x, y, z }
}

fn triangle(h: i64) -> Mesh {
    Mesh { positions: vec![v(0, 0, 0), v(1000, 0, 0), v(0, h, 0)], indices: vec![0, 1, 2] }
}

fn asset(prims: Vec<Mesh>) -> ModelAsset {
    ModelAsset { default_scene: Some(7), meshes: vec![ModelMesh { primitives: prims }] }
}

#[test]
fn two_primitives_give_two_collider_children() {
    let mut w = World::new();
    let root = w.build_scene(&asset(vec![triangle(500), triangle(800)])).unwrap();
    assert_eq!(root, 3);
    assert_eq!(w.entities.len(), 6);
    let children: Vec<usize> =
        (0..w.entities.len()).filter(|&j| w.entities[j].parent == Some(root)).collect();
    assert_eq!(children, vec![4, 5]);
    for &c in &children {
        let e = w.entities[c];
        assert_eq!(e.kind, EntityKind::ColliderChild);
        assert_eq!(e.transform, Transform::identity());
    }
    let r = w.entities[root];
    assert_eq!(r.transform.scale, v(2000, 2000, 2000));
    assert_eq!(r.transform.translation, v(0, 1500, 0));
    assert_eq!(r.transform.rotation, Rotation { order: EulerOrder::Xyz, first: -90000, second: 0, third: 0 });
    assert_eq!(r.body, Some(BodyKind::Dynamic));
    assert_eq!(r.scene, Some(7));
    assert!(r.object_tag);
    let c1 = w.entities[5].collider.unwrap();
    assert_eq!(w.colliders[c1].bounds.max, v(1000, 800, 0));
}

#[test]
fn scene_has_camera_light_and_platform() {
    let mut w = World::new();
    w.build_scene(&asset(vec![triangle(500)])).unwrap();
    let cam = w.entities[0];
    assert_eq!(cam.kind, EntityKind::Camera);
    assert_eq!(cam.transform.translation, v(4000, 1000, 1000));
    assert_eq!(cam.camera.unwrap().target, v(0, 0, 0));
    assert_eq!(cam.camera.unwrap().up, v(0, 1000, 0));
    let light = w.entities[1].light.unwrap();
    assert!(light.shadows_enabled);
    assert_eq!(light.shadow.left, -1000);
    assert_eq!(light.shadow.top, 1000);
    assert_eq!(light.shadow.near, -10000);
    assert_eq!(light.shadow.far, 10000);
    let p = w.entities[2];
    assert_eq!(p.kind, EntityKind::Platform);
    assert!(p.object_tag);
    assert_eq!(p.body, None);
    assert_eq!(p.transform.translation, v(0, 0, 0));
    let mat = w.materials[p.material.unwrap()];
    assert_eq!(mat.base_color, PLATFORM_COLOR);
    assert_eq!(mat.base_color, 0xcc0000);
    assert_eq!((mat.metallic, mat.roughness), (100, 100));
    let pc = &w.colliders[p.collider.unwrap()];
    assert_eq!(pc.bounds.min, v(-1500, -100, -1500));
    assert_eq!(pc.bounds.max, v(1500, 0, 1500));
    assert_eq!(w.meshes[p.mesh.unwrap()].positions.len(), 8);
}

#[test]
fn missing_default_scene_is_an_error() {
    let mut w = World::new();
    let a = ModelAsset { default_scene: None, meshes: vec![ModelMesh { primitives: vec![triangle(1)] }] };
    assert_eq!(w.build_scene(&a), Err(BuildError::NoDefaultScene));
    assert!(w.entities.is_empty() && w.colliders.is_empty());
}

#[test]
fn missing_mesh_group_is_an_error() {
    let mut w = World::new();
    let a = ModelAsset { default_scene: Some(1), meshes: vec![] };
    assert_eq!(w.build_scene(&a), Err(BuildError::NoMeshes));
    assert!(w.entities.is_empty() && w.meshes.is_empty());
}

#[test]
fn first_bad_primitive_is_reported() {
    let mut w = World::new();
    let bad = Mesh { positions: vec![v(0, 0, 0)], indices: vec![0, 1, 2] };
    let also_bad = Mesh { positions: vec![], indices: vec![] };
    let r = w.build_scene(&asset(vec![triangle(2), bad, also_bad]));
    assert_eq!(
        r,
        Err(BuildError::Collider { primitive: 1, error: ColliderError::IndexOutOfRange })
    );
    assert!(w.entities.is_empty() && w.colliders.is_empty() && w.materials.is_empty());
}

#[test]
fn asset_without_primitives_gives_root_without_children() {
    let mut w = World::new();
    let root = w.build_scene(&asset(vec![])).unwrap();
    assert_eq!(w.entities.len(), 4);
    assert!(w.entities.iter().all(|e| e.parent != Some(root)));
}
