//! The scene: an owned registry of entities and of the meshes, materials and
//! colliders they refer to, and the one-time construction of the demo scene.
use vstd::prelude::*;

use crate::geometry::{
    box_collider, box_mesh, collider_from_mesh, is_collidable, is_collider_of, BoxShape,
    Collider, ColliderError, Mesh, Vec3i,
};
use crate::transform::{identity_spec, EulerOrder, Rotation, Transform, UNIT};

verus! {

/// What an entity is for.
#[derive(Clone, Copy, Debug, PartialEq, Eq, Structural)]
pub enum EntityKind {
    Camera,
    DirectionalLight,
    Platform,
    ModelRoot,
    ColliderChild,
}

/// How the physics engine moves a rigid body.
#[derive(Clone, Copy, Debug, PartialEq, Eq, Structural)]
pub enum BodyKind {
    Static,
    Dynamic,
}

/// Where a camera looks: the point it faces and the direction that is up.
#[derive(Clone, Copy, Debug, PartialEq, Eq, Structural)]
pub struct CameraSetup {
    pub target: Vec3i,
    pub up: Vec3i,
}

/// The box, in thousandths of a world unit, that a directional light's
/// shadows are cast within.
#[derive(Clone, Copy, Debug, PartialEq, Eq, Structural)]
pub struct ShadowProjection {
    pub left: i64,
    pub right: i64,
    pub bottom: i64,
    pub top: i64,
    pub near: i64,
    pub far: i64,
}

/// A directional light's settings.
#[derive(Clone, Copy, Debug, PartialEq, Eq, Structural)]
pub struct LightSetup {
    pub shadow: ShadowProjection,
    pub shadows_enabled: bool,
}

/// A surface material: colour as `0xRRGGBB`, metallic and roughness in
/// thousandths.
#[derive(Clone, Copy, Debug, PartialEq, Eq, Structural)]
pub struct Material {
    pub base_color: u32,
    pub metallic: i64,
    pub roughness: i64,
}

/// One spawned object. The optional fields say which capabilities it has;
/// `mesh`, `material` and `collider` are indices into the world's pools and
/// `parent` an index into its entities.
#[derive(Clone, Copy, Debug, PartialEq, Eq, Structural)]
pub struct Entity {
    pub kind: EntityKind,
    pub transform: Transform,
    pub parent: Option<usize>,
    pub object_tag: bool,
    pub body: Option<BodyKind>,
    pub mesh: Option<usize>,
    pub material: Option<usize>,
    pub collider: Option<usize>,
    pub scene: Option<u64>,
    pub camera: Option<CameraSetup>,
    pub light: Option<LightSetup>,
}

/// The registry of entities and the pools they refer to.
#[derive(Debug)]
pub struct World {
    pub entities: Vec<Entity>,
    pub meshes: Vec<Mesh>,
    pub materials: Vec<Material>,
    pub colliders: Vec<Collider>,
}

/// A group of mesh primitives in a model asset.
#[derive(Debug)]
pub struct ModelMesh {
    pub primitives: Vec<Mesh>,
}

/// A loaded model asset: a handle to its default scene, if it has one, and
/// its mesh groups.
#[derive(Debug)]
pub struct ModelAsset {
    pub default_scene: Option<u64>,
    pub meshes: Vec<ModelMesh>,
}

/// Why the scene cannot be built from an asset.
#[derive(Clone, Copy, Debug, PartialEq, Eq, Structural)]
pub enum BuildError {
    /// The asset has no default scene.
    NoDefaultScene,
    /// The asset has no mesh group.
    NoMeshes,
    /// A primitive of the first mesh group gives no collider.
    Collider { primitive: usize, error: ColliderError },
}

/// Whether `e`'s references point into `w`'s pools, and its parent, if any,
/// comes before it (at index `j`).
pub open spec fn entity_wf(w: World, e: Entity, j: int) -> bool {
    &&& (e.parent matches Some(p) ==> p < j)
    &&& (e.mesh matches Some(h) ==> h < w.meshes@.len())
    &&& (e.material matches Some(h) ==> h < w.materials@.len())
    &&& (e.collider matches Some(h) ==> h < w.colliders@.len())
}

impl World {
    /// Every entity is well formed.
    pub open spec fn wf(self) -> bool {
        forall|j: int| 0 <= j < self.entities@.len() ==> entity_wf(self, #[trigger] self.entities@[j], j)
    }

    /// An empty world.
    pub fn new() -> (r: World)
        ensures
            r.wf(),
            r.entities@.len() == 0,
            r.meshes@.len() == 0,
            r.materials@.len() == 0,
            r.colliders@.len() == 0,
    {
        World { entities: Vec::new(), meshes: Vec::new(), materials: Vec::new(), colliders: Vec::new() }
    }
}

/// How far the camera stands from the origin, as a multiple of its direction.
pub const CAMERA_RATIO: i64 = 4;

/// Half the side of the light's shadow box, in thousandths of a world unit.
pub const SHADOW_HALF_SIZE: i64 = 1000;

/// The uniform scale of the model, in thousandths.
pub const MODEL_SCALE: i64 = 2000;

/// The height at which the model is placed, in thousandths of a world unit.
pub const MODEL_HEIGHT: i64 = 1500;

/// The model's turn about x, in thousandths of a degree.
pub const MODEL_TILT: i64 = -90000;

/// The platform's colour, metallic and roughness.
pub const PLATFORM_COLOR: u32 = 0xcc0000;

pub const PLATFORM_METALLIC: i64 = 100;

pub const PLATFORM_ROUGHNESS: i64 = 100;

/// An entity of kind `kind` with the identity transform and nothing else.
pub open spec fn bare_entity(kind: EntityKind) -> Entity {
    Entity {
        kind,
        transform: identity_spec(),
        parent: None,
        object_tag: false,
        body: None,
        mesh: None,
        material: None,
        collider: None,
        scene: None,
        camera: None,
        light: None,
    }
}

/// The camera: at `CAMERA_RATIO` times (1, 0.25, 0.25), facing the origin, +y up.
pub open spec fn camera_entity() -> Entity {
    Entity {
        transform: Transform {
            translation: Vec3i {
                x: (CAMERA_RATIO * UNIT) as i64,
                y: (CAMERA_RATIO * 250) as i64,
                z: (CAMERA_RATIO * 250) as i64,
            },
            ..identity_spec()
        },
        camera: Some(CameraSetup { target: Vec3i { x: 0, y: 0, z: 0 }, up: Vec3i { x: 0, y: UNIT, z: 0 } }),
        ..bare_entity(EntityKind::Camera)
    }
}

/// The directional light, casting shadows within a box of half side
/// `SHADOW_HALF_SIZE` and depth ten times that on either side.
pub open spec fn light_entity() -> Entity {
    Entity {
        light: Some(
            LightSetup {
                shadow: ShadowProjection {
                    left: (-SHADOW_HALF_SIZE) as i64,
                    right: SHADOW_HALF_SIZE,
                    bottom: (-SHADOW_HALF_SIZE) as i64,
                    top: SHADOW_HALF_SIZE,
                    near: (-10 * SHADOW_HALF_SIZE) as i64,
                    far: (10 * SHADOW_HALF_SIZE) as i64,
                },
                shadows_enabled: true,
            },
        ),
        ..bare_entity(EntityKind::DirectionalLight)
    }
}

/// The platform's box: 3 by 3 units across, 0.1 thick, its top at height 0.
pub open spec fn platform_box() -> BoxShape {
    BoxShape {
        min_x: -1500i64,
        max_x: 1500,
        min_y: -100i64,
        max_y: 0,
        min_z: -1500i64,
        max_z: 1500,
    }
}

/// The platform's material.
pub open spec fn platform_material() -> Material {
    Material { base_color: PLATFORM_COLOR, metallic: PLATFORM_METALLIC, roughness: PLATFORM_ROUGHNESS }
}

/// The platform at the origin, tagged as an object, with the given mesh,
/// material and collider; it is no rigid body.
pub open spec fn platform_entity(mesh: usize, material: usize, collider: usize) -> Entity {
    Entity {
        object_tag: true,
        mesh: Some(mesh),
        material: Some(material),
        collider: Some(collider),
        ..bare_entity(EntityKind::Platform)
    }
}

/// The model's root: the asset's scene at height `MODEL_HEIGHT`, turned by
/// `MODEL_TILT` about x, scaled by `MODEL_SCALE`, tagged as an object and a
/// dynamic rigid body.
pub open spec fn model_root_entity(scene: u64) -> Entity {
    Entity {
        transform: Transform {
            translation: Vec3i { x: 0, y: MODEL_HEIGHT, z: 0 },
            rotation: Rotation { order: EulerOrder::Xyz, first: MODEL_TILT, second: 0, third: 0 },
            scale: Vec3i { x: MODEL_SCALE, y: MODEL_SCALE, z: MODEL_SCALE },
        },
        object_tag: true,
        body: Some(BodyKind::Dynamic),
        scene: Some(scene),
        ..bare_entity(EntityKind::ModelRoot)
    }
}

/// A collider child of `root` with the identity transform.
pub open spec fn collider_child_entity(root: usize, collider: usize) -> Entity {
    Entity { parent: Some(root), collider: Some(collider), ..bare_entity(EntityKind::ColliderChild) }
}

fn bare(kind: EntityKind) -> (r: Entity)
    ensures
        r == bare_entity(kind),
{
    Entity {
        kind,
        transform: Transform::identity(),
        parent: None,
        object_tag: false,
        body: None,
        mesh: None,
        material: None,
        collider: None,
        scene: None,
        camera: None,
        light: None,
    }
}

/// Whether every primitive gives a collider.
pub open spec fn all_collidable(prims: Seq<Mesh>) -> bool {
    forall|j: int| 0 <= j < prims.len() ==> is_collidable(#[trigger] prims[j])
}

/// Whether primitive `i` is the first that gives no collider.
pub open spec fn first_bad_primitive(prims: Seq<Mesh>, i: int) -> bool {
    &&& 0 <= i < prims.len()
    &&& !is_collidable(prims[i])
    &&& forall|j: int| 0 <= j < i ==> is_collidable(#[trigger] prims[j])
}

/// The primitives of the asset's first mesh group.
pub open spec fn first_primitives(asset: ModelAsset) -> Seq<Mesh> {
    asset.meshes@[0].primitives@
}

/// Whether the scene can be built from `asset`.
pub open spec fn buildable(asset: ModelAsset) -> bool {
    &&& asset.default_scene is Some
    &&& asset.meshes@.len() > 0
    &&& all_collidable(first_primitives(asset))
}

/// One collider per primitive, or the error of the first that gives none.
fn primitive_colliders(prims: &Vec<Mesh>) -> (r: Result<Vec<Collider>, BuildError>)
    ensures
        r is Ok <==> all_collidable(prims@),
        r matches Ok(cs) ==> cs@.len() == prims@.len() && forall|k: int|
            0 <= k < prims@.len() ==> is_collider_of(#[trigger] cs@[k], prims@[k]),
        r matches Err(e) ==> (e matches BuildError::Collider { primitive, error } && first_bad_primitive(
            prims@,
            primitive as int,
        ) && error == crate::geometry::collider_error(prims@[primitive as int])),
{
    let mut cs: Vec<Collider> = Vec::new();
    let mut i: usize = 0;
    while i < prims.len()
        invariant
            i <= prims@.len(),
            cs@.len() == i,
            forall|k: int| 0 <= k < i ==> is_collider_of(#[trigger] cs@[k], prims@[k]),
            forall|k: int| 0 <= k < i ==> is_collidable(#[trigger] prims@[k]),
        decreases prims@.len() - i,
    {
        match collider_from_mesh(&prims[i]) {
            Ok(c) => {
                cs.push(c);
            },
            Err(error) => {
                return Err(BuildError::Collider { primitive: i, error });
            },
        }
        i = i + 1;
    }
    Ok(cs)
}

/// A world that differs from `a` only in having pools at least as long.
proof fn lemma_wf_pools_grow(a: World, b: World)
    requires
        a.wf(),
        b.entities@ == a.entities@,
        a.meshes@.len() <= b.meshes@.len(),
        a.materials@.len() <= b.materials@.len(),
        a.colliders@.len() <= b.colliders@.len(),
    ensures
        b.wf(),
{
    assert forall|j: int| 0 <= j < b.entities@.len() implies entity_wf(b, #[trigger] b.entities@[j], j) by {
        assert(entity_wf(a, a.entities@[j], j));
    }
}

impl World {
    /// Adds an entity and gives its index.
    fn spawn(&mut self, e: Entity) -> (id: usize)
        requires
            old(self).wf(),
            entity_wf(*old(self), e, old(self).entities@.len() as int),
        ensures
            final(self).wf(),
            id == old(self).entities@.len(),
            final(self).entities@ == old(self).entities@.push(e),
            final(self).meshes@ == old(self).meshes@,
            final(self).materials@ == old(self).materials@,
            final(self).colliders@ == old(self).colliders@,
    {
        let id = self.entities.len();
        let ghost w0 = *self;
        self.entities.push(e);
        assert forall|j: int| 0 <= j < self.entities@.len() implies entity_wf(
            *self,
            #[trigger] self.entities@[j],
            j,
        ) by {
            if j < id {
                assert(entity_wf(w0, w0.entities@[j], j));
            }
        }
        id
    }
}

/// Whether exactly the entities at indices `root + 1 ..= root + n` of `es`
/// have `root` as their parent.
pub open spec fn children_are(es: Seq<Entity>, root: int, n: int) -> bool {
    forall|j: int| 0 <= j < es.len() ==> ((#[trigger] es[j]).parent == Some(root as usize) <==> root < j <= root + n)
}

/// Whether `new` is `old` with the demo scene built from `asset` added, its
/// model root at index `root`.
pub open spec fn built_from(old: World, new: World, asset: ModelAsset, root: usize) -> bool {
    let n0 = old.entities@.len() as int;
    let m0 = old.meshes@.len() as int;
    let t0 = old.materials@.len() as int;
    let c0 = old.colliders@.len() as int;
    let prims = first_primitives(asset);
    let n = prims.len() as int;
    &&& new.wf()
    &&& root == n0 + 3
    &&& new.entities@.len() == n0 + 4 + n
    &&& new.entities@.subrange(0, n0) == old.entities@
    &&& new.entities@[n0] == camera_entity()
    &&& new.entities@[n0 + 1] == light_entity()
    &&& new.entities@[n0 + 2] == platform_entity(m0 as usize, t0 as usize, c0 as usize)
    &&& new.entities@[root as int] == model_root_entity(asset.default_scene->0)
    &&& forall|k: int|
        0 <= k < n ==> #[trigger] new.entities@[root + 1 + k] == collider_child_entity(
            root,
            (c0 + 1 + k) as usize,
        )
    &&& children_are(new.entities@, root as int, n)
    &&& new.meshes@.len() == m0 + 1
    &&& new.meshes@.subrange(0, m0) == old.meshes@
    &&& new.meshes@[m0].positions@ == platform_box().corners()
    &&& new.meshes@[m0].indices@ == crate::geometry::box_indices()
    &&& new.materials@ == old.materials@.push(platform_material())
    &&& new.colliders@.len() == c0 + 1 + n
    &&& new.colliders@.subrange(0, c0) == old.colliders@
    &&& new.colliders@[c0].vertices@ == platform_box().corners()
    &&& new.colliders@[c0].indices@ == crate::geometry::box_indices()
    &&& new.colliders@[c0].bounds == platform_box().extents()
    &&& forall|k: int| 0 <= k < n ==> is_collider_of(#[trigger] new.colliders@[c0 + 1 + k], prims[k])
}

impl World {
    /// Builds the demo scene from a loaded asset: a camera, a directional
    /// light, the platform with its mesh, material and box collider, the
    /// model's root, and under the root one collider child per primitive of
    /// the asset's first mesh group. Gives the root's index. On an error
    /// nothing is added.
    pub fn build_scene(&mut self, asset: &ModelAsset) -> (r: Result<usize, BuildError>)
        requires
            old(self).wf(),
        ensures
            r is Ok <==> buildable(*asset),
            (r matches Err(BuildError::NoDefaultScene)) <==> asset.default_scene is None,
            (r matches Err(BuildError::NoMeshes)) <==> (asset.default_scene is Some
                && asset.meshes@.len() == 0),
            r matches Err(BuildError::Collider { primitive, error }) ==> (asset.default_scene is Some
                && asset.meshes@.len() > 0 && first_bad_primitive(
                first_primitives(*asset),
                primitive as int,
            ) && error == crate::geometry::collider_error(first_primitives(*asset)[primitive as int])),
            r is Err ==> *final(self) == *old(self),
            r matches Ok(root) ==> built_from(*old(self), *final(self), *asset, root),
    {
        let scene = match asset.default_scene {
            Some(h) => h,
            None => {
                return Err(BuildError::NoDefaultScene);
            },
        };
        if asset.meshes.len() == 0 {
            return Err(BuildError::NoMeshes);
        }
        let prims = &asset.meshes[0].primitives;
        let mut cs = match primitive_colliders(prims) {
            Ok(cs) => cs,
            Err(e) => {
                return Err(e);
            },
        };
        let ghost w0 = *self;
        let n0 = self.entities.len();

        let camera = Entity {
            transform: Transform::from_xyz(CAMERA_RATIO * UNIT, CAMERA_RATIO * 250, CAMERA_RATIO * 250),
            camera: Some(
                CameraSetup { target: Vec3i { x: 0, y: 0, z: 0 }, up: Vec3i { x: 0, y: UNIT, z: 0 } },
            ),
            ..bare(EntityKind::Camera)
        };
        assert(camera == camera_entity());
        self.spawn(camera);

        let light = Entity {
            light: Some(
                LightSetup {
                    shadow: ShadowProjection {
                        left: -SHADOW_HALF_SIZE,
                        right: SHADOW_HALF_SIZE,
                        bottom: -SHADOW_HALF_SIZE,
                        top: SHADOW_HALF_SIZE,
                        near: -10 * SHADOW_HALF_SIZE,
                        far: 10 * SHADOW_HALF_SIZE,
                    },
                    shadows_enabled: true,
                },
            ),
            ..bare(EntityKind::DirectionalLight)
        };
        assert(light == light_entity());
        self.spawn(light);
        assert(self.entities@[n0 as int] == camera_entity());

        // The platform's box, as `platform_box` gives it.
        let platform = BoxShape {
            min_x: -1500,
            max_x: 1500,
            min_y: -100,
            max_y: 0,
            min_z: -1500,
            max_z: 1500,
        };
        let ghost w1 = *self;
        let mesh_id = self.meshes.len();
        self.meshes.push(box_mesh(platform));
        let material_id = self.materials.len();
        self.materials.push(
            Material { base_color: PLATFORM_COLOR, metallic: PLATFORM_METALLIC, roughness: PLATFORM_ROUGHNESS },
        );
        let collider_id = self.colliders.len();
        self.colliders.push(box_collider(platform));
        let first_child_collider = self.colliders.len();
        self.colliders.append(&mut cs);
        proof {
            lemma_wf_pools_grow(w1, *self);
        }
        let ghost meshes = self.meshes@;
        let ghost materials = self.materials@;
        let ghost colliders = self.colliders@;
        self.spawn(
            Entity {
                object_tag: true,
                mesh: Some(mesh_id),
                material: Some(material_id),
                collider: Some(collider_id),
                ..bare(EntityKind::Platform)
            },
        );

        let root = self.spawn(
            Entity {
                transform: Transform {
                    translation: Vec3i { x: 0, y: MODEL_HEIGHT, z: 0 },
                    rotation: Rotation { order: EulerOrder::Xyz, first: MODEL_TILT, second: 0, third: 0 },
                    scale: Vec3i { x: MODEL_SCALE, y: MODEL_SCALE, z: MODEL_SCALE },
                },
                object_tag: true,
                body: Some(BodyKind::Dynamic),
                scene: Some(scene),
                ..bare(EntityKind::ModelRoot)
            },
        );

        let ghost before_children = self.entities@;
        assert(before_children[n0 + 2] == platform_entity(mesh_id, material_id, collider_id));
        assert(before_children[root as int] == model_root_entity(scene));
        let n = prims.len();
        let total = self.colliders.len();
        let mut k: usize = 0;
        while k < n
            invariant
                self.wf(),
                k <= n,
                n == prims@.len(),
                root == n0 + 3,
                self.colliders@.len() == first_child_collider + n,
                total == first_child_collider + n,
                self.entities@.len() == root + 1 + k,
                self.entities@.subrange(0, root + 1) == before_children,
                forall|q: int|
                    0 <= q < k ==> #[trigger] self.entities@[root + 1 + q] == collider_child_entity(
                        root,
                        (first_child_collider + q) as usize,
                    ),
                self.meshes@ == meshes,
                self.materials@ == materials,
                self.colliders@ == colliders,
            decreases n - k,
        {
            let ghost e0 = self.entities@;
            self.spawn(
                Entity {
                    parent: Some(root),
                    collider: Some(first_child_collider + k),
                    ..bare(EntityKind::ColliderChild)
                },
            );
            assert(self.entities@.subrange(0, root + 1) =~= e0.subrange(0, root + 1));
            k = k + 1;
        }
        proof {
            let new = *self;
            let c0 = w0.colliders@.len() as int;
            assert(new.entities@.subrange(0, n0 as int) =~= w0.entities@);
            assert(before_children[n0 as int] == camera_entity());
            assert(before_children[n0 + 1] == light_entity());
            assert(new.entities@[n0 as int] == new.entities@.subrange(0, root + 1)[n0 as int]);
            assert(new.entities@[n0 + 1] == new.entities@.subrange(0, root + 1)[n0 + 1]);
            assert(new.entities@[n0 + 2] == new.entities@.subrange(0, root + 1)[n0 + 2]);
            assert(new.entities@[root as int] == new.entities@.subrange(0, root + 1)[root as int]);
            assert(new.entities@[n0 + 2] == platform_entity(
                w0.meshes@.len() as usize,
                w0.materials@.len() as usize,
                c0 as usize,
            ));
            assert(new.entities@[root as int] == model_root_entity(scene));
            assert forall|j: int| 0 <= j < new.entities@.len() implies ((#[trigger] new.entities@[j]).parent
                == Some(root) <==> root < j <= root + n) by {
                if j < n0 {
                    assert(new.entities@[j] == new.entities@.subrange(0, root + 1)[j]);
                    assert(new.entities@[j] == w0.entities@[j]);
                    assert(entity_wf(w0, w0.entities@[j], j));
                } else if j <= root {
                    assert(new.entities@[j] == new.entities@.subrange(0, root + 1)[j]);
                } else {
                    assert(new.entities@[root + 1 + (j - root - 1)] == collider_child_entity(
                        root,
                        (first_child_collider + (j - root - 1)) as usize,
                    ));
                }
            }
            assert(children_are(new.entities@, root as int, n as int));
            assert(new.meshes@.subrange(0, w0.meshes@.len() as int) =~= w0.meshes@);
            assert(new.materials@ =~= w0.materials@.push(platform_material()));
            assert(new.colliders@.subrange(0, c0) =~= w0.colliders@);
            assert(new.colliders@[c0].bounds == platform_box().extents());
            assert(forall|k: int|
                0 <= k < n ==> is_collider_of(#[trigger] new.colliders@[c0 + 1 + k], prims@[k]));
        }
        Ok(root)
    }
}

} // verus!
