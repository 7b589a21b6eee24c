//! The per-frame updaters: the altitude reporter and the light animator.
use vstd::prelude::*;

use crate::light::{light_rotation, light_rotation_spec};
use crate::scene::{entity_wf, Entity, World};
use crate::transform::Transform;

verus! {

/// Whether `e` is a rigid body.
pub open spec fn is_rigid_body(e: Entity) -> bool {
    e.body is Some
}

/// The rigid bodies among `es`, in order.
pub open spec fn rigid_bodies(es: Seq<Entity>) -> Seq<Entity> {
    es.filter(|e: Entity| is_rigid_body(e))
}

/// How many of `es` are rigid bodies.
pub open spec fn rigid_body_count(es: Seq<Entity>) -> nat {
    rigid_bodies(es).len()
}

/// The height of each rigid body among `es`, in order.
pub open spec fn altitudes_spec(es: Seq<Entity>) -> Seq<i64> {
    rigid_bodies(es).map_values(|e: Entity| e.transform.translation.y)
}

/// `e` with its rotation set to the light's rotation at `t` milliseconds.
pub open spec fn animated(e: Entity, t: u64) -> Entity {
    Entity { transform: Transform { rotation: light_rotation_spec(t), ..e.transform }, ..e }
}

impl World {
    /// The altitude reporter: the height (y) of every rigid body, in the
    /// order of the entities.
    pub fn altitudes(&self) -> (r: Vec<i64>)
        ensures
            r@ == altitudes_spec(self.entities@),
    {
        let mut r: Vec<i64> = Vec::new();
        let mut i: usize = 0;
        while i < self.entities.len()
            invariant
                i <= self.entities@.len(),
                r@ == altitudes_spec(self.entities@.take(i as int)),
            decreases self.entities@.len() - i,
        {
            let e = self.entities[i];
            let ghost pre = self.entities@.take(i as int);
            let ghost post = self.entities@.take(i as int + 1);
            assert(post.drop_last() =~= pre);
            assert(post.last() == e);
            proof {
                reveal(Seq::filter);
            }
            if e.body.is_some() {
                r.push(e.transform.translation.y);
                assert(r@ =~= altitudes_spec(post));
            } else {
                assert(r@ =~= altitudes_spec(post));
            }
            i = i + 1;
        }
        assert(self.entities@.take(i as int) =~= self.entities@);
        r
    }

    /// The light animator: sets the rotation of every directional light to
    /// the light's rotation `elapsed_ms` milliseconds after start; nothing
    /// else changes.
    pub fn animate_lights(&mut self, elapsed_ms: u64)
        requires
            old(self).wf(),
        ensures
            final(self).wf(),
            final(self).entities@.len() == old(self).entities@.len(),
            forall|j: int|
                0 <= j < old(self).entities@.len() ==> #[trigger] final(self).entities@[j] == if old(
                    self,
                ).entities@[j].light is Some {
                    animated(old(self).entities@[j], elapsed_ms)
                } else {
                    old(self).entities@[j]
                },
            final(self).meshes@ == old(self).meshes@,
            final(self).materials@ == old(self).materials@,
            final(self).colliders@ == old(self).colliders@,
    {
        let rotation = light_rotation(elapsed_ms);
        let ghost w0 = *self;
        let mut i: usize = 0;
        while i < self.entities.len()
            invariant
                i <= self.entities@.len(),
                self.entities@.len() == w0.entities@.len(),
                rotation == light_rotation_spec(elapsed_ms),
                forall|j: int|
                    0 <= j < i ==> #[trigger] self.entities@[j] == if w0.entities@[j].light is Some {
                        animated(w0.entities@[j], elapsed_ms)
                    } else {
                        w0.entities@[j]
                    },
                forall|j: int| i <= j < self.entities@.len() ==> #[trigger] self.entities@[j] == w0.entities@[j],
                self.meshes@ == w0.meshes@,
                self.materials@ == w0.materials@,
                self.colliders@ == w0.colliders@,
            decreases self.entities@.len() - i,
        {
            let mut e = self.entities[i];
            if e.light.is_some() {
                e.transform.rotation = rotation;
                self.entities.set(i, e);
            }
            i = i + 1;
        }
        assert forall|j: int| 0 <= j < self.entities@.len() implies entity_wf(
            *self,
            #[trigger] self.entities@[j],
            j,
        ) by {
            assert(entity_wf(w0, w0.entities@[j], j));
        }
    }
}

/// The altitude reporter gives one height per rigid body.
pub proof fn lemma_one_altitude_per_rigid_body(w: World)
    ensures
        altitudes_spec(w.entities@).len() == rigid_body_count(w.entities@),
{
}

} // verus!
