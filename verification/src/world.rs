//! World state store: the authoritative registry of entities and their
//! components.
//!
//! An entity is an opaque index; components attach to it by type, and
//! re-attaching a component of the same type replaces the previous one.
//! Queries return exactly the entities holding all requested component
//! types, in ascending entity order — a deterministic order that is stable
//! within a frame.

use vstd::prelude::*;

use crate::collision::Collider;
use crate::physics::PhysicsBody;
use crate::transform::Transform;

verus! {

/// An opaque entity identifier.
#[derive(Clone, Copy, Debug, PartialEq, Eq, Structural)]
pub struct EntityId {
    pub index: usize,
}

/// The marker components of one entity: role tags used for querying, not
/// for behavior dispatch.
#[derive(Clone, Copy, Debug, PartialEq, Eq, Structural)]
pub struct TagSet {
    pub controllable: bool,
    pub camera_target: bool,
    pub ground: bool,
    pub maze: bool,
}

impl TagSet {
    /// No role.
    pub fn none() -> (r: TagSet)
        ensures
            r == (TagSet { controllable: false, camera_target: false, ground: false, maze: false }),
    {
        TagSet { controllable: false, camera_target: false, ground: false, maze: false }
    }
}

/// A set of requested component types for a query.
#[derive(Clone, Copy, Debug, PartialEq, Eq, Structural)]
pub struct ComponentSet {
    pub transform: bool,
    pub body: bool,
    pub collider: bool,
    pub controllable: bool,
    pub camera_target: bool,
    pub ground: bool,
    pub maze: bool,
}

/// The world state store: one column per component type, indexed by entity.
#[derive(Debug)]
pub struct World {
    pub transforms: Vec<Option<Transform>>,
    pub bodies: Vec<Option<PhysicsBody>>,
    pub colliders: Vec<Option<Collider>>,
    pub tags: Vec<TagSet>,
}

impl World {
    /// The number of entities ever created.
    pub open spec fn num_entities(self) -> nat {
        self.transforms@.len()
    }

    /// Columns are parallel, and every attached component is valid.
    pub open spec fn wf(self) -> bool {
        &&& self.bodies@.len() == self.num_entities()
        &&& self.colliders@.len() == self.num_entities()
        &&& self.tags@.len() == self.num_entities()
        &&& forall|i: int|
            0 <= i < self.num_entities() && (#[trigger] self.transforms@[i]).is_some()
                ==> self.transforms@[i].unwrap().valid()
        &&& forall|i: int|
            0 <= i < self.num_entities() && (#[trigger] self.bodies@[i]).is_some()
                ==> self.bodies@[i].unwrap().valid()
        &&& forall|i: int|
            0 <= i < self.num_entities() && (#[trigger] self.colliders@[i]).is_some()
                ==> self.colliders@[i].unwrap().valid()
    }

    /// `e` names an entity this store created.
    pub open spec fn has_entity(self, e: EntityId) -> bool {
        e.index < self.num_entities()
    }

    /// Entity `i` holds every component type requested in `set`.
    pub open spec fn spec_matches(self, i: int, set: ComponentSet) -> bool {
        &&& (set.transform ==> self.transforms@[i].is_some())
        &&& (set.body ==> self.bodies@[i].is_some())
        &&& (set.collider ==> self.colliders@[i].is_some())
        &&& (set.controllable ==> self.tags@[i].controllable)
        &&& (set.camera_target ==> self.tags@[i].camera_target)
        &&& (set.ground ==> self.tags@[i].ground)
        &&& (set.maze ==> self.tags@[i].maze)
    }

    /// The ids of the first `n` entities that match `set`, in ascending
    /// order.
    pub open spec fn matching_ids(self, set: ComponentSet, n: nat) -> Seq<EntityId>
        decreases n,
    {
        if n == 0 {
            Seq::empty()
        } else {
            let prefix = self.matching_ids(set, (n - 1) as nat);
            if self.spec_matches(n - 1, set) {
                prefix.push(EntityId { index: (n - 1) as usize })
            } else {
                prefix
            }
        }
    }

    /// An empty store.
    pub fn new() -> (r: World)
        ensures
            r.num_entities() == 0,
            r.wf(),
    {
        World { transforms: Vec::new(), bodies: Vec::new(), colliders: Vec::new(), tags: Vec::new() }
    }

    /// Create a fresh entity with no components and no tags.
    pub fn create_entity(&mut self) -> (e: EntityId)
        requires
            old(self).wf(),
            old(self).num_entities() < usize::MAX,
        ensures
            final(self).wf(),
            e.index == old(self).num_entities(),
            final(self).num_entities() == old(self).num_entities() + 1,
            final(self).transforms@ == old(self).transforms@.push(Option::None),
            final(self).bodies@ == old(self).bodies@.push(Option::None),
            final(self).colliders@ == old(self).colliders@.push(Option::None),
            final(self).tags@ == old(self).tags@.push(
                TagSet { controllable: false, camera_target: false, ground: false, maze: false },
            ),
    {
        let e = EntityId { index: self.transforms.len() };
        self.transforms.push(Option::None);
        self.bodies.push(Option::None);
        self.colliders.push(Option::None);
        self.tags.push(TagSet::none());
        e
    }

    /// Attach a transform to `e`, replacing any previous one: attachment is
    /// idempotent per component type.
    pub fn attach_transform(&mut self, e: EntityId, t: Transform)
        requires
            old(self).wf(),
            old(self).has_entity(e),
            t.valid(),
        ensures
            final(self).wf(),
            final(self).transforms@ == old(self).transforms@.update(
                e.index as int,
                Option::Some(t),
            ),
            final(self).bodies@ == old(self).bodies@,
            final(self).colliders@ == old(self).colliders@,
            final(self).tags@ == old(self).tags@,
    {
        self.transforms.set(e.index, Option::Some(t));
    }

    /// Attach a physics body to `e`, replacing any previous one.
    pub fn attach_body(&mut self, e: EntityId, b: PhysicsBody)
        requires
            old(self).wf(),
            old(self).has_entity(e),
            b.valid(),
        ensures
            final(self).wf(),
            final(self).bodies@ == old(self).bodies@.update(e.index as int, Option::Some(b)),
            final(self).transforms@ == old(self).transforms@,
            final(self).colliders@ == old(self).colliders@,
            final(self).tags@ == old(self).tags@,
    {
        self.bodies.set(e.index, Option::Some(b));
    }

    /// Attach a collider to `e`, replacing any previous one.
    pub fn attach_collider(&mut self, e: EntityId, c: Collider)
        requires
            old(self).wf(),
            old(self).has_entity(e),
            c.valid(),
        ensures
            final(self).wf(),
            final(self).colliders@ == old(self).colliders@.update(e.index as int, Option::Some(c)),
            final(self).transforms@ == old(self).transforms@,
            final(self).bodies@ == old(self).bodies@,
            final(self).tags@ == old(self).tags@,
    {
        self.colliders.set(e.index, Option::Some(c));
    }

    /// Replace the tag set of `e`.
    pub fn set_tags(&mut self, e: EntityId, tags: TagSet)
        requires
            old(self).wf(),
            old(self).has_entity(e),
        ensures
            final(self).wf(),
            final(self).tags@ == old(self).tags@.update(e.index as int, tags),
            final(self).transforms@ == old(self).transforms@,
            final(self).bodies@ == old(self).bodies@,
            final(self).colliders@ == old(self).colliders@,
    {
        self.tags.set(e.index, tags);
    }

    /// Read the transform of `e`.
    pub fn transform_of(&self, e: EntityId) -> (r: Option<Transform>)
        requires
            self.wf(),
            self.has_entity(e),
        ensures
            r == self.transforms@[e.index as int],
    {
        match &self.transforms[e.index] {
            Option::Some(t) => Option::Some(*t),
            Option::None => Option::None,
        }
    }

    /// Read the physics body of `e`.
    pub fn body_of(&self, e: EntityId) -> (r: Option<PhysicsBody>)
        requires
            self.wf(),
            self.has_entity(e),
        ensures
            r == self.bodies@[e.index as int],
    {
        match &self.bodies[e.index] {
            Option::Some(b) => Option::Some(*b),
            Option::None => Option::None,
        }
    }

    /// Read the collider of `e`.
    pub fn collider_of(&self, e: EntityId) -> (r: Option<Collider>)
        requires
            self.wf(),
            self.has_entity(e),
        ensures
            r == self.colliders@[e.index as int],
    {
        match &self.colliders[e.index] {
            Option::Some(c) => Option::Some(*c),
            Option::None => Option::None,
        }
    }

    /// Read the tag set of `e`.
    pub fn tags_of(&self, e: EntityId) -> (r: TagSet)
        requires
            self.wf(),
            self.has_entity(e),
        ensures
            r == self.tags@[e.index as int],
    {
        self.tags[e.index]
    }

    /// Return exactly the entities holding all component types requested in
    /// `set`, in ascending entity order.
    pub fn query(&self, set: ComponentSet) -> (r: Vec<EntityId>)
        requires
            self.wf(),
        ensures
            r@ == self.matching_ids(set, self.num_entities()),
    {
        let mut r: Vec<EntityId> = Vec::new();
        let n = self.transforms.len();
        let mut i: usize = 0;
        while i < n
            invariant
                0 <= i <= n,
                n == self.num_entities(),
                self.wf(),
                r@ == self.matching_ids(set, i as nat),
            decreases n - i,
        {
            let matches_all = (!set.transform || self.transforms[i].is_some()) && (!set.body
                || self.bodies[i].is_some()) && (!set.collider || self.colliders[i].is_some()) && (
            !set.controllable || self.tags[i].controllable) && (!set.camera_target
                || self.tags[i].camera_target) && (!set.ground || self.tags[i].ground) && (!set.maze
                || self.tags[i].maze);
            if matches_all {
                r.push(EntityId { index: i });
            }
            i = i + 1;
        }
        r
    }
}

/// Every id a query returns names an entity that matches the requested
/// set, and the returned order is strictly ascending.
pub proof fn lemma_matching_ids_sound(w: World, set: ComponentSet, n: nat)
    requires
        n <= w.num_entities(),
        n <= usize::MAX,
    ensures
        forall|k: int|
            0 <= k < w.matching_ids(set, n).len() ==> (#[trigger] w.matching_ids(set, n)[k]).index
                < n,
        forall|k: int|
            0 <= k < w.matching_ids(set, n).len() ==> w.spec_matches(
                (#[trigger] w.matching_ids(set, n)[k]).index as int,
                set,
            ),
        forall|k1: int, k2: int|
            0 <= k1 < k2 < w.matching_ids(set, n).len() ==> (#[trigger] w.matching_ids(set, n)[k1]).index
                < (#[trigger] w.matching_ids(set, n)[k2]).index,
    decreases n,
{
    if n > 0 {
        lemma_matching_ids_sound(w, set, (n - 1) as nat);
        let prefix = w.matching_ids(set, (n - 1) as nat);
        let ids = w.matching_ids(set, n);
        if w.spec_matches(n - 1, set) {
            let last = EntityId { index: (n - 1) as usize };
            assert(ids == prefix.push(last));
            assert forall|k: int| 0 <= k < ids.len() implies (#[trigger] ids[k]).index < n
                && w.spec_matches(ids[k].index as int, set) by {
                if k < prefix.len() {
                    assert(ids[k] == prefix[k]);
                } else {
                    assert(ids[k] == last);
                }
            };
            assert forall|k1: int, k2: int| 0 <= k1 < k2 < ids.len() implies (
            #[trigger] ids[k1]).index < (#[trigger] ids[k2]).index by {
                if k2 < prefix.len() {
                    assert(ids[k1] == prefix[k1] && ids[k2] == prefix[k2]);
                } else {
                    assert(ids[k1] == prefix[k1]);
                    assert(prefix[k1].index < n - 1);
                    assert(ids[k2] == last);
                }
            };
        } else {
            assert(ids == prefix);
        }
    }
}

/// Every entity that matches the requested set appears in the query
/// result.
pub proof fn lemma_matching_ids_complete(w: World, set: ComponentSet, n: nat, i: int)
    requires
        0 <= i < n <= w.num_entities(),
        w.spec_matches(i, set),
    ensures
        w.matching_ids(set, n).contains(EntityId { index: i as usize }),
    decreases n,
{
    if i == n - 1 {
        assert(w.matching_ids(set, n)[w.matching_ids(set, n).len() - 1] == (EntityId {
            index: i as usize,
        }));
    } else {
        lemma_matching_ids_complete(w, set, (n - 1) as nat, i);
        let prefix = w.matching_ids(set, (n - 1) as nat);
        let k = choose|k: int| 0 <= k < prefix.len() && prefix[k] == (EntityId { index: i as usize });
        assert(w.matching_ids(set, n)[k] == (EntityId { index: i as usize }));
    }
}

} // verus!
