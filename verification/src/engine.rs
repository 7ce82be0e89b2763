//! The engine's bookkeeping: which worlds exist, the pools that remember the
//! handles of created bodies, and the counts reported after each step.
use vstd::prelude::*;
use vstd::multiset::Multiset;

use crate::planar::PlanarWorld;
use crate::spatial::SpatialWorld;

verus! {

#[verifier::external_type_specification]
#[verifier::external_body]
pub struct ExSerdeJsonError(serde_json::Error);

/// `serde_json::Error` as text (its `Display`, through `to_string`). What
/// the message says is not stated.
#[verifier::external_body]
pub(crate) fn serde_error_text(e: &serde_json::Error) -> String {
    e.to_string()
}

/// Which of the two worlds a handle belongs to.
#[derive(Clone, Copy, Debug, PartialEq, Eq, Structural)]
pub enum Dimension {
    Planar,
    Spatial,
}

/// A handle kept in one of the engine's pools: the world it belongs to and
/// the raw parts `(index, generation)` of the rapier handle.
#[derive(Clone, Copy, Debug, PartialEq, Eq, Structural)]
pub struct PooledHandle {
    pub dimension: Dimension,
    pub index: u32,
    pub generation: u32,
}

/// The counts that the engine reports after a step.
#[derive(Clone, Copy, Debug, PartialEq, Eq, Structural)]
pub struct PhysicsCounts {
    pub rigid_body_count: u32,
    pub collider_count: u32,
    pub joint_count: u32,
    pub contact_count: u32,
}

impl PhysicsCounts {
    /// All counts zero.
    pub open spec fn zero() -> PhysicsCounts {
        PhysicsCounts { rigid_body_count: 0, collider_count: 0, joint_count: 0, contact_count: 0 }
    }
}

/// Why an engine operation was refused.
#[derive(Debug, PartialEq, Eq)]
pub enum EngineError {
    /// A planar operation was asked for before `init_2d`.
    PlanarWorldMissing,
    /// A spatial operation was asked for before `init_3d`.
    SpatialWorldMissing,
    /// State was asked for while no world exists.
    NoActiveWorld,
    /// The serialiser refused the state; its message.
    Serialization(String),
}

/// The sets of a world, by the raw parts of the handles they hold.
pub struct WorldModel {
    pub bodies: Multiset<(u32, u32)>,
    pub colliders: Multiset<(u32, u32)>,
    pub impulse_joints: Multiset<(u32, u32)>,
    pub multibody_joints: Multiset<(u32, u32)>,
    /// Whether the body and collider arenas are sound, so that rapier can
    /// add bodies to them and count them (see `planar_body_arena_sound`).
    pub arenas_sound: bool,
}

impl WorldModel {
    /// A world that holds nothing.
    pub open spec fn empty() -> WorldModel {
        WorldModel {
            bodies: Multiset::empty(),
            colliders: Multiset::empty(),
            impulse_joints: Multiset::empty(),
            multibody_joints: Multiset::empty(),
            arenas_sound: true,
        }
    }

    /// The same world with one more body.
    pub open spec fn with_body(self, key: (u32, u32)) -> WorldModel {
        WorldModel { bodies: self.bodies.insert(key), ..self }
    }

    /// The counts this world reports: each set's size, cut to 32 bits as a
    /// `u32` cast does; the contact count is carried over.
    pub open spec fn counts(self, contact_count: u32) -> PhysicsCounts {
        PhysicsCounts {
            rigid_body_count: self.bodies.len() as u32,
            collider_count: self.colliders.len() as u32,
            joint_count: self.impulse_joints.len() as u32,
            contact_count,
        }
    }
}

/// The whole engine as the library sees it.
pub struct EngineModel {
    pub planar: Option<WorldModel>,
    pub spatial: Option<WorldModel>,
    pub counts: PhysicsCounts,
    pub body_pool: Seq<PooledHandle>,
    pub collider_pool: Seq<PooledHandle>,
    pub joint_pool: Seq<PooledHandle>,
}

impl EngineModel {
    /// A new engine: no world, every count zero, every pool empty.
    pub open spec fn fresh() -> EngineModel {
        EngineModel {
            planar: None,
            spatial: None,
            counts: PhysicsCounts::zero(),
            body_pool: Seq::empty(),
            collider_pool: Seq::empty(),
            joint_pool: Seq::empty(),
        }
    }

    /// The engine with a new, empty planar world (any earlier one dropped).
    pub open spec fn with_planar_world(self) -> EngineModel {
        EngineModel { planar: Some(WorldModel::empty()), ..self }
    }

    /// The engine with a new, empty spatial world (any earlier one dropped).
    pub open spec fn with_spatial_world(self) -> EngineModel {
        EngineModel { spatial: Some(WorldModel::empty()), ..self }
    }

    /// The counts a step reports: those of the spatial world when there is
    /// one, else those of the planar world, else the earlier counts.
    pub open spec fn active_counts(self) -> PhysicsCounts {
        match self.spatial {
            Some(w) => w.counts(self.counts.contact_count),
            None => match self.planar {
                Some(w) => w.counts(self.counts.contact_count),
                None => self.counts,
            },
        }
    }

    /// The engine after the counts of a step are recorded.
    pub open spec fn recounted(self) -> EngineModel {
        EngineModel { counts: self.active_counts(), ..self }
    }

    /// The engine after a body with handle parts `key` joins the planar
    /// world and the body pool.
    pub open spec fn with_planar_body(self, key: (u32, u32)) -> EngineModel {
        EngineModel {
            planar: Some(self.planar.unwrap().with_body(key)),
            body_pool: self.body_pool.push(
                PooledHandle { dimension: Dimension::Planar, index: key.0, generation: key.1 },
            ),
            ..self
        }
    }

    /// The engine after a body with handle parts `key` joins the spatial
    /// world and the body pool.
    pub open spec fn with_spatial_body(self, key: (u32, u32)) -> EngineModel {
        EngineModel {
            spatial: Some(self.spatial.unwrap().with_body(key)),
            body_pool: self.body_pool.push(
                PooledHandle { dimension: Dimension::Spatial, index: key.0, generation: key.1 },
            ),
            ..self
        }
    }

    /// The engine after bodies with handle parts `keys` join the planar
    /// world and the body pool, in order.
    pub open spec fn with_planar_bodies(self, keys: Seq<(u32, u32)>) -> EngineModel
        decreases keys.len(),
    {
        if keys.len() == 0 {
            self
        } else {
            self.with_planar_bodies(keys.drop_last()).with_planar_body(keys.last())
        }
    }

    /// The engine after bodies with handle parts `keys` join the spatial
    /// world and the body pool, in order.
    pub open spec fn with_spatial_bodies(self, keys: Seq<(u32, u32)>) -> EngineModel
        decreases keys.len(),
    {
        if keys.len() == 0 {
            self
        } else {
            self.with_spatial_bodies(keys.drop_last()).with_spatial_body(keys.last())
        }
    }

    /// The engine after cleanup: no world, empty pools, counts kept.
    pub open spec fn cleaned(self) -> EngineModel {
        EngineModel {
            planar: None,
            spatial: None,
            body_pool: Seq::empty(),
            collider_pool: Seq::empty(),
            joint_pool: Seq::empty(),
            ..self
        }
    }
}

/// The model of an optional planar world.
pub open spec fn planar_model(w: Option<PlanarWorld>) -> Option<WorldModel> {
    match w {
        Some(w) => Some(w.model()),
        None => None,
    }
}

/// The model of an optional spatial world.
pub open spec fn spatial_model(w: Option<SpatialWorld>) -> Option<WorldModel> {
    match w {
        Some(w) => Some(w.model()),
        None => None,
    }
}

/// The engine: a planar and a spatial world, each present once initialised,
/// the pools of handles, and the counts of the last step.
pub struct PhysicsEngine {
    world_2d: Option<PlanarWorld>,
    world_3d: Option<SpatialWorld>,
    stats: PhysicsCounts,
    body_pool: Vec<PooledHandle>,
    collider_pool: Vec<PooledHandle>,
    joint_pool: Vec<PooledHandle>,
}

impl View for PhysicsEngine {
    type V = EngineModel;

    closed spec fn view(&self) -> EngineModel {
        EngineModel {
            planar: planar_model(self.world_2d),
            spatial: spatial_model(self.world_3d),
            counts: self.stats,
            body_pool: self.body_pool@,
            collider_pool: self.collider_pool@,
            joint_pool: self.joint_pool@,
        }
    }
}

impl PhysicsEngine {
    /// The planar world the engine holds, if any.
    pub closed spec fn planar_world(&self) -> Option<PlanarWorld> {
        self.world_2d
    }

    /// The spatial world the engine holds, if any.
    pub closed spec fn spatial_world(&self) -> Option<SpatialWorld> {
        self.world_3d
    }

    /// The engine's view shows exactly the models of the worlds it holds.
    pub proof fn lemma_view_worlds(&self)
        ensures
            self@.planar == planar_model(self.planar_world()),
            self@.spatial == spatial_model(self.spatial_world()),
    {
    }

    /// What `export_state` serialises: the rigid-body set of the planar
    /// world, or with no planar world that of the spatial world; `None`
    /// where the serialiser refuses it or there is no world.
    pub open spec fn exported_json(&self) -> Option<Seq<char>> {
        match self.planar_world() {
            Some(w) => w.bodies_json_text(),
            None => match self.spatial_world() {
                Some(w) => w.bodies_json_text(),
                None => None,
            },
        }
    }

    /// A new engine with no world; the body and collider pools reserve room
    /// for `max_bodies` and `max_colliders` handles.
    pub fn new(max_bodies: u32, max_colliders: u32) -> (engine: PhysicsEngine)
        ensures
            engine@ == EngineModel::fresh(),
    {
        let engine = PhysicsEngine {
            world_2d: None,
            world_3d: None,
            stats: PhysicsCounts {
                rigid_body_count: 0,
                collider_count: 0,
                joint_count: 0,
                contact_count: 0,
            },
            body_pool: Vec::with_capacity(max_bodies as usize),
            collider_pool: Vec::with_capacity(max_colliders as usize),
            joint_pool: Vec::with_capacity(1000),
        };
        proof {
            assert(engine@.body_pool =~= Seq::<PooledHandle>::empty());
            assert(engine@.collider_pool =~= Seq::<PooledHandle>::empty());
            assert(engine@.joint_pool =~= Seq::<PooledHandle>::empty());
        }
        engine
    }

    /// Creates an empty planar world, replacing any earlier one. Never fails.
    pub fn init_2d(&mut self) -> (r: Result<(), EngineError>)
        ensures
            r is Ok,
            final(self)@ == old(self)@.with_planar_world(),
            final(self)@.planar matches Some(w) && w.bodies.len() == 0 && w.colliders.len() == 0
                && w.impulse_joints.len() == 0 && w.multibody_joints.len() == 0 && w.arenas_sound,
            final(self)@.spatial == old(self)@.spatial,
            final(self)@.counts == old(self)@.counts,
            final(self)@.body_pool == old(self)@.body_pool,
    {
        self.world_2d = Some(PlanarWorld::new());
        Ok(())
    }

    /// Creates an empty spatial world, replacing any earlier one. Never fails.
    pub fn init_3d(&mut self) -> (r: Result<(), EngineError>)
        ensures
            r is Ok,
            final(self)@ == old(self)@.with_spatial_world(),
            final(self)@.spatial matches Some(w) && w.bodies.len() == 0 && w.colliders.len() == 0
                && w.impulse_joints.len() == 0 && w.multibody_joints.len() == 0 && w.arenas_sound,
            final(self)@.planar == old(self)@.planar,
            final(self)@.counts == old(self)@.counts,
            final(self)@.body_pool == old(self)@.body_pool,
    {
        self.world_3d = Some(SpatialWorld::new());
        Ok(())
    }

    /// Records the counts of a step: those of the spatial world when there is
    /// one, else those of the planar world; with no world the counts stay.
    pub fn record_step_counts(&mut self)
        requires
            old(self)@.planar matches Some(w) ==> w.arenas_sound,
            old(self)@.spatial matches Some(w) ==> w.arenas_sound,
        ensures
            final(self)@ == old(self)@.recounted(),
            old(self)@.spatial matches Some(w) ==> final(self)@.counts == (PhysicsCounts {
                rigid_body_count: w.bodies.len() as u32,
                collider_count: w.colliders.len() as u32,
                joint_count: w.impulse_joints.len() as u32,
                contact_count: old(self)@.counts.contact_count,
            }),
            old(self)@.spatial is None ==> (old(self)@.planar matches Some(w)
                ==> final(self)@.counts == (PhysicsCounts {
                rigid_body_count: w.bodies.len() as u32,
                collider_count: w.colliders.len() as u32,
                joint_count: w.impulse_joints.len() as u32,
                contact_count: old(self)@.counts.contact_count,
            })),
            old(self)@.spatial is None && old(self)@.planar is None
                ==> final(self)@.counts == old(self)@.counts,
    {
        let contact_count = self.stats.contact_count;
        if let Some(world) = &self.world_2d {
            self.stats = PhysicsCounts {
                rigid_body_count: world.body_count() as u32,
                collider_count: world.collider_count() as u32,
                joint_count: world.impulse_joint_count() as u32,
                contact_count,
            };
        }
        if let Some(world) = &self.world_3d {
            self.stats = PhysicsCounts {
                rigid_body_count: world.body_count() as u32,
                collider_count: world.collider_count() as u32,
                joint_count: world.impulse_joint_count() as u32,
                contact_count,
            };
        }
    }

    /// Adds a dynamic body to the planar world and its handle to the body
    /// pool; returns the index part of the handle. Refused, with nothing
    /// changed, when there is no planar world.
    pub fn create_dynamic_body_2d(
        &mut self,
        body: rapier2d::dynamics::RigidBody,
    ) -> (r: Result<u32, EngineError>)
        requires
            old(self)@.planar matches Some(w) ==> w.arenas_sound,
        ensures
            r is Ok <==> old(self)@.planar is Some,
            r matches Ok(id) ==> {
                let h = final(self)@.body_pool.last();
                &&& final(self)@.body_pool.len() == old(self)@.body_pool.len() + 1
                &&& h.dimension == Dimension::Planar
                &&& h.index == id
                &&& forall|generation: u32|
                    old(self)@.planar.unwrap().bodies.count((id, generation)) == 0
                &&& forall|k: (u32, u32)|
                    #[trigger] old(self)@.planar.unwrap().bodies.contains(k) ==> k.0 != id
                &&& final(self)@.planar.unwrap().bodies.contains((id, h.generation))
                &&& final(self)@ == old(self)@.with_planar_body((h.index, h.generation))
            },
            r matches Err(e) ==> e == EngineError::PlanarWorldMissing && final(self)@ == old(self)@,
    {
        let ghost before = self@.planar;
        match &mut self.world_2d {
            Some(world) => {
                let key = world.insert_body(body);
                proof {
                    let bodies = before.unwrap().bodies;
                    assert forall|k: (u32, u32)| #[trigger] bodies.contains(k) implies k.0 != key.0 by {
                        if k.0 == key.0 {
                            assert(bodies.count((key.0, k.1)) == 0);
                        }
                    }
                    assert(bodies.insert(key).contains(key));
                }
                self.body_pool.push(
                    PooledHandle { dimension: Dimension::Planar, index: key.0, generation: key.1 },
                );
                Ok(key.0)
            },
            None => Err(EngineError::PlanarWorldMissing),
        }
    }

    /// Adds a dynamic body to the spatial world and its handle to the body
    /// pool; returns the index part of the handle. Refused, with nothing
    /// changed, when there is no spatial world.
    pub fn create_dynamic_body_3d(
        &mut self,
        body: rapier3d::dynamics::RigidBody,
    ) -> (r: Result<u32, EngineError>)
        requires
            old(self)@.spatial matches Some(w) ==> w.arenas_sound,
        ensures
            r is Ok <==> old(self)@.spatial is Some,
            r matches Ok(id) ==> {
                let h = final(self)@.body_pool.last();
                &&& final(self)@.body_pool.len() == old(self)@.body_pool.len() + 1
                &&& h.dimension == Dimension::Spatial
                &&& h.index == id
                &&& forall|generation: u32|
                    old(self)@.spatial.unwrap().bodies.count((id, generation)) == 0
                &&& forall|k: (u32, u32)|
                    #[trigger] old(self)@.spatial.unwrap().bodies.contains(k) ==> k.0 != id
                &&& final(self)@.spatial.unwrap().bodies.contains((id, h.generation))
                &&& final(self)@ == old(self)@.with_spatial_body((h.index, h.generation))
            },
            r matches Err(e) ==> e == EngineError::SpatialWorldMissing && final(self)@ == old(self)@,
    {
        let ghost before = self@.spatial;
        match &mut self.world_3d {
            Some(world) => {
                let key = world.insert_body(body);
                proof {
                    let bodies = before.unwrap().bodies;
                    assert forall|k: (u32, u32)| #[trigger] bodies.contains(k) implies k.0 != key.0 by {
                        if k.0 == key.0 {
                            assert(bodies.count((key.0, k.1)) == 0);
                        }
                    }
                    assert(bodies.insert(key).contains(key));
                }
                self.body_pool.push(
                    PooledHandle { dimension: Dimension::Spatial, index: key.0, generation: key.1 },
                );
                Ok(key.0)
            },
            None => Err(EngineError::SpatialWorldMissing),
        }
    }

    /// The counts recorded by the last step.
    pub fn get_counts(&self) -> (counts: PhysicsCounts)
        ensures
            counts == self@.counts,
    {
        self.stats
    }

    /// The rigid bodies of the planar world as JSON, or, with no planar world,
    /// those of the spatial world. Refused with `NoActiveWorld` exactly when
    /// there is no world; a refusal of the serialiser comes back as
    /// `Serialization`.
    pub fn export_state(&self) -> (r: Result<String, EngineError>)
        ensures
            (self@.planar is None && self@.spatial is None) <==> r == Err::<String, EngineError>(
                EngineError::NoActiveWorld,
            ),
            (self@.planar is Some || self@.spatial is Some) ==> (r is Ok
                <==> self.exported_json() is Some),
            r matches Ok(text) ==> text@ == self.exported_json().unwrap(),
            r matches Err(e) ==> (e is NoActiveWorld || e is Serialization),
            r matches Ok(text) ==> text@.len() >= 2 && text@[0] == '{' && text@.last() == '}',
            self.planar_world() matches Some(w) ==> {
                &&& (r is Ok <==> crate::planar::planar_bodies_json(w.rigid_body_set) is Some)
                &&& (r matches Ok(text) ==> text@ == crate::planar::planar_bodies_json(
                    w.rigid_body_set,
                ).unwrap())
            },
            self.planar_world() is None ==> (self.spatial_world() matches Some(w) ==> {
                &&& (r is Ok <==> crate::spatial::spatial_bodies_json(w.rigid_body_set) is Some)
                &&& (r matches Ok(text) ==> text@ == crate::spatial::spatial_bodies_json(
                    w.rigid_body_set,
                ).unwrap())
            }),
    {
        proof {
            self.lemma_view_worlds();
        }
        match &self.world_2d {
            Some(world) => world.bodies_json(),
            None => match &self.world_3d {
                Some(world) => world.bodies_json(),
                None => Err(EngineError::NoActiveWorld),
            },
        }
    }

    /// The planar world, for a simulation step to advance. Whatever the
    /// caller leaves there is the engine's planar world afterwards; nothing
    /// else in the engine changes.
    pub fn world_2d_mut(&mut self) -> (world: &mut Option<PlanarWorld>)
        ensures
            *world == old(self).planar_world(),
            final(self).planar_world() == *final(world),
            planar_model(*world) == old(self)@.planar,
            final(self)@ == (EngineModel { planar: planar_model(*final(world)), ..old(self)@ }),
    {
        &mut self.world_2d
    }

    /// The spatial world, for a simulation step to advance. Whatever the
    /// caller leaves there is the engine's spatial world afterwards; nothing
    /// else in the engine changes.
    pub fn world_3d_mut(&mut self) -> (world: &mut Option<SpatialWorld>)
        ensures
            *world == old(self).spatial_world(),
            final(self).spatial_world() == *final(world),
            spatial_model(*world) == old(self)@.spatial,
            final(self)@ == (EngineModel { spatial: spatial_model(*final(world)), ..old(self)@ }),
    {
        &mut self.world_3d
    }

    /// Drops both worlds and empties the pools; the recorded counts stay.
    pub fn cleanup(&mut self)
        ensures
            final(self)@ == old(self)@.cleaned(),
    {
        self.world_2d = None;
        self.world_3d = None;
        self.body_pool.clear();
        self.collider_pool.clear();
        self.joint_pool.clear();
        proof {
            assert(self.body_pool@ =~= Seq::<PooledHandle>::empty());
            assert(self.collider_pool@ =~= Seq::<PooledHandle>::empty());
            assert(self.joint_pool@ =~= Seq::<PooledHandle>::empty());
        }
    }
}

/// The pooled form of planar handle parts.
pub open spec fn planar_handle(key: (u32, u32)) -> PooledHandle {
    PooledHandle { dimension: Dimension::Planar, index: key.0, generation: key.1 }
}

/// The pooled form of spatial handle parts.
pub open spec fn spatial_handle(key: (u32, u32)) -> PooledHandle {
    PooledHandle { dimension: Dimension::Spatial, index: key.0, generation: key.1 }
}

/// Recording the counts of a step twice in a row gives what recording them
/// once gives.
pub proof fn law_recount_is_idempotent(m: EngineModel)
    ensures
        m.recounted().recounted() == m.recounted(),
{
}

/// A freshly initialised world reports no body, collider or joint at the
/// next step (the planar one only while no spatial world exists).
pub proof fn law_new_world_counts_zero(m: EngineModel)
    ensures
        m.with_spatial_world().recounted().counts == (PhysicsCounts {
            contact_count: m.counts.contact_count,
            ..PhysicsCounts::zero()
        }),
        m.spatial is None ==> m.with_planar_world().recounted().counts == (PhysicsCounts {
            contact_count: m.counts.contact_count,
            ..PhysicsCounts::zero()
        }),
{
    assert(Multiset::<(u32, u32)>::empty().len() == 0);
}

/// Each body created in the world that the step reports on raises the
/// reported rigid-body count by one (modulo 2^32) and adds one pool entry;
/// the other counts stay.
pub proof fn law_created_body_is_counted(m: EngineModel, key: (u32, u32))
    requires
        (m.spatial is None && m.planar is Some) || m.spatial is Some,
    ensures
        m.spatial is None ==> {
            let after = m.with_planar_body(key).recounted();
            &&& after.counts.rigid_body_count == (m.planar.unwrap().bodies.len() + 1) as u32
            &&& after.counts.collider_count == m.recounted().counts.collider_count
            &&& after.counts.joint_count == m.recounted().counts.joint_count
            &&& after.body_pool == m.body_pool.push(planar_handle(key))
        },
        m.spatial is Some ==> {
            let after = m.with_spatial_body(key).recounted();
            &&& after.counts.rigid_body_count == (m.spatial.unwrap().bodies.len() + 1) as u32
            &&& after.counts.collider_count == m.recounted().counts.collider_count
            &&& after.counts.joint_count == m.recounted().counts.joint_count
            &&& after.body_pool == m.body_pool.push(spatial_handle(key))
        },
{
}

/// Bodies created one after another in a planar world: the world holds
/// each of them, the pool lists them in order of creation, and the step
/// reports their number (modulo 2^32) while no spatial world exists.
pub proof fn law_planar_bodies_accumulate(m: EngineModel, keys: Seq<(u32, u32)>)
    requires
        m.planar is Some,
    ensures
        m.with_planar_bodies(keys).planar is Some,
        m.with_planar_bodies(keys).planar.unwrap().bodies.len()
            == m.planar.unwrap().bodies.len() + keys.len(),
        m.with_planar_bodies(keys).body_pool == m.body_pool + keys.map_values(
            |k: (u32, u32)| planar_handle(k),
        ),
        m.spatial is None ==> m.with_planar_bodies(keys).recounted().counts.rigid_body_count == (
        m.planar.unwrap().bodies.len() + keys.len()) as u32,
        m.with_planar_bodies(keys).spatial == m.spatial,
    decreases keys.len(),
{
    if keys.len() > 0 {
        law_planar_bodies_accumulate(m, keys.drop_last());
        let prev = keys.drop_last().map_values(|k: (u32, u32)| planar_handle(k));
        assert(keys.map_values(|k: (u32, u32)| planar_handle(k)) =~= prev.push(
            planar_handle(keys.last()),
        ));
        assert(m.with_planar_bodies(keys).body_pool =~= m.body_pool + keys.map_values(
            |k: (u32, u32)| planar_handle(k),
        ));
    } else {
        assert(m.with_planar_bodies(keys).body_pool =~= m.body_pool + keys.map_values(
            |k: (u32, u32)| planar_handle(k),
        ));
    }
}

/// Bodies created one after another in a spatial world: the world holds
/// each of them, the pool lists them in order of creation, and the step
/// reports their number (modulo 2^32).
pub proof fn law_spatial_bodies_accumulate(m: EngineModel, keys: Seq<(u32, u32)>)
    requires
        m.spatial is Some,
    ensures
        m.with_spatial_bodies(keys).spatial is Some,
        m.with_spatial_bodies(keys).spatial.unwrap().bodies.len()
            == m.spatial.unwrap().bodies.len() + keys.len(),
        m.with_spatial_bodies(keys).body_pool == m.body_pool + keys.map_values(
            |k: (u32, u32)| spatial_handle(k),
        ),
        m.with_spatial_bodies(keys).recounted().counts.rigid_body_count == (
        m.spatial.unwrap().bodies.len() + keys.len()) as u32,
        m.with_spatial_bodies(keys).planar == m.planar,
    decreases keys.len(),
{
    if keys.len() > 0 {
        law_spatial_bodies_accumulate(m, keys.drop_last());
        let prev = keys.drop_last().map_values(|k: (u32, u32)| spatial_handle(k));
        assert(keys.map_values(|k: (u32, u32)| spatial_handle(k)) =~= prev.push(
            spatial_handle(keys.last()),
        ));
        assert(m.with_spatial_bodies(keys).body_pool =~= m.body_pool + keys.map_values(
            |k: (u32, u32)| spatial_handle(k),
        ));
    } else {
        assert(m.with_spatial_bodies(keys).body_pool =~= m.body_pool + keys.map_values(
            |k: (u32, u32)| spatial_handle(k),
        ));
    }
}

/// Bodies created one after the other in the same world get different
/// handles and different ids: the second id is an index that no body of the
/// world held, so it cannot be the first body's index.
pub proof fn law_created_ids_differ(m: EngineModel, first: (u32, u32), second: (u32, u32))
    ensures
        (m.planar is Some && forall|generation: u32|
            m.with_planar_body(first).planar.unwrap().bodies.count((second.0, generation)) == 0)
            ==> {
            &&& first.0 != second.0
            &&& first != second
            &&& m.with_planar_body(first).with_planar_body(second).body_pool.len()
                == m.body_pool.len() + 2
        },
        (m.spatial is Some && forall|generation: u32|
            m.with_spatial_body(first).spatial.unwrap().bodies.count((second.0, generation)) == 0)
            ==> {
            &&& first.0 != second.0
            &&& first != second
            &&& m.with_spatial_body(first).with_spatial_body(second).body_pool.len()
                == m.body_pool.len() + 2
        },
{
    if m.planar is Some {
        assert(m.with_planar_body(first).planar.unwrap().bodies.count((first.0, first.1)) > 0);
    }
    if m.spatial is Some {
        assert(m.with_spatial_body(first).spatial.unwrap().bodies.count((first.0, first.1)) > 0);
    }
}

/// Cleanup drops both worlds and empties the pools but keeps the counts;
/// doing it twice is doing it once, a step after it reports the same counts,
/// and a new engine is unchanged by it.
pub proof fn law_cleanup(m: EngineModel)
    ensures
        m.cleaned().planar is None,
        m.cleaned().spatial is None,
        m.cleaned().counts == m.counts,
        m.cleaned().cleaned() == m.cleaned(),
        m.cleaned().recounted() == m.cleaned(),
        EngineModel::fresh().cleaned() == EngineModel::fresh(),
{
}

/// One operation on the engine, as its model sees it. `ReplacePlanar` and
/// `ReplaceSpatial` stand for whatever a caller leaves in a world handed out
/// by `world_2d_mut` or `world_3d_mut` (a simulation step, say).
pub enum EngineOp {
    InitPlanar,
    InitSpatial,
    CreatePlanar((u32, u32)),
    CreateSpatial((u32, u32)),
    RecordCounts,
    Cleanup,
    ReplacePlanar(Option<WorldModel>),
    ReplaceSpatial(Option<WorldModel>),
}

impl EngineModel {
    /// The engine after one operation; a creation without its world is
    /// refused and changes nothing.
    pub open spec fn apply(self, op: EngineOp) -> EngineModel {
        match op {
            EngineOp::InitPlanar => self.with_planar_world(),
            EngineOp::InitSpatial => self.with_spatial_world(),
            EngineOp::CreatePlanar(key) => if self.planar is Some {
                self.with_planar_body(key)
            } else {
                self
            },
            EngineOp::CreateSpatial(key) => if self.spatial is Some {
                self.with_spatial_body(key)
            } else {
                self
            },
            EngineOp::RecordCounts => self.recounted(),
            EngineOp::Cleanup => self.cleaned(),
            EngineOp::ReplacePlanar(w) => EngineModel { planar: w, ..self },
            EngineOp::ReplaceSpatial(w) => EngineModel { spatial: w, ..self },
        }
    }
}

/// The engine after a new engine has undergone `ops`, in order.
pub open spec fn run_ops(ops: Seq<EngineOp>) -> EngineModel
    decreases ops.len(),
{
    if ops.len() == 0 {
        EngineModel::fresh()
    } else {
        run_ops(ops.drop_last()).apply(ops.last())
    }
}

/// The set sizes seen by the latest step of `ops` that found a world (the
/// spatial one when both exist), with a contact count of zero; all zero when
/// no step found a world.
pub open spec fn latest_step_counts(ops: Seq<EngineOp>) -> PhysicsCounts
    decreases ops.len(),
{
    if ops.len() == 0 {
        PhysicsCounts::zero()
    } else {
        let before = run_ops(ops.drop_last());
        if ops.last() is RecordCounts && before.spatial is Some {
            before.spatial.unwrap().counts(0)
        } else if ops.last() is RecordCounts && before.planar is Some {
            before.planar.unwrap().counts(0)
        } else {
            latest_step_counts(ops.drop_last())
        }
    }
}

/// Over every sequence of operations from a new engine, the reported counts
/// are the set sizes seen by the latest step that found a world (zero if
/// none), and the contact count stays zero.
pub proof fn law_counts_are_latest_step(ops: Seq<EngineOp>)
    ensures
        run_ops(ops).counts == latest_step_counts(ops),
        run_ops(ops).counts.contact_count == 0,
    decreases ops.len(),
{
    if ops.len() > 0 {
        law_counts_are_latest_step(ops.drop_last());
    }
}

/// The world of dimension `d`.
pub open spec fn world_of(m: EngineModel, d: Dimension) -> Option<WorldModel> {
    match d {
        Dimension::Planar => m.planar,
        Dimension::Spatial => m.spatial,
    }
}

/// Whether a replacement of a world keeps its bodies, as a simulation step
/// does: a world stays a world with the same body handles, and no world
/// stays no world.
pub open spec fn keeps_bodies(before: Option<WorldModel>, after: Option<WorldModel>) -> bool {
    match before {
        Some(b) => after is Some && after.unwrap().bodies == b.bodies,
        None => after is None,
    }
}

/// Whether a handle with parts `key` may come out of a creation in `w`: its
/// index is that of no body of the world, as the creation functions ensure.
pub open spec fn fresh_in(w: Option<WorldModel>, key: (u32, u32)) -> bool {
    w matches Some(world) ==> forall|generation: u32| world.bodies.count((key.0, generation)) == 0
}

/// Whether `op` can follow the state `m` through the engine's functions:
/// a creation yields a fresh index, and a world handed out for a step comes
/// back with its bodies.
pub open spec fn op_admissible(m: EngineModel, op: EngineOp) -> bool {
    match op {
        EngineOp::CreatePlanar(key) => fresh_in(m.planar, key),
        EngineOp::CreateSpatial(key) => fresh_in(m.spatial, key),
        EngineOp::ReplacePlanar(w) => keeps_bodies(m.planar, w),
        EngineOp::ReplaceSpatial(w) => keeps_bodies(m.spatial, w),
        _ => true,
    }
}

/// Whether every operation of `ops` is admissible where it happens.
pub open spec fn ops_admissible(ops: Seq<EngineOp>) -> bool
    decreases ops.len(),
{
    ops.len() == 0 || (ops_admissible(ops.drop_last()) && op_admissible(
        run_ops(ops.drop_last()),
        ops.last(),
    ))
}

/// The handle parts of the bodies created in the world of dimension `d`
/// since it was last initialised or cleaned up, in order of creation.
pub open spec fn created_since_reset(ops: Seq<EngineOp>, d: Dimension) -> Seq<(u32, u32)>
    decreases ops.len(),
{
    if ops.len() == 0 {
        Seq::empty()
    } else {
        let before = run_ops(ops.drop_last());
        let earlier = created_since_reset(ops.drop_last(), d);
        match ops.last() {
            EngineOp::Cleanup => Seq::empty(),
            EngineOp::InitPlanar => if d == Dimension::Planar {
                Seq::empty()
            } else {
                earlier
            },
            EngineOp::InitSpatial => if d == Dimension::Spatial {
                Seq::empty()
            } else {
                earlier
            },
            EngineOp::CreatePlanar(key) => if d == Dimension::Planar && before.planar is Some {
                earlier.push(key)
            } else {
                earlier
            },
            EngineOp::CreateSpatial(key) => if d == Dimension::Spatial && before.spatial is Some {
                earlier.push(key)
            } else {
                earlier
            },
            _ => earlier,
        }
    }
}

/// Every body created in a world since it was last initialised or cleaned
/// up gets an id (index) of its own, and each of them is still in the world;
/// with no world, none is counted as created.
pub proof fn law_created_handles_distinct(ops: Seq<EngineOp>, d: Dimension)
    requires
        ops_admissible(ops),
    ensures
        forall|i: int, j: int|
            0 <= i < j < created_since_reset(ops, d).len() ==> created_since_reset(ops, d)[i].0
                != created_since_reset(ops, d)[j].0,
        world_of(run_ops(ops), d) matches Some(w) ==> forall|i: int|
            0 <= i < created_since_reset(ops, d).len() ==> w.bodies.count(
                #[trigger] created_since_reset(ops, d)[i],
            ) > 0,
        world_of(run_ops(ops), d) is None ==> created_since_reset(ops, d).len() == 0,
    decreases ops.len(),
{
    if ops.len() > 0 {
        let prev = ops.drop_last();
        law_created_handles_distinct(prev, d);
        let before = run_ops(prev);
        let s0 = created_since_reset(prev, d);
        let s = created_since_reset(ops, d);
        let op = ops.last();
        match op {
            EngineOp::CreatePlanar(key) => {
                if d == Dimension::Planar && before.planar is Some {
                    let w0 = before.planar.unwrap();
                    assert(s == s0.push(key));
                    assert forall|i: int| 0 <= i < s0.len() implies s0[i].0 != key.0 by {
                        assert(w0.bodies.count(s0[i]) > 0);
                        if s0[i].0 == key.0 {
                            assert(w0.bodies.count((key.0, s0[i].1)) == 0);
                        }
                    }
                    assert forall|i: int, j: int| 0 <= i < j < s.len() implies s[i].0 != s[j].0 by {
                        if j == s.len() - 1 {
                            assert(s[j] == key);
                            assert(s[i] == s0[i]);
                        } else {
                            assert(s[i] == s0[i] && s[j] == s0[j]);
                        }
                    }
                    let w = run_ops(ops).planar.unwrap();
                    assert(w.bodies == w0.bodies.insert(key));
                    assert forall|i: int| 0 <= i < s.len() implies w.bodies.count(#[trigger] s[i]) > 0 by {
                        if i < s.len() - 1 {
                            assert(s[i] == s0[i]);
                            assert(w0.bodies.count(s0[i]) > 0);
                        }
                    }
                }
            },
            EngineOp::CreateSpatial(key) => {
                if d == Dimension::Spatial && before.spatial is Some {
                    let w0 = before.spatial.unwrap();
                    assert(s == s0.push(key));
                    assert forall|i: int| 0 <= i < s0.len() implies s0[i].0 != key.0 by {
                        assert(w0.bodies.count(s0[i]) > 0);
                        if s0[i].0 == key.0 {
                            assert(w0.bodies.count((key.0, s0[i].1)) == 0);
                        }
                    }
                    assert forall|i: int, j: int| 0 <= i < j < s.len() implies s[i].0 != s[j].0 by {
                        if j == s.len() - 1 {
                            assert(s[j] == key);
                            assert(s[i] == s0[i]);
                        } else {
                            assert(s[i] == s0[i] && s[j] == s0[j]);
                        }
                    }
                    let w = run_ops(ops).spatial.unwrap();
                    assert(w.bodies == w0.bodies.insert(key));
                    assert forall|i: int| 0 <= i < s.len() implies w.bodies.count(#[trigger] s[i]) > 0 by {
                        if i < s.len() - 1 {
                            assert(s[i] == s0[i]);
                            assert(w0.bodies.count(s0[i]) > 0);
                        }
                    }
                }
            },
            _ => {},
        }
    }
}

/// Initialising a world always leaves an empty world of that dimension,
/// whatever the other world holds; nothing else changes.
pub proof fn law_init_makes_empty_world(m: EngineModel)
    ensures
        m.with_planar_world().planar matches Some(w) && w.bodies.len() == 0 && w.colliders.len()
            == 0 && w.impulse_joints.len() == 0 && w.multibody_joints.len() == 0 && w.arenas_sound,
        m.with_planar_world().spatial == m.spatial,
        m.with_planar_world().counts == m.counts,
        m.with_planar_world().body_pool == m.body_pool,
        m.with_spatial_world().spatial matches Some(w) && w.bodies.len() == 0
            && w.colliders.len() == 0 && w.impulse_joints.len() == 0 && w.multibody_joints.len()
            == 0 && w.arenas_sound,
        m.with_spatial_world().planar == m.planar,
        m.with_spatial_world().counts == m.counts,
        m.with_spatial_world().body_pool == m.body_pool,
{
}

/// A step reports, for the world it looks at (the spatial one when there is
/// one, else the planar one), the number of its rigid bodies, of its
/// colliders and of its impulse joints (each cut to 32 bits), and keeps the
/// contact count; with no world it keeps every count.
pub proof fn law_step_reports_set_sizes(m: EngineModel)
    ensures
        m.spatial matches Some(w) ==> {
            &&& m.recounted().counts.rigid_body_count == w.bodies.len() as u32
            &&& m.recounted().counts.collider_count == w.colliders.len() as u32
            &&& m.recounted().counts.joint_count == w.impulse_joints.len() as u32
            &&& m.recounted().counts.contact_count == m.counts.contact_count
        },
        m.spatial is None ==> (m.planar matches Some(w) ==> {
            &&& m.recounted().counts.rigid_body_count == w.bodies.len() as u32
            &&& m.recounted().counts.collider_count == w.colliders.len() as u32
            &&& m.recounted().counts.joint_count == w.impulse_joints.len() as u32
            &&& m.recounted().counts.contact_count == m.counts.contact_count
        }),
        m.spatial is None && m.planar is None ==> m.recounted().counts == m.counts,
        m.recounted().planar == m.planar && m.recounted().spatial == m.spatial,
        m.recounted().body_pool == m.body_pool,
{
}

/// The exported JSON is the serialiser's text for the rigid-body set of the
/// planar world when there is one, and otherwise for that of the spatial
/// world; with no world there is none.
pub proof fn law_export_is_the_active_set(e: &PhysicsEngine)
    ensures
        e.planar_world() matches Some(w) ==> e.exported_json()
            == crate::planar::planar_bodies_json(w.rigid_body_set),
        e.planar_world() is None ==> (e.spatial_world() matches Some(w) ==> e.exported_json()
            == crate::spatial::spatial_bodies_json(w.rigid_body_set)),
        e.planar_world() is None && e.spatial_world() is None ==> e.exported_json() is None,
{
}

} // verus!
