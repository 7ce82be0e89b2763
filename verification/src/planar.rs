//! The planar (two-dimensional) physics world, built on rapier2d.
//!
//! The world owns every rapier2d structure that a simulation step needs.
//! The library reads and fills the three sets (rigid bodies, colliders,
//! impulse joints) through the trusted items below; the other structures are
//! only created here and handed on to the simulation step, which runs outside
//! the library because it computes in floating point.
use vstd::prelude::*;
use vstd::multiset::Multiset;
use rapier2d::dynamics::{
    CCDSolver, ImpulseJointSet, IntegrationParameters, IslandManager, MultibodyJointSet, RigidBody,
    RigidBodySet,
};
use rapier2d::geometry::{BroadPhase, ColliderSet, NarrowPhase};
use rapier2d::pipeline::{PhysicsPipeline, QueryPipeline};

use crate::engine::WorldModel;
use crate::engine::{serde_error_text, EngineError};

verus! {

#[verifier::external_type_specification]
#[verifier::external_body]
pub struct ExPlanarRigidBodySet(RigidBodySet);

#[verifier::external_type_specification]
#[verifier::external_body]
pub struct ExPlanarRigidBody(RigidBody);

#[verifier::external_type_specification]
#[verifier::external_body]
pub struct ExPlanarColliderSet(ColliderSet);

#[verifier::external_type_specification]
#[verifier::external_body]
pub struct ExPlanarImpulseJointSet(ImpulseJointSet);

#[verifier::external_type_specification]
#[verifier::external_body]
pub struct ExPlanarMultibodyJointSet(MultibodyJointSet);

#[verifier::external_type_specification]
#[verifier::external_body]
pub struct ExPlanarIslandManager(IslandManager);

#[verifier::external_type_specification]
#[verifier::external_body]
pub struct ExPlanarBroadPhase(BroadPhase);

#[verifier::external_type_specification]
#[verifier::external_body]
pub struct ExPlanarNarrowPhase(NarrowPhase);

#[verifier::external_type_specification]
#[verifier::external_body]
pub struct ExPlanarCcdSolver(CCDSolver);

#[verifier::external_type_specification]
#[verifier::external_body]
pub struct ExPlanarQueryPipeline(QueryPipeline);

#[verifier::external_type_specification]
#[verifier::external_body]
pub struct ExPlanarPhysicsPipeline(PhysicsPipeline);

#[verifier::external_type_specification]
#[verifier::external_body]
pub struct ExPlanarIntegrationParameters(IntegrationParameters);

/// What a rapier2d `RigidBodySet` holds: the raw parts `(index, generation)`
/// of the handle of each live rigid body.
pub uninterp spec fn planar_bodies(set: RigidBodySet) -> Multiset<(u32, u32)>;

/// Whether the arena of a rapier2d `RigidBodySet` is sound: its slot vector
/// is not empty, its free list runs only through free slots within the
/// vector, and its stored length is the number of occupied slots. Every set
/// that `RigidBodySet::new` builds and `insert` updates is sound; a set read
/// back by `Deserialize` need not be, and on such a set `insert` may panic
/// and `len` may give another count.
pub uninterp spec fn planar_body_arena_sound(set: RigidBodySet) -> bool;

/// Whether the arena of a rapier2d `ColliderSet` is sound, in the sense of
/// `planar_body_arena_sound`; `len` gives the number of colliders only then.
pub uninterp spec fn planar_collider_arena_sound(set: ColliderSet) -> bool;

/// What a rapier2d `ColliderSet` holds: the raw parts of the handle of each
/// live collider.
pub uninterp spec fn planar_colliders(set: ColliderSet) -> Multiset<(u32, u32)>;

/// What a rapier2d `ImpulseJointSet` holds: the raw parts of the handle of
/// each impulse joint in its joint graph.
pub uninterp spec fn planar_impulse_joints(set: ImpulseJointSet) -> Multiset<(u32, u32)>;

/// What a rapier2d `MultibodyJointSet` holds: the raw parts of the handle of
/// each multibody joint that its `iter` yields (the links added by a user).
pub uninterp spec fn planar_multibody_joints(set: MultibodyJointSet) -> Multiset<(u32, u32)>;

/// What `serde_json::to_string` gives for a rapier2d `RigidBodySet`: the
/// JSON text, or `None` where the serialiser refuses it. The set is
/// serialised by its derived `Serialize` from arena vectors, so the outcome
/// depends on the set alone.
pub uninterp spec fn planar_bodies_json(set: RigidBodySet) -> Option<Seq<char>>;

/// `RigidBodySet::new` of rapier2d: the set it builds holds no body; its
/// arena starts with four free slots chained in its free list and a length
/// of zero, so it is sound.
#[verifier::external_body]
fn new_body_set() -> (set: RigidBodySet)
    ensures
        planar_bodies(set) =~= Multiset::empty(),
        planar_body_arena_sound(set),
{
    RigidBodySet::new()
}

/// `ColliderSet::new` of rapier2d: the set it builds holds no collider, in a
/// sound arena as `RigidBodySet::new` builds it.
#[verifier::external_body]
fn new_collider_set() -> (set: ColliderSet)
    ensures
        planar_colliders(set) =~= Multiset::empty(),
        planar_collider_arena_sound(set),
{
    ColliderSet::new()
}

/// `ImpulseJointSet::new` of rapier2d: the set it builds holds no joint (its
/// joint graph starts without edges).
#[verifier::external_body]
fn new_impulse_joint_set() -> (set: ImpulseJointSet)
    ensures
        planar_impulse_joints(set) =~= Multiset::empty(),
{
    ImpulseJointSet::new()
}

/// `MultibodyJointSet::new` of rapier2d: the set it builds holds no joint
/// (its link coarena starts empty).
#[verifier::external_body]
fn new_multibody_joint_set() -> (set: MultibodyJointSet)
    ensures
        planar_multibody_joints(set) =~= Multiset::empty(),
{
    MultibodyJointSet::new()
}

/// `IslandManager::new` of rapier2d; nothing is claimed of the result.
#[verifier::external_body]
fn new_island_manager() -> IslandManager {
    IslandManager::new()
}

/// `BroadPhase::new` of rapier2d; nothing is claimed of the result.
#[verifier::external_body]
fn new_broad_phase() -> BroadPhase {
    BroadPhase::new()
}

/// `NarrowPhase::new` of rapier2d; nothing is claimed of the result.
#[verifier::external_body]
fn new_narrow_phase() -> NarrowPhase {
    NarrowPhase::new()
}

/// `CCDSolver::new` of rapier2d; nothing is claimed of the result.
#[verifier::external_body]
fn new_ccd_solver() -> CCDSolver {
    CCDSolver::new()
}

/// `QueryPipeline::new` of rapier2d; nothing is claimed of the result.
#[verifier::external_body]
fn new_query_pipeline() -> QueryPipeline {
    QueryPipeline::new()
}

/// `PhysicsPipeline::new` of rapier2d; nothing is claimed of the result.
#[verifier::external_body]
fn new_physics_pipeline() -> PhysicsPipeline {
    PhysicsPipeline::new()
}

/// `IntegrationParameters::default` of rapier2d; nothing is claimed of the
/// result (its fields are floating-point numbers).
#[verifier::external_body]
fn default_integration_parameters() -> IntegrationParameters {
    IntegrationParameters::default()
}

/// `RigidBodySet::len` of rapier2d: the length that its arena keeps, which
/// is the number of live bodies in a sound arena.
#[verifier::external_body]
fn body_set_len(set: &RigidBodySet) -> (n: usize)
    requires
        planar_body_arena_sound(*set),
    ensures
        n == planar_bodies(*set).len(),
{
    set.len()
}

/// `ColliderSet::len` of rapier2d: the length that its arena keeps, which
/// is the number of live colliders in a sound arena.
#[verifier::external_body]
fn collider_set_len(set: &ColliderSet) -> (n: usize)
    requires
        planar_collider_arena_sound(*set),
    ensures
        n == planar_colliders(*set).len(),
{
    set.len()
}

/// `ImpulseJointSet::len` of rapier2d: the number of impulse joints (edges of
/// its joint graph).
#[verifier::external_body]
fn impulse_joint_set_len(set: &ImpulseJointSet) -> (n: usize)
    ensures
        n == planar_impulse_joints(*set).len(),
{
    set.len()
}

/// `RigidBodySet::insert` of rapier2d, with the returned handle converted to
/// its raw parts by `RigidBodyHandle::into_raw_parts`. In a sound arena it
/// takes the slot at the head of its free list (after doubling the slot
/// vector when the list is empty), a slot that holds no live body, so no
/// live body had that index (whatever its generation) before the call; the
/// set afterwards holds exactly one body more and its arena stays sound.
/// Left unsaid: growing the arena past 2^32 slots overflows a `u32` slot
/// number; the memory such an arena needs runs out first.
#[verifier::external_body]
fn body_set_insert(set: &mut RigidBodySet, body: RigidBody) -> (key: (u32, u32))
    requires
        planar_body_arena_sound(*old(set)),
    ensures
        planar_body_arena_sound(*final(set)),
        forall|generation: u32| planar_bodies(*old(set)).count((key.0, generation)) == 0,
        planar_bodies(*final(set)) =~= planar_bodies(*old(set)).insert(key),
{
    set.insert(body).into_raw_parts()
}

/// `serde_json::to_string` on a rapier2d `RigidBodySet`: the text named by
/// `planar_bodies_json`, which is a JSON object since the set is a struct
/// with a derived `Serialize`. On which sets the serialiser refuses is not
/// stated.
#[verifier::external_body]
fn body_set_to_json(set: &RigidBodySet) -> (r: Result<String, serde_json::Error>)
    ensures
        r is Ok <==> planar_bodies_json(*set) is Some,
        r matches Ok(text) ==> text@ == planar_bodies_json(*set).unwrap(),
        r matches Ok(text) ==> text@.len() >= 2 && text@[0] == '{' && text@.last() == '}',
{
    serde_json::to_string(set)
}

/// A planar physics world: the rapier2d structures that a simulation step
/// reads and updates.
pub struct PlanarWorld {
    pub rigid_body_set: RigidBodySet,
    pub collider_set: ColliderSet,
    pub integration_parameters: IntegrationParameters,
    pub physics_pipeline: PhysicsPipeline,
    pub island_manager: IslandManager,
    pub broad_phase: BroadPhase,
    pub narrow_phase: NarrowPhase,
    pub impulse_joint_set: ImpulseJointSet,
    pub multibody_joint_set: MultibodyJointSet,
    pub ccd_solver: CCDSolver,
    pub query_pipeline: QueryPipeline,
}

impl PlanarWorld {
    /// The sets of the world, as the library sees them.
    pub open spec fn model(&self) -> WorldModel {
        WorldModel {
            bodies: planar_bodies(self.rigid_body_set),
            colliders: planar_colliders(self.collider_set),
            impulse_joints: planar_impulse_joints(self.impulse_joint_set),
            multibody_joints: planar_multibody_joints(self.multibody_joint_set),
            arenas_sound: planar_body_arena_sound(self.rigid_body_set)
                && planar_collider_arena_sound(self.collider_set),
        }
    }

    /// The JSON text of the world's rigid-body set, if the serialiser
    /// accepts it.
    pub open spec fn bodies_json_text(&self) -> Option<Seq<char>> {
        planar_bodies_json(self.rigid_body_set)
    }

    /// A world with no body, collider or joint, and default integration
    /// parameters.
    pub fn new() -> (world: PlanarWorld)
        ensures
            world.model() == WorldModel::empty(),
    {
        PlanarWorld {
            rigid_body_set: new_body_set(),
            collider_set: new_collider_set(),
            integration_parameters: default_integration_parameters(),
            physics_pipeline: new_physics_pipeline(),
            island_manager: new_island_manager(),
            broad_phase: new_broad_phase(),
            narrow_phase: new_narrow_phase(),
            impulse_joint_set: new_impulse_joint_set(),
            multibody_joint_set: new_multibody_joint_set(),
            ccd_solver: new_ccd_solver(),
            query_pipeline: new_query_pipeline(),
        }
    }

    /// Number of rigid bodies in the world.
    pub fn body_count(&self) -> (n: usize)
        requires
            self.model().arenas_sound,
        ensures
            n == self.model().bodies.len(),
    {
        body_set_len(&self.rigid_body_set)
    }

    /// Number of colliders in the world.
    pub fn collider_count(&self) -> (n: usize)
        requires
            self.model().arenas_sound,
        ensures
            n == self.model().colliders.len(),
    {
        collider_set_len(&self.collider_set)
    }

    /// Number of impulse joints in the world.
    pub fn impulse_joint_count(&self) -> (n: usize)
        ensures
            n == self.model().impulse_joints.len(),
    {
        impulse_joint_set_len(&self.impulse_joint_set)
    }

    /// Adds a rigid body; returns the raw parts of its new handle, whose
    /// index no live body had before. Nothing else in the world changes.
    pub fn insert_body(&mut self, body: RigidBody) -> (key: (u32, u32))
        requires
            old(self).model().arenas_sound,
        ensures
            forall|generation: u32| old(self).model().bodies.count((key.0, generation)) == 0,
            final(self).model() == old(self).model().with_body(key),
    {
        body_set_insert(&mut self.rigid_body_set, body)
    }

    /// The rigid-body set as JSON text, or the serialiser's message.
    pub fn bodies_json(&self) -> (r: Result<String, EngineError>)
        ensures
            r is Ok <==> self.bodies_json_text() is Some,
            r matches Ok(text) ==> text@ == self.bodies_json_text().unwrap(),
            r matches Ok(text) ==> text@.len() >= 2 && text@[0] == '{' && text@.last() == '}',
            r matches Err(e) ==> e is Serialization,
    {
        match body_set_to_json(&self.rigid_body_set) {
            Ok(text) => Ok(text),
            Err(e) => Err(EngineError::Serialization(serde_error_text(&e))),
        }
    }
}

} // verus!
