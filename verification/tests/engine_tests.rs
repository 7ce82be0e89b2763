use rapier2d::prelude::RigidBodyBuilder as Builder2;
use rapier3d::prelude::RigidBodyBuilder as Builder3;
use rapier_wasm::{Dimension, EngineError, PhysicsCounts, PhysicsEngine};

fn planar_body(x: f32, y: f32) -> rapier2d::dynamics::RigidBody {
    Builder2::dynamic().translation(nalgebra::Vector2::new(x, y)).rotation(0.0).build()
}

fn spatial_body(x: f32, y: f32, z: f32) -> rapier3d::dynamics::RigidBody {
    Builder3::dynamic().translation(nalgebra::Vector3::new(x, y, z)).build()
}

fn zero_counts() -> PhysicsCounts {
    PhysicsCounts { rigid_body_count: 0, collider_count: 0, joint_count: 0, contact_count: 0 }
}

#[test]
fn new_engine_has_nothing() {
    let mut engine = PhysicsEngine::new(10000, 10000);
    assert_eq!(engine.get_counts(), zero_counts());
    assert_eq!(engine.export_state(), Err(EngineError::NoActiveWorld));
    assert_eq!(engine.create_dynamic_body_2d(planar_body(0.0, 0.0)), Err(EngineError::PlanarWorldMissing));
    assert_eq!(
        engine.create_dynamic_body_3d(spatial_body(0.0, 0.0, 0.0)),
        Err(EngineError::SpatialWorldMissing)
    );
    engine.record_step_counts();
    assert_eq!(engine.get_counts(), zero_counts());
}

#[test]
fn planar_bodies_are_counted_after_a_step() {
    let mut engine = PhysicsEngine::new(16, 16);
    assert_eq!(engine.init_2d(), Ok(()));
    engine.record_step_counts();
    assert_eq!(engine.get_counts(), zero_counts());
    let a = engine.create_dynamic_body_2d(planar_body(1.0, 2.0)).unwrap();
    let b = engine.create_dynamic_body_2d(planar_body(3.0, 4.0)).unwrap();
    let c = engine.create_dynamic_body_2d(planar_body(5.0, 6.0)).unwrap();
    assert_eq!((a, b, c), (0, 1, 2));
    assert_eq!(engine.get_counts(), zero_counts());
    engine.record_step_counts();
    assert_eq!(
        engine.get_counts(),
        PhysicsCounts { rigid_body_count: 3, collider_count: 0, joint_count: 0, contact_count: 0 }
    );
    engine.record_step_counts();
    assert_eq!(engine.get_counts().rigid_body_count, 3);
}

#[test]
fn spatial_world_counts_win_over_planar() {
    let mut engine = PhysicsEngine::new(8, 8);
    engine.init_2d().unwrap();
    engine.init_3d().unwrap();
    engine.create_dynamic_body_2d(planar_body(0.0, 0.0)).unwrap();
    engine.create_dynamic_body_2d(planar_body(1.0, 0.0)).unwrap();
    let id = engine.create_dynamic_body_3d(spatial_body(0.0, 0.0, 0.0)).unwrap();
    assert_eq!(id, 0);
    engine.record_step_counts();
    assert_eq!(engine.get_counts().rigid_body_count, 1);
}

#[test]
fn reinitialising_a_world_drops_its_bodies() {
    let mut engine = PhysicsEngine::new(8, 8);
    engine.init_2d().unwrap();
    engine.create_dynamic_body_2d(planar_body(0.0, 0.0)).unwrap();
    engine.create_dynamic_body_2d(planar_body(0.0, 1.0)).unwrap();
    engine.init_2d().unwrap();
    engine.record_step_counts();
    assert_eq!(engine.get_counts().rigid_body_count, 0);
    let id = engine.create_dynamic_body_2d(planar_body(0.0, 2.0)).unwrap();
    assert_eq!(id, 0);
}

#[test]
fn cleanup_drops_worlds_and_keeps_counts() {
    let mut engine = PhysicsEngine::new(8, 8);
    engine.init_3d().unwrap();
    for i in 0..4 {
        engine.create_dynamic_body_3d(spatial_body(i as f32, 0.0, 0.0)).unwrap();
    }
    engine.record_step_counts();
    engine.cleanup();
    assert_eq!(engine.get_counts().rigid_body_count, 4);
    assert_eq!(engine.export_state(), Err(EngineError::NoActiveWorld));
    assert_eq!(
        engine.create_dynamic_body_3d(spatial_body(0.0, 0.0, 0.0)),
        Err(EngineError::SpatialWorldMissing)
    );
    engine.record_step_counts();
    assert_eq!(engine.get_counts().rigid_body_count, 4);
    engine.cleanup();
    assert_eq!(engine.get_counts().rigid_body_count, 4);
}

#[test]
fn export_state_serialises_the_bodies() {
    let mut engine = PhysicsEngine::new(8, 8);
    engine.init_2d().unwrap();
    engine.create_dynamic_body_2d(planar_body(1.5, -2.0)).unwrap();
    let text = engine.export_state().unwrap();
    assert!(text.starts_with('{'));
    assert!(text.ends_with('}'));
    assert!(text.contains("bodies"));

    let mut spatial_only = PhysicsEngine::new(8, 8);
    spatial_only.init_3d().unwrap();
    let text = spatial_only.export_state().unwrap();
    assert!(text.starts_with('{') && text.ends_with('}'));
}

#[test]
fn a_simulation_step_keeps_the_body_count() {
    let mut engine = PhysicsEngine::new(8, 8);
    engine.init_2d().unwrap();
    engine.create_dynamic_body_2d(planar_body(0.0, 5.0)).unwrap();
    engine.create_dynamic_body_2d(planar_body(1.0, 5.0)).unwrap();
    if let Some(world) = engine.world_2d_mut().as_mut() {
        world.integration_parameters.dt = 1.0 / 60.0;
        world.physics_pipeline.step(
            &nalgebra::Vector2::new(0.0, -9.81),
            &world.integration_parameters,
            &mut world.island_manager,
            &mut world.broad_phase,
            &mut world.narrow_phase,
            &mut world.rigid_body_set,
            &mut world.collider_set,
            &mut world.impulse_joint_set,
            &mut world.multibody_joint_set,
            &mut world.ccd_solver,
            None,
            &(),
            &(),
        );
        world.query_pipeline.update(&world.rigid_body_set, &world.collider_set);
    } else {
        panic!("the planar world was initialised");
    }
    engine.record_step_counts();
    assert_eq!(engine.get_counts().rigid_body_count, 2);
    assert!(engine.world_3d_mut().is_none());
}

#[test]
fn pooled_handles_name_their_world() {
    let h = rapier_wasm::PooledHandle { dimension: Dimension::Planar, index: 3, generation: 0 };
    assert_eq!(h.dimension, Dimension::Planar);
    assert_ne!(h.dimension, Dimension::Spatial);
}

#[test]
fn export_state_is_the_serialised_planar_set() {
    let mut engine = PhysicsEngine::new(8, 8);
    engine.init_2d().unwrap();
    engine.init_3d().unwrap();
    engine.create_dynamic_body_2d(planar_body(0.5, 0.25)).unwrap();
    engine.create_dynamic_body_3d(spatial_body(1.0, 2.0, 3.0)).unwrap();
    let text = engine.export_state().unwrap();
    let expected = serde_json::to_string(&engine.world_2d_mut().as_ref().unwrap().rigid_body_set).unwrap();
    assert_eq!(text, expected);
    let spatial = serde_json::to_string(&engine.world_3d_mut().as_ref().unwrap().rigid_body_set).unwrap();
    assert_ne!(text, spatial);
}
