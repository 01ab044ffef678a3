//! Simulation loop: world initialization and the per-frame step.
//!
//! Initialization creates every entity once — player, ground plane, maze
//! geometry — validates the configuration, and refuses to produce a world
//! on a configuration error. A missing or unbuildable maze asset is not an
//! error: the maze entity is created render-only, with no collider, and a
//! warning is recorded.
//!
//! Each frame runs the systems in a fixed, deterministic order: the input
//! mapper produces a movement intent, the integrator applies it to the
//! controllable entity's transform, the collision world corrects the
//! proposed position against static geometry, and the camera tracker
//! repositions the camera from the corrected target transform.

use vstd::prelude::*;

use crate::assets::build_mesh_collider;
use crate::assets::AssetResolution;
use crate::camera::CameraRig;
use crate::camera::CameraState;
use crate::camera::TargetObservation;
use crate::camera::OFFSET_LIMIT;
use crate::camera::ZOOM_LIMIT;
use crate::collision::Collider;
use crate::collision::CollisionWorld;
use crate::collision::ContactEvent;
use crate::collision::PlacedCollider;
use crate::errors::ColliderBuildError;
use crate::errors::ConfigurationError;
use crate::errors::InitWarning;
use crate::input::spec_poll;
use crate::input::InputSnapshot;
use crate::math::Vec3;
use crate::math::DT_LIMIT;
use crate::math::EXTENT_LIMIT;
use crate::math::SPEED_LIMIT;
use crate::physics::integrate;
use crate::physics::spec_integrate_position;
use crate::physics::LockedAxes;
use crate::physics::PhysicsBody;
use crate::transform::Transform;
use crate::transform::Yaw;
use crate::world::EntityId;
use crate::world::TagSet;
use crate::world::World;

verus! {

/// Static configuration consumed once at world initialization — an
/// explicit struct, not ambient global state. `gravity` is handed to the
/// physics collaborator; the kinematic integrator itself applies none.
#[derive(Clone, Copy, Debug, PartialEq, Eq, Structural)]
pub struct WorldConfig {
    pub gravity: Vec3,
    pub player_start: Vec3,
    pub player_speed: i64,
    pub player_radius: i64,
    pub player_locked: LockedAxes,
    pub ground_center: Vec3,
    pub ground_half: Vec3,
    pub camera_offset: Vec3,
    pub zoom_min: i64,
    pub zoom_max: i64,
}

impl WorldConfig {
    /// The controllable entity's speed is positive and bounded.
    pub open spec fn speed_ok(self) -> bool {
        0 < self.player_speed <= SPEED_LIMIT
    }

    /// The camera zoom bounds are reachable.
    pub open spec fn zoom_ok(self) -> bool {
        0 < self.zoom_min <= self.zoom_max <= ZOOM_LIMIT
    }

    /// The camera offset is in range and nonzero.
    pub open spec fn offset_ok(self) -> bool {
        &&& self.camera_offset.within(OFFSET_LIMIT as int)
        &&& crate::camera::len_sq(self.camera_offset) > 0
    }

    /// Positions and collider extents lie in the valid world range.
    pub open spec fn geometry_ok(self) -> bool {
        &&& self.player_start.in_bounds()
        &&& 0 < self.player_radius <= EXTENT_LIMIT
        &&& self.ground_center.in_bounds()
        &&& 0 < self.ground_half.x <= EXTENT_LIMIT
        &&& 0 < self.ground_half.y <= EXTENT_LIMIT
        &&& 0 < self.ground_half.z <= EXTENT_LIMIT
    }

    /// The player's collider.
    pub open spec fn player_shape(self) -> Collider {
        Collider::Sphere { radius: self.player_radius }
    }

    /// The ground plane's static collider.
    pub open spec fn ground_static(self) -> PlacedCollider {
        PlacedCollider {
            shape: Collider::Cuboid { half: self.ground_half },
            center: self.ground_center,
        }
    }
}

/// The maze's collider as it enters world initialization: built from its
/// mesh, or absent because the asset was missing or its mesh unusable.
#[derive(Debug)]
pub enum MazeSource {
    Built(PlacedCollider),
    Failed(ColliderBuildError),
    Missing,
}

/// The static colliders world initialization registers.
pub open spec fn statics_of(config: WorldConfig, maze: MazeSource) -> Seq<PlacedCollider> {
    match maze {
        MazeSource::Built(p) => seq![config.ground_static(), p],
        MazeSource::Failed(_) => seq![config.ground_static()],
        MazeSource::Missing => seq![config.ground_static()],
    }
}

/// The player's collider at its start position overlaps none of the
/// registered static geometry.
pub open spec fn start_clear(config: WorldConfig, maze: MazeSource) -> bool {
    forall|i: int|
        0 <= i < statics_of(config, maze).len() ==> !crate::collision::spec_overlaps(
            config.player_shape(),
            config.player_start,
            (#[trigger] statics_of(config, maze)[i]).shape,
            statics_of(config, maze)[i].center,
        )
}

/// What one frame hands to the collaborators: the camera transform to
/// render with (absent only before a camera target exists) and the
/// advisory dynamic-dynamic contacts.
#[derive(Debug)]
pub struct FrameOutput {
    pub camera: Option<Transform>,
    pub contacts: Vec<ContactEvent>,
}

/// The simulation: world state store, collision world, camera rig, and the
/// identity of the one controllable entity.
#[derive(Debug)]
pub struct Simulation {
    pub world: World,
    pub collision: CollisionWorld,
    pub camera: CameraRig,
    pub player: EntityId,
    pub ground: EntityId,
    pub maze: EntityId,
    pub warnings: Vec<InitWarning>,
}

impl Simulation {
    /// The player's current transform.
    pub open spec fn player_transform(self) -> Transform {
        self.world.transforms@[self.player.index as int].unwrap()
    }

    /// The player's physics body.
    pub open spec fn player_body(self) -> PhysicsBody {
        self.world.bodies@[self.player.index as int].unwrap()
    }

    /// The player's collider.
    pub open spec fn player_collider(self) -> Collider {
        self.world.colliders@[self.player.index as int].unwrap()
    }

    /// The simulation invariant: the store is well formed; the player
    /// exists with transform, body and collider; it is the only
    /// controllable entity and is the camera target; the collision world
    /// holds it as the only dynamic collider; and its current position is
    /// clear of all static geometry.
    pub open spec fn wf(self) -> bool {
        &&& self.world.wf()
        &&& self.world.has_entity(self.player)
        &&& self.world.has_entity(self.ground)
        &&& self.world.has_entity(self.maze)
        &&& self.world.transforms@[self.player.index as int].is_some()
        &&& self.world.bodies@[self.player.index as int].is_some()
        &&& self.world.colliders@[self.player.index as int].is_some()
        &&& self.world.tags@[self.player.index as int].controllable
        &&& self.world.tags@[self.player.index as int].camera_target
        &&& forall|i: int|
            0 <= i < self.world.num_entities() && i != self.player.index ==> !(
            #[trigger] self.world.tags@[i]).controllable
        &&& self.collision.wf()
        &&& self.collision.dynamics@.len() == 1
        &&& self.collision.dynamics@[0].entity == self.player.index
        &&& self.collision.dynamics@[0].shape == self.player_collider()
        &&& self.camera.valid()
        &&& self.collision.pos_free(self.player_collider(), self.player_transform().position)
    }
}

/// Initialize the world from validated configuration and the maze's
/// collider source. Configuration errors are fatal: no world is produced.
/// An absent maze collider is recovered: the maze entity exists with no
/// collider and a warning is recorded.
pub fn init_world(config: &WorldConfig, maze_src: MazeSource) -> (r: Result<
    Simulation,
    ConfigurationError,
>)
    requires
        match maze_src {
            MazeSource::Built(p) => p.valid(),
            _ => true,
        },
    ensures
        ((r matches Result::Err(e) && e is InvalidSpeed) <==> !config.speed_ok()),
        ((r matches Result::Err(e) && e is InvalidZoomBounds) <==> (config.speed_ok()
            && !config.zoom_ok())),
        ((r matches Result::Err(e) && e is InvalidCameraOffset) <==> (config.speed_ok()
            && config.zoom_ok() && !config.offset_ok())),
        ((r matches Result::Err(e) && e is InvalidGeometry) <==> (config.speed_ok()
            && config.zoom_ok() && config.offset_ok() && !(config.geometry_ok() && start_clear(
            *config,
            maze_src,
        )))),
        (r is Ok <==> (config.speed_ok() && config.zoom_ok() && config.offset_ok()
            && config.geometry_ok() && start_clear(*config, maze_src))),
        match r {
            Result::Ok(sim) => {
                &&& sim.wf()
                &&& sim.player.index == 0
                &&& sim.ground.index == 1
                &&& sim.maze.index == 2
                &&& sim.world.num_entities() == 3
                &&& sim.player_transform() == (Transform {
                    position: config.player_start,
                    rotation: Yaw::Deg0,
                    scale: Vec3 { x: crate::math::SCALE, y: crate::math::SCALE, z: crate::math::SCALE },
                })
                &&& sim.player_body() == (PhysicsBody {
                    velocity: Vec3 { x: 0i64, y: 0i64, z: 0i64 },
                    speed: config.player_speed,
                    locked: config.player_locked,
                })
                &&& sim.player_collider() == config.player_shape()
                &&& sim.collision.statics@ == statics_of(*config, maze_src)
                &&& sim.world.tags@[sim.ground.index as int].ground
                &&& sim.world.tags@[sim.maze.index as int].maze
                &&& sim.world.transforms@[sim.ground.index as int] == Option::Some(
                    Transform {
                        position: config.ground_center,
                        rotation: Yaw::Deg0,
                        scale: Vec3 { x: crate::math::SCALE, y: crate::math::SCALE, z: crate::math::SCALE },
                    },
                )
                &&& sim.world.transforms@[sim.maze.index as int] == Option::Some(
                    Transform {
                        position: Vec3 { x: 0i64, y: 0i64, z: 0i64 },
                        rotation: Yaw::Deg0,
                        scale: Vec3 { x: crate::math::SCALE, y: crate::math::SCALE, z: crate::math::SCALE },
                    },
                )
                &&& sim.world.colliders@[sim.ground.index as int] == Option::Some(
                    Collider::Cuboid { half: config.ground_half },
                )
                &&& (maze_src matches MazeSource::Built(p) ==> sim.world.colliders@[sim.maze.index as int]
                    == Option::Some(p.shape))
                &&& (maze_src is Missing ==> sim.world.colliders@[sim.maze.index as int].is_none()
                    && sim.warnings@ == seq![InitWarning::AssetMissing { entity: sim.maze.index }])
                &&& (maze_src matches MazeSource::Failed(e)
                    ==> sim.world.colliders@[sim.maze.index as int].is_none() && sim.warnings@
                    == seq![InitWarning::ColliderFailed { entity: sim.maze.index, reason: e }])
                &&& (maze_src is Built ==> sim.warnings@ == Seq::<InitWarning>::empty())
                &&& sim.world.bodies@[sim.ground.index as int].is_none()
                &&& sim.world.bodies@[sim.maze.index as int].is_none()
                &&& sim.camera.state == CameraState::Free
                &&& sim.camera.target.is_none()
                &&& sim.camera.base_offset == config.camera_offset
                &&& sim.camera.yaw == Yaw::Deg0
                &&& sim.camera.zoom_min == config.zoom_min
                &&& sim.camera.zoom_max == config.zoom_max
                &&& sim.camera.zoom == config.zoom_min
                &&& !sim.camera.cursor_locked
            },
            Result::Err(_) => true,
        },
{
    if !(0 < config.player_speed && config.player_speed <= SPEED_LIMIT) {
        return Result::Err(ConfigurationError::InvalidSpeed);
    }
    let rig = match CameraRig::new(config.camera_offset, config.zoom_min, config.zoom_max) {
        Result::Ok(rig) => rig,
        Result::Err(e) => {
            return Result::Err(e);
        },
    };
    let geometry_ok = -crate::math::POS_LIMIT <= config.player_start.x && config.player_start.x
        <= crate::math::POS_LIMIT && -crate::math::POS_LIMIT <= config.player_start.y
        && config.player_start.y <= crate::math::POS_LIMIT && -crate::math::POS_LIMIT
        <= config.player_start.z && config.player_start.z <= crate::math::POS_LIMIT && 0
        < config.player_radius && config.player_radius <= EXTENT_LIMIT && -crate::math::POS_LIMIT
        <= config.ground_center.x && config.ground_center.x <= crate::math::POS_LIMIT
        && -crate::math::POS_LIMIT <= config.ground_center.y && config.ground_center.y
        <= crate::math::POS_LIMIT && -crate::math::POS_LIMIT <= config.ground_center.z
        && config.ground_center.z <= crate::math::POS_LIMIT && 0 < config.ground_half.x
        && config.ground_half.x <= EXTENT_LIMIT && 0 < config.ground_half.y && config.ground_half.y
        <= EXTENT_LIMIT && 0 < config.ground_half.z && config.ground_half.z <= EXTENT_LIMIT;
    if !geometry_ok {
        return Result::Err(ConfigurationError::InvalidGeometry);
    }
    let mut world = World::new();
    let player = world.create_entity();
    let ground = world.create_entity();
    let maze = world.create_entity();
    world.attach_transform(
        player,
        Transform {
            position: config.player_start,
            rotation: Yaw::Deg0,
            scale: Vec3 { x: crate::math::SCALE, y: crate::math::SCALE, z: crate::math::SCALE },
        },
    );
    world.attach_body(
        player,
        PhysicsBody {
            velocity: Vec3 { x: 0, y: 0, z: 0 },
            speed: config.player_speed,
            locked: config.player_locked,
        },
    );
    let player_shape = Collider::Sphere { radius: config.player_radius };
    world.attach_collider(player, player_shape);
    world.set_tags(
        player,
        TagSet { controllable: true, camera_target: true, ground: false, maze: false },
    );
    world.attach_transform(
        ground,
        Transform {
            position: config.ground_center,
            rotation: Yaw::Deg0,
            scale: Vec3 { x: crate::math::SCALE, y: crate::math::SCALE, z: crate::math::SCALE },
        },
    );
    world.attach_collider(ground, Collider::Cuboid { half: config.ground_half });
    world.set_tags(
        ground,
        TagSet { controllable: false, camera_target: false, ground: true, maze: false },
    );
    world.attach_transform(
        maze,
        Transform {
            position: Vec3 { x: 0, y: 0, z: 0 },
            rotation: Yaw::Deg0,
            scale: Vec3 { x: crate::math::SCALE, y: crate::math::SCALE, z: crate::math::SCALE },
        },
    );
    let mut collision = CollisionWorld::new();
    collision.register_static(
        PlacedCollider {
            shape: Collider::Cuboid { half: config.ground_half },
            center: config.ground_center,
        },
    );
    let mut warnings: Vec<InitWarning> = Vec::new();
    match &maze_src {
        MazeSource::Built(p) => {
            world.attach_collider(maze, p.shape);
            world.set_tags(
                maze,
                TagSet { controllable: false, camera_target: false, ground: false, maze: true },
            );
            collision.register_static(*p);
        },
        MazeSource::Failed(e) => {
            world.set_tags(
                maze,
                TagSet { controllable: false, camera_target: false, ground: false, maze: true },
            );
            warnings.push(InitWarning::ColliderFailed { entity: maze.index, reason: *e });
            proof {
                assert(warnings@ =~= seq![
                    InitWarning::ColliderFailed { entity: maze.index, reason: *e },
                ]);
            }
        },
        MazeSource::Missing => {
            world.set_tags(
                maze,
                TagSet { controllable: false, camera_target: false, ground: false, maze: true },
            );
            warnings.push(InitWarning::AssetMissing { entity: maze.index });
            proof {
                assert(warnings@ =~= seq![InitWarning::AssetMissing { entity: maze.index }]);
            }
        },
    }
    proof {
        assert(collision.statics@ =~= statics_of(*config, maze_src));
    }
    collision.register_dynamic(player.index, player_shape);
    if !collision.is_free(&player_shape, &config.player_start) {
        return Result::Err(ConfigurationError::InvalidGeometry);
    }
    let sim = Simulation { world, collision, camera: rig, player, ground, maze, warnings };
    proof {
        assert(sim.collision.dynamics@ =~= Seq::<crate::collision::DynamicCollider>::empty().push(
            crate::collision::DynamicCollider { entity: player.index, shape: player_shape },
        ));
        assert(sim.wf());
        if maze_src is Built {
            assert(sim.warnings@ =~= Seq::<InitWarning>::empty());
        }
    }
    Result::Ok(sim)
}

/// Resolve the maze asset into a collider source: build the covering
/// collider from a resolved mesh, and record why one is absent otherwise.
pub fn maze_source_from_asset(asset: &AssetResolution) -> (r: MazeSource)
    ensures
        match asset {
            AssetResolution::Missing => r is Missing,
            AssetResolution::Resolved(mesh) => {
                &&& (r is Built <==> (mesh.vertices@.len() > 0 && mesh.triangles@.len() > 0
                    && !crate::assets::has_bad_index(*mesh) && !crate::assets::has_oob_vertex(*mesh)
                    && !crate::assets::is_flat(*mesh)))
                &&& (r matches MazeSource::Built(p) ==> p.valid() && crate::assets::covers_mesh(
                    p,
                    *mesh,
                ) && crate::assets::tight_cover(p, *mesh))
                &&& !(r is Missing)
            },
        },
        (r matches MazeSource::Built(p) ==> p.valid()),
{
    match asset {
        AssetResolution::Missing => MazeSource::Missing,
        AssetResolution::Resolved(mesh) => match build_mesh_collider(mesh) {
            Result::Ok(placed) => MazeSource::Built(placed),
            Result::Err(e) => MazeSource::Failed(e),
        },
    }
}

impl Simulation {
    /// Advance the simulation by one frame of `dt_ms` milliseconds.
    ///
    /// Systems run in fixed order with no reentrancy: input mapping,
    /// integration, collision resolution, contact reporting, camera
    /// tracking. The controllable entity's new position is exactly the
    /// collision-resolved integration of the polled movement intent; every
    /// other component of every entity is untouched.
    pub fn step(&mut self, input: &InputSnapshot, dt_ms: i64) -> (out: FrameOutput)
        requires
            old(self).wf(),
            0 <= dt_ms <= DT_LIMIT,
        ensures
            final(self).wf(),
            ({
                let pos0 = old(self).player_transform().position;
                let proposed = spec_integrate_position(
                    pos0,
                    old(self).player_body(),
                    spec_poll(*input),
                    dt_ms as int,
                );
                let corrected = old(self).collision.spec_resolve(
                    old(self).player_collider(),
                    pos0,
                    proposed,
                );
                &&& final(self).player_transform().position == corrected
                &&& final(self).collision.pos_free(old(self).player_collider(), corrected)
                &&& old(self).collision.pos_free(old(self).player_collider(), proposed)
                    ==> corrected == proposed
                &&& final(self).player_transform().rotation == old(
                    self,
                ).player_transform().rotation
                &&& final(self).player_transform().scale == old(self).player_transform().scale
                &&& final(self).camera.state == crate::camera::spec_step_state(
                    old(self).camera.state,
                    true,
                    input.orbit_held,
                )
                &&& final(self).camera.zoom == crate::math::spec_clamp(
                    old(self).camera.zoom + input.zoom_steps,
                    old(self).camera.zoom_min as int,
                    old(self).camera.zoom_max as int,
                )
                &&& out.camera == Option::Some(
                    Transform {
                        position: final(self).camera.spec_camera_position(corrected),
                        rotation: final(self).camera.yaw,
                        scale: Vec3 { x: crate::math::SCALE, y: crate::math::SCALE, z: crate::math::SCALE },
                    },
                )
            }),
            out.contacts@.len() == 0,
            final(self).player == old(self).player,
            final(self).ground == old(self).ground,
            final(self).maze == old(self).maze,
            final(self).warnings@ == old(self).warnings@,
            final(self).collision.statics@ == old(self).collision.statics@,
            final(self).collision.dynamics@ == old(self).collision.dynamics@,
            final(self).world.transforms@ == old(self).world.transforms@.update(
                old(self).player.index as int,
                Option::Some(final(self).player_transform()),
            ),
            final(self).world.bodies@ == old(self).world.bodies@,
            final(self).world.colliders@ == old(self).world.colliders@,
            final(self).world.tags@ == old(self).world.tags@,
            final(self).camera.base_offset == old(self).camera.base_offset,
            final(self).camera.zoom_min == old(self).camera.zoom_min,
            final(self).camera.zoom_max == old(self).camera.zoom_max,
    {
        let p = self.player;
        let t0 = match self.world.transform_of(p) {
            Option::Some(t) => t,
            Option::None => {
                proof {
                    assert(false);
                }
                Transform::at_position(Vec3::zero())
            },
        };
        let body = match self.world.body_of(p) {
            Option::Some(b) => b,
            Option::None => {
                proof {
                    assert(false);
                }
                PhysicsBody::new(1, LockedAxes::unlocked())
            },
        };
        let shape = match self.world.collider_of(p) {
            Option::Some(c) => c,
            Option::None => {
                proof {
                    assert(false);
                }
                Collider::Sphere { radius: 1 }
            },
        };
        let intent = crate::input::poll(input);
        let proposed = integrate(&t0, &body, &intent, dt_ms);
        let corrected = self.collision.resolve(&shape, &t0.position, &proposed.position);
        let new_t = Transform { position: corrected, rotation: t0.rotation, scale: t0.scale };
        self.world.attach_transform(p, new_t);
        let positions = vec![corrected];
        let contacts = self.collision.dynamic_contacts(&positions);
        proof {
            if contacts@.len() > 0 {
                assert(self.collision.is_overlap_event(positions@, contacts@[0]));
            }
        }
        let obs = TargetObservation { entity: p.index, position: corrected };
        let cam = self.camera.update(Option::Some(&obs), input);
        FrameOutput { camera: cam, contacts }
    }
}

} // verus!
